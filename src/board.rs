use vstd::prelude::*;
use crate::shape::BlockType;

verus! {

/// One playfield cell: empty, or filled by a piece of the given kind.
#[derive(Clone, Copy, PartialEq, Eq, Structural, Debug)]
pub enum Cell {
    Empty,
    Filled(BlockType),
}

pub open spec fn row_full(row: Seq<Cell>) -> bool {
    forall|c: int| 0 <= c < row.len() ==> row[c] != Cell::Empty
}

pub open spec fn empty_row(width: int) -> Seq<Cell> {
    Seq::new(width as nat, |c: int| Cell::Empty)
}

/// The piece whose 4x4 box has its bottom row at `row` and its left column at
/// `col` may stand on `g`: each of its filled cells that lies at row 0 or below
/// is empty on the board; cells above the board never collide.
pub open spec fn can_occupy(g: Seq<Seq<Cell>>, col: int, row: int, mask: Seq<bool>) -> bool {
    forall|ly: int, lx: int|
        0 <= ly < 4 && 0 <= lx < 4 && #[trigger] mask[4 * ly + lx] && row - 3 + ly >= 0
            ==> g[row - 3 + ly][col + lx] == Cell::Empty
}

/// Board cell `(r, c)` lies under a filled cell of the piece.
pub open spec fn covers(col: int, row: int, mask: Seq<bool>, r: int, c: int) -> bool {
    &&& col <= c < col + 4
    &&& row - 3 <= r <= row
    &&& mask[(r - row + 3) * 4 + (c - col)]
}

/// The board after merging the piece's filled cells into it.
pub open spec fn locked(
    g: Seq<Seq<Cell>>,
    col: int,
    row: int,
    mask: Seq<bool>,
    t: BlockType,
) -> Seq<Seq<Cell>> {
    Seq::new(
        g.len(),
        |r: int|
            Seq::new(
                g[r].len(),
                |c: int|
                    if covers(col, row, mask, r, c) {
                        Cell::Filled(t)
                    } else {
                        g[r][c]
                    },
            ),
    )
}

/// The piece must lock: its bottom row rests on the floor row's neighbour, or
/// one row lower it would collide.
pub open spec fn resting(g: Seq<Seq<Cell>>, col: int, row: int, mask: Seq<bool>) -> bool {
    row + 2 >= g.len() || !can_occupy(g, col, row + 1, mask)
}

/// The rows of `g` from index `s` on that are not full, in order.
pub open spec fn kept_from(g: Seq<Seq<Cell>>, s: int) -> Seq<Seq<Cell>>
    decreases g.len() - s,
{
    if s < 0 || s >= g.len() {
        Seq::empty()
    } else if row_full(g[s]) {
        kept_from(g, s + 1)
    } else {
        seq![g[s]].add(kept_from(g, s + 1))
    }
}

/// Number of full rows of `g`.
pub open spec fn full_count(g: Seq<Seq<Cell>>) -> int {
    g.len() - kept_from(g, 0).len()
}

/// `g` with its full rows removed, the others moved down in order and
/// empty rows added on top.
pub open spec fn compacted(g: Seq<Seq<Cell>>, width: int) -> Seq<Seq<Cell>> {
    let k = kept_from(g, 0);
    let n = g.len() - k.len();
    Seq::new(g.len(), |r: int| if r < n { empty_row(width) } else { k[r - n] })
}

pub proof fn lemma_kept_len(g: Seq<Seq<Cell>>, s: int)
    requires
        0 <= s <= g.len(),
    ensures
        kept_from(g, s).len() <= g.len() - s,
    decreases g.len() - s,
{
    if s < g.len() {
        lemma_kept_len(g, s + 1);
    }
}

/// No row kept by compaction is full.
pub proof fn lemma_kept_not_full(g: Seq<Seq<Cell>>, s: int)
    requires
        0 <= s <= g.len(),
    ensures
        forall|i: int| 0 <= i < kept_from(g, s).len() ==> !row_full(#[trigger] kept_from(g, s)[i]),
    decreases g.len() - s,
{
    if s < g.len() {
        lemma_kept_not_full(g, s + 1);
        let k = kept_from(g, s + 1);
        if !row_full(g[s]) {
            assert forall|i: int| 0 <= i < kept_from(g, s).len() implies !row_full(
                #[trigger] kept_from(g, s)[i],
            ) by {
                if i > 0 {
                    assert(kept_from(g, s)[i] == k[i - 1]);
                }
            }
        }
    }
}

/// Without full rows, compaction keeps every row.
pub proof fn lemma_kept_all(g: Seq<Seq<Cell>>, s: int)
    requires
        0 <= s <= g.len(),
        forall|i: int| s <= i < g.len() ==> !row_full(#[trigger] g[i]),
    ensures
        kept_from(g, s) == g.subrange(s, g.len() as int),
    decreases g.len() - s,
{
    if s < g.len() {
        lemma_kept_all(g, s + 1);
        assert(kept_from(g, s) =~= g.subrange(s, g.len() as int));
    } else {
        assert(kept_from(g, s) =~= g.subrange(s, g.len() as int));
    }
}

/// After a piece is locked, it can no longer stand where it was locked, as long
/// as one of its filled cells lies on the board.
pub proof fn lemma_lock_blocks(
    g: Seq<Seq<Cell>>,
    width: int,
    col: int,
    row: int,
    mask: Seq<bool>,
    t: BlockType,
)
    requires
        forall|r: int| 0 <= r < g.len() ==> (#[trigger] g[r]).len() == width,
        0 <= col,
        col + 4 <= width,
        0 <= row < g.len(),
        mask.len() == 16,
        exists|ly: int, lx: int|
            0 <= ly < 4 && 0 <= lx < 4 && #[trigger] mask[4 * ly + lx] && row - 3 + ly >= 0,
    ensures
        !can_occupy(locked(g, col, row, mask, t), col, row, mask),
{
    let (ly, lx) = choose|ly: int, lx: int|
        0 <= ly < 4 && 0 <= lx < 4 && #[trigger] mask[4 * ly + lx] && row - 3 + ly >= 0;
    let g1 = locked(g, col, row, mask, t);
    let r = row - 3 + ly;
    assert(covers(col, row, mask, r, col + lx));
    assert(g1[r][col + lx] == Cell::Filled(t));
}

/// Clearing twice in a row: the second pass finds no full row and changes nothing.
pub proof fn lemma_clear_idempotent(g: Seq<Seq<Cell>>, width: int)
    requires
        width > 0,
        forall|r: int| 0 <= r < g.len() ==> (#[trigger] g[r]).len() == width,
    ensures
        full_count(compacted(g, width)) == 0,
        compacted(compacted(g, width), width) == compacted(g, width),
{
    let k = kept_from(g, 0);
    let n = g.len() - k.len();
    let h = compacted(g, width);
    lemma_kept_len(g, 0);
    lemma_kept_not_full(g, 0);
    assert forall|i: int| 0 <= i < h.len() implies !row_full(#[trigger] h[i]) by {
        if i < n {
            assert(h[i][0] == Cell::Empty);
        } else {
            assert(h[i] == k[i - n]);
        }
    }
    lemma_kept_all(h, 0);
    assert(kept_from(h, 0) =~= h);
    assert(compacted(h, width) =~= h);
}

/// The playfield: `rows` rows of `width` cells, row 0 on top; the last row is the
/// floor that pieces rest on.
pub struct Board {
    pub rows: usize,
    pub width: usize,
    pub cells: Vec<Vec<Cell>>,
}

impl Board {
    pub open spec fn grid(&self) -> Seq<Seq<Cell>> {
        Seq::new(self.cells@.len(), |r: int| self.cells@[r]@)
    }

    pub open spec fn wf(&self) -> bool {
        &&& 4 <= self.rows <= 0xffff
        &&& 4 <= self.width <= 0xffff
        &&& self.cells@.len() == self.rows
        &&& forall|r: int| 0 <= r < self.rows ==> (#[trigger] self.cells@[r])@.len() == self.width
    }

    fn blank_row(width: usize) -> (r: Vec<Cell>)
        ensures
            r@ == empty_row(width as int),
    {
        let mut v: Vec<Cell> = Vec::new();
        let mut i: usize = 0;
        while i < width
            invariant
                i <= width,
                v@ == empty_row(i as int),
            decreases width - i,
        {
            v.push(Cell::Empty);
            i += 1;
            assert(v@ =~= empty_row(i as int));
        }
        v
    }

    /// An empty playfield.
    pub fn new(rows: usize, width: usize) -> (r: Board)
        requires
            4 <= rows <= 0xffff,
            4 <= width <= 0xffff,
        ensures
            r.wf(),
            r.rows == rows,
            r.width == width,
            r.grid() == Seq::new(rows as nat, |i: int| empty_row(width as int)),
    {
        let mut cells: Vec<Vec<Cell>> = Vec::new();
        let mut i: usize = 0;
        while i < rows
            invariant
                i <= rows,
                cells@.len() == i,
                forall|r: int| 0 <= r < i ==> (#[trigger] cells@[r])@ == empty_row(width as int),
            decreases rows - i,
        {
            cells.push(Self::blank_row(width));
            i += 1;
        }
        let b = Board { rows, width, cells };
        assert(b.grid() =~= Seq::new(rows as nat, |i: int| empty_row(width as int)));
        b
    }

    pub fn get_cell(&self, r: usize, c: usize) -> (v: Cell)
        requires
            self.wf(),
            r < self.rows,
            c < self.width,
        ensures
            v == self.grid()[r as int][c as int],
    {
        self.cells[r][c]
    }

    fn copy_row(&self, r: usize) -> (v: Vec<Cell>)
        requires
            self.wf(),
            r < self.rows,
        ensures
            v@ == self.grid()[r as int],
    {
        let mut v: Vec<Cell> = Vec::new();
        let mut c: usize = 0;
        while c < self.width
            invariant
                self.wf(),
                r < self.rows,
                c <= self.width,
                v@ == self.grid()[r as int].subrange(0, c as int),
            decreases self.width - c,
        {
            v.push(self.cells[r][c]);
            c += 1;
            assert(v@ =~= self.grid()[r as int].subrange(0, c as int));
        }
        assert(v@ =~= self.grid()[r as int]);
        v
    }

    /// Writes one cell.
    pub fn set_cell(&mut self, r: usize, c: usize, v: Cell)
        requires
            old(self).wf(),
            r < old(self).rows,
            c < old(self).width,
        ensures
            final(self).wf(),
            final(self).rows == old(self).rows,
            final(self).width == old(self).width,
            final(self).grid() == old(self).grid().update(
                r as int,
                old(self).grid()[r as int].update(c as int, v),
            ),
    {
        let mut row = self.copy_row(r);
        row.set(c, v);
        self.cells.set(r, row);
        assert(self.grid() =~= old(self).grid().update(
            r as int,
            old(self).grid()[r as int].update(c as int, v),
        ));
    }

    /// Every cell of row `line_num` is filled.
    pub fn is_fill_line(&self, line_num: usize) -> (r: bool)
        requires
            self.wf(),
            line_num < self.rows,
        ensures
            r == row_full(self.grid()[line_num as int]),
    {
        let mut x: usize = 0;
        while x < self.width
            invariant
                self.wf(),
                line_num < self.rows,
                x <= self.width,
                forall|c: int| 0 <= c < x ==> self.grid()[line_num as int][c] != Cell::Empty,
            decreases self.width - x,
        {
            if self.cells[line_num][x] == Cell::Empty {
                return false;
            }
            x += 1;
        }
        true
    }

    /// The piece with the given mask, its box's bottom row at `row` and left
    /// column at `col`, overlaps no filled cell.
    pub fn can_occupy(&self, col: usize, row: usize, mask: &Vec<bool>) -> (r: bool)
        requires
            self.wf(),
            mask@.len() == 16,
            col + 4 <= self.width,
            row < self.rows,
        ensures
            r == can_occupy(self.grid(), col as int, row as int, mask@),
    {
        let mut ly: usize = 0;
        while ly < 4
            invariant
                self.wf(),
                mask@.len() == 16,
                col + 4 <= self.width,
                row < self.rows,
                ly <= 4,
                forall|y: int, x: int|
                    0 <= y < ly && 0 <= x < 4 && #[trigger] mask@[4 * y + x] && row - 3 + y >= 0
                        ==> self.grid()[row - 3 + y][col + x] == Cell::Empty,
            decreases 4 - ly,
        {
            if row + ly >= 3 {
                let r = row + ly - 3;
                let mut lx: usize = 0;
                while lx < 4
                    invariant
                        self.wf(),
                        mask@.len() == 16,
                        col + 4 <= self.width,
                        row < self.rows,
                        ly < 4,
                        row + ly >= 3,
                        r == row + ly - 3,
                        lx <= 4,
                        forall|y: int, x: int|
                            0 <= y < ly && 0 <= x < 4 && #[trigger] mask@[4 * y + x] && row - 3
                                + y >= 0 ==> self.grid()[row - 3 + y][col + x] == Cell::Empty,
                        forall|x: int|
                            0 <= x < lx && #[trigger] mask@[4 * ly + x] ==> self.grid()[r as int][col
                                + x] == Cell::Empty,
                    decreases 4 - lx,
                {
                    if mask[4 * ly + lx] && self.cells[r][col + lx] != Cell::Empty {
                        assert(mask@[4 * ly + lx]);
                        return false;
                    }
                    lx += 1;
                }
            }
            ly += 1;
        }
        true
    }

    /// The piece has to lock where it stands.
    pub fn is_bottom(&self, col: usize, row: usize, mask: &Vec<bool>) -> (r: bool)
        requires
            self.wf(),
            mask@.len() == 16,
            col + 4 <= self.width,
            row + 2 <= self.rows,
        ensures
            r == resting(self.grid(), col as int, row as int, mask@),
    {
        if row + 2 >= self.rows {
            true
        } else {
            !self.can_occupy(col, row + 1, mask)
        }
    }

    fn locked_row(&self, r: usize, col: usize, row: usize, mask: &Vec<bool>, t: BlockType) -> (v: Vec<Cell>)
        requires
            self.wf(),
            mask@.len() == 16,
            col + 4 <= self.width,
            r <= row < self.rows,
            row <= r + 3,
        ensures
            v@ == locked(self.grid(), col as int, row as int, mask@, t)[r as int],
    {
        let ghost target = locked(self.grid(), col as int, row as int, mask@, t)[r as int];
        let ly = r + 3 - row;
        let mut v: Vec<Cell> = Vec::new();
        let mut c: usize = 0;
        while c < self.width
            invariant
                self.wf(),
                mask@.len() == 16,
                col + 4 <= self.width,
                r <= row < self.rows,
                row <= r + 3,
                ly == r + 3 - row,
                c <= self.width,
                target == locked(self.grid(), col as int, row as int, mask@, t)[r as int],
                v@ == target.subrange(0, c as int),
            decreases self.width - c,
        {
            let cell = if col <= c && c < col + 4 && mask[ly * 4 + (c - col)] {
                Cell::Filled(t)
            } else {
                self.cells[r][c]
            };
            v.push(cell);
            c += 1;
            assert(v@ =~= target.subrange(0, c as int));
        }
        assert(v@ =~= target);
        v
    }

    /// Merges the piece's filled cells into the board.
    pub fn lock(&mut self, col: usize, row: usize, mask: &Vec<bool>, t: BlockType)
        requires
            old(self).wf(),
            mask@.len() == 16,
            col + 4 <= old(self).width,
            row < old(self).rows,
        ensures
            final(self).wf(),
            final(self).rows == old(self).rows,
            final(self).width == old(self).width,
            final(self).grid() == locked(old(self).grid(), col as int, row as int, mask@, t),
    {
        let ghost g = self.grid();
        let ghost target = locked(g, col as int, row as int, mask@, t);
        let mut r: usize = if row >= 3 { row - 3 } else { 0 };
        while r <= row
            invariant
                self.wf(),
                self.rows == old(self).rows,
                self.width == old(self).width,
                mask@.len() == 16,
                col + 4 <= self.width,
                row < self.rows,
                row <= r + 3,
                r <= row + 1,
                g == old(self).grid(),
                g.len() == self.rows,
                target == locked(g, col as int, row as int, mask@, t),
                forall|i: int| 0 <= i < r ==> (#[trigger] self.cells@[i])@ == target[i],
                forall|i: int| r <= i < self.rows ==> (#[trigger] self.cells@[i])@ == g[i],
            decreases row + 1 - r,
        {
            let new_row = self.locked_row(r, col, row, mask, t);
            self.cells.set(r, new_row);
            r += 1;
        }
        assert forall|i: int| 0 <= i < self.rows implies (#[trigger] self.cells@[i])@ == target[i] by {
            if i > row {
                assert(target[i] =~= g[i]);
            }
            if i < row - 3 {
                assert(target[i] =~= g[i]);
            }
        }
        assert(self.grid() =~= target);
    }

    /// Removes every full row, moves the rows above them down and empties the
    /// rows uncovered at the top; returns how many rows were removed.
    pub fn remove_line(&mut self) -> (n: u32)
        requires
            old(self).wf(),
        ensures
            final(self).wf(),
            final(self).rows == old(self).rows,
            final(self).width == old(self).width,
            final(self).grid() == compacted(old(self).grid(), old(self).width as int),
            n as int == full_count(old(self).grid()),
    {
        let ghost g = self.grid();
        let mut src: usize = self.rows;
        let mut dst: usize = self.rows;
        proof {
            lemma_kept_len(g, src as int);
        }
        while src > 0
            invariant
                self.wf(),
                self.rows == old(self).rows,
                self.width == old(self).width,
                g == old(self).grid(),
                g.len() == self.rows,
                src <= dst <= self.rows,
                dst == self.rows - kept_from(g, src as int).len(),
                forall|r: int|
                    dst <= r < self.rows ==> (#[trigger] self.cells@[r])@ == kept_from(g, src as int)[r
                        - dst],
                forall|r: int| 0 <= r < src ==> (#[trigger] self.cells@[r])@ == g[r],
            decreases src,
        {
            let s = src - 1;
            proof {
                lemma_kept_len(g, s as int);
                lemma_kept_len(g, src as int);
            }
            if !self.is_fill_line(s) {
                let copy = self.copy_row(s);
                dst -= 1;
                self.cells.set(dst, copy);
                assert forall|r: int| dst <= r < self.rows implies (#[trigger] self.cells@[r])@
                    == kept_from(g, s as int)[r - dst] by {
                    if r > dst {
                        assert(kept_from(g, s as int)[r - dst] == kept_from(g, src as int)[r - dst - 1]);
                    }
                }
            }
            src = s;
        }
        let mut r: usize = 0;
        let ghost k = kept_from(g, 0);
        while r < dst
            invariant
                self.wf(),
                self.rows == old(self).rows,
                self.width == old(self).width,
                g == old(self).grid(),
                k == kept_from(g, 0),
                g.len() == self.rows,
                dst == self.rows - k.len(),
                r <= dst <= self.rows,
                forall|i: int| dst <= i < self.rows ==> (#[trigger] self.cells@[i])@ == k[i - dst],
                forall|i: int| 0 <= i < r ==> (#[trigger] self.cells@[i])@ == empty_row(self.width as int),
            decreases dst - r,
        {
            let blank = Self::blank_row(self.width);
            self.cells.set(r, blank);
            r += 1;
        }
        assert(self.grid() =~= compacted(g, self.width as int));
        dst as u32
    }
}

} // verus!
