use vstd::prelude::*;
use crate::shape::{BlockType, base_cells, orientation_width, orientations, spawn_margins};

verus! {

/// The 16-cell occupancy mask whose filled cells are exactly the four given indices.
pub open spec fn mask_of(c: (int, int, int, int)) -> Seq<bool> {
    Seq::new(16, |i: int| i == c.0 || i == c.1 || i == c.2 || i == c.3)
}

/// Orientation `k` of kind `t` with `left` empty columns to its left.
pub open spec fn placed(t: BlockType, k: int, left: int) -> Seq<bool> {
    let b = base_cells(t, k);
    mask_of((b.0 + left, b.1 + left, b.2 + left, b.3 + left))
}

/// Left margin after leaving orientation `k` of kind `t` with left margin `left`.
/// Most steps keep the margin or halve it, so that the piece stays near the
/// columns it stood on; the T and Z pieces move one column right as they stand
/// up. The step back into orientation 0 puts a freshly spawned piece back where it
/// spawned: the L piece moves one column right there, and the S piece halves its
/// margin rounding up.
pub open spec fn rotation_left(t: BlockType, k: int, left: int) -> int {
    match t {
        BlockType::Ltype => if k == 3 {
            left + 1
        } else {
            left / 2
        },
        BlockType::Stype => if k == 0 {
            left
        } else {
            (left + 1) / 2
        },
        BlockType::Ztype => if k == 0 {
            left + 1
        } else {
            left / 2
        },
        BlockType::Ttype => if k == 0 {
            left + 1
        } else if k == 2 {
            left
        } else {
            left / 2
        },
        BlockType::Itype | BlockType::Otype => left,
    }
}

/// A piece as (mask, left margin, right margin, orientation).
pub open spec fn spawn_model(t: BlockType) -> (Seq<bool>, int, int, int) {
    (placed(t, 0, spawn_margins(t).0), spawn_margins(t).0, spawn_margins(t).1, 0)
}

/// One rotation of a piece of kind `t`: the next orientation's pattern, placed by
/// `rotation_left`.
pub open spec fn rotate_model(t: BlockType, m: (Seq<bool>, int, int, int)) -> (
    Seq<bool>,
    int,
    int,
    int,
) {
    let k = (m.3 + 1) % orientations(t);
    let w = orientation_width(t, k);
    let a = rotation_left(t, m.3, m.1);
    (placed(t, k, a), a, 4 - w - a, k)
}

pub open spec fn rotate_times(t: BlockType, m: (Seq<bool>, int, int, int), n: nat) -> (
    Seq<bool>,
    int,
    int,
    int,
)
    decreases n,
{
    if n == 0 {
        m
    } else {
        rotate_model(t, rotate_times(t, m, (n - 1) as nat))
    }
}

/// Every cell moved one column left inside the box; the rightmost column empties.
pub open spec fn shifted_left(m: Seq<bool>) -> Seq<bool> {
    Seq::new(16, |i: int| if i % 4 == 3 { false } else { m[i + 1] })
}

/// Every cell moved one column right inside the box; the leftmost column empties.
pub open spec fn shifted_right(m: Seq<bool>) -> Seq<bool> {
    Seq::new(16, |i: int| if i % 4 == 0 { false } else { m[i - 1] })
}

/// Rotating a freshly spawned piece of any kind through all of its orientations
/// brings back its spawn mask, margins and orientation.
pub proof fn lemma_rotation_cycle(t: BlockType)
    ensures
        rotate_times(t, spawn_model(t), orientations(t) as nat) == spawn_model(t),
{
    reveal_with_fuel(rotate_times, 5);
}

/// Rotating a well-formed O piece changes nothing.
pub proof fn lemma_square_rotation(p: Blocks)
    requires
        p.wf(),
        p.t == BlockType::Otype,
    ensures
        rotate_model(p.t, p.model()) == p.model(),
{
}

/// Column `c` of the box holds a filled cell.
pub open spec fn col_used(m: Seq<bool>, c: int) -> bool {
    m[c] || m[4 + c] || m[8 + c] || m[12 + c]
}

/// Number of columns from the leftmost to the rightmost used one.
pub open spec fn occupied_width(m: Seq<bool>) -> int {
    let first: int = if col_used(m, 0) {
        0
    } else if col_used(m, 1) {
        1
    } else if col_used(m, 2) {
        2
    } else {
        3
    };
    let last: int = if col_used(m, 3) {
        3
    } else if col_used(m, 2) {
        2
    } else if col_used(m, 1) {
        1
    } else {
        0
    };
    last - first + 1
}

/// The margins are the piece's true empty columns: no cell left of column
/// `left` or right of column `3 - right`, and cells in both of those columns.
pub open spec fn margins_exact(m: Seq<bool>, left: int, right: int) -> bool {
    &&& 0 <= left
    &&& 0 <= right
    &&& left + right <= 3
    &&& forall|c: int| 0 <= c < left ==> !col_used(m, c)
    &&& forall|c: int| 3 - right < c < 4 ==> !col_used(m, c)
    &&& col_used(m, left)
    &&& col_used(m, 3 - right)
}

/// Each orientation, placed anywhere it fits, has exact margins: its left margin
/// and `4 - width - left` on the right.
pub proof fn lemma_placed_exact(t: BlockType, k: int, left: int)
    requires
        0 <= k < orientations(t),
        0 <= left <= 4 - orientation_width(t, k),
    ensures
        margins_exact(placed(t, k, left), left, 4 - orientation_width(t, k) - left),
{
    let m = placed(t, k, left);
    assert(m.len() == 16);
    assert forall|c: int| 0 <= c < 4 implies #[trigger] col_used(m, c) == (left <= c < left
        + orientation_width(t, k)) by {
        assert(m[c] == (c == base_cells(t, k).0 + left || c == base_cells(t, k).1 + left || c
            == base_cells(t, k).2 + left || c == base_cells(t, k).3 + left));
        assert(m[4 + c] == (4 + c == base_cells(t, k).0 + left || 4 + c == base_cells(t, k).1
            + left || 4 + c == base_cells(t, k).2 + left || 4 + c == base_cells(t, k).3 + left));
        assert(m[8 + c] == (8 + c == base_cells(t, k).0 + left || 8 + c == base_cells(t, k).1
            + left || 8 + c == base_cells(t, k).2 + left || 8 + c == base_cells(t, k).3 + left));
        assert(m[12 + c] == (12 + c == base_cells(t, k).0 + left || 12 + c == base_cells(t, k).1
            + left || 12 + c == base_cells(t, k).2 + left || 12 + c == base_cells(t, k).3 + left));
    }
}

/// With exact margins, a shift inside the box keeps them exact, so
/// `left + right + width == 4` holds after it as before.
pub proof fn lemma_shift_margins(m: Seq<bool>, left: int, right: int)
    requires
        m.len() == 16,
        margins_exact(m, left, right),
    ensures
        left > 0 ==> margins_exact(shifted_left(m), left - 1, right + 1),
        right > 0 ==> margins_exact(shifted_right(m), left + 1, right - 1),
        left + right + occupied_width(m) == 4,
{
    if left > 0 {
        let s = shifted_left(m);
        assert forall|c: int| 0 <= c < 4 implies col_used(s, c) == (c < 3 && col_used(m, c + 1)) by {
            assert(s[c] == (c != 3 && m[c + 1]));
            assert(s[4 + c] == (c != 3 && m[4 + c + 1]));
            assert(s[8 + c] == (c != 3 && m[8 + c + 1]));
            assert(s[12 + c] == (c != 3 && m[12 + c + 1]));
        }
    }
    if right > 0 {
        let s = shifted_right(m);
        assert forall|c: int| 0 <= c < 4 implies col_used(s, c) == (c > 0 && col_used(m, c - 1)) by {
            assert(s[c] == (c != 0 && m[c - 1]));
            assert(s[4 + c] == (c != 0 && m[4 + c - 1]));
            assert(s[8 + c] == (c != 0 && m[8 + c - 1]));
            assert(s[12 + c] == (c != 0 && m[12 + c - 1]));
        }
    }
}

/// Shifting a placed pattern inside the box is the same pattern placed one column
/// over.
pub proof fn lemma_shift_placed(t: BlockType, k: int, left: int)
    requires
        0 <= k < orientations(t),
        0 <= left <= 4 - orientation_width(t, k),
    ensures
        left > 0 ==> shifted_left(placed(t, k, left)) == placed(t, k, left - 1),
        left < 4 - orientation_width(t, k) ==> shifted_right(placed(t, k, left)) == placed(
            t,
            k,
            left + 1,
        ),
{
    let m = placed(t, k, left);
    let b = base_cells(t, k);
    let w = orientation_width(t, k);
    // Every cell of the pattern lies in one of its first `w` columns.
    assert(b.0 % 4 < w && b.1 % 4 < w && b.2 % 4 < w && b.3 % 4 < w) by {
        match t {
            BlockType::Ltype => {},
            BlockType::Ttype => {},
            BlockType::Stype => {},
            BlockType::Ztype => {},
            BlockType::Itype => {},
            BlockType::Otype => {},
        }
    }
    assert(0 <= b.0 && 0 <= b.1 && 0 <= b.2 && 0 <= b.3);
    if left > 0 {
        assert(shifted_left(m) =~= placed(t, k, left - 1));
    }
    if left < 4 - w {
        assert(shifted_right(m) =~= placed(t, k, left + 1));
    }
}

/// For every well-formed piece the margins and the width of its occupied
/// columns span the box: `left + right + width == 4`. `trans` and
/// `left_and_right_move` keep pieces well formed, so this holds after each of them.
pub proof fn lemma_margins_span(p: Blocks)
    requires
        p.wf(),
    ensures
        p.inner_left_margin + p.inner_right_margin + occupied_width(p.square@) == 4,
{
    lemma_shift_margins(p.square@, p.inner_left_margin as int, p.inner_right_margin as int);
}

/// The falling piece: its kind, 4x4 occupancy (index `row * 4 + col`), the empty
/// columns on either side of it, and its orientation.
pub struct Blocks {
    pub square: Vec<bool>,
    pub t: BlockType,
    pub inner_left_margin: usize,
    pub inner_right_margin: usize,
    pub state: u8,
}

impl Blocks {
    pub open spec fn model(&self) -> (Seq<bool>, int, int, int) {
        (
            self.square@,
            self.inner_left_margin as int,
            self.inner_right_margin as int,
            self.state as int,
        )
    }

    /// The mask is the pattern of the piece's orientation placed at its left
    /// margin, the margins and the orientation's width span the box, and the
    /// margins count exactly the empty columns at either edge of the box.
    pub open spec fn wf(&self) -> bool {
        &&& self.square@.len() == 16
        &&& (self.state as int) < orientations(self.t)
        &&& self.square@ == placed(self.t, self.state as int, self.inner_left_margin as int)
        &&& self.inner_left_margin + self.inner_right_margin + orientation_width(
            self.t,
            self.state as int,
        ) == 4
        &&& margins_exact(
            self.square@,
            self.inner_left_margin as int,
            self.inner_right_margin as int,
        )
    }

    fn fill_mask(c0: usize, c1: usize, c2: usize, c3: usize) -> (r: Vec<bool>)
        ensures
            r@ == mask_of((c0 as int, c1 as int, c2 as int, c3 as int)),
    {
        let mut v: Vec<bool> = Vec::new();
        let mut i: usize = 0;
        while i < 16
            invariant
                i <= 16,
                v@.len() == i,
                forall|j: int|
                    0 <= j < i ==> v@[j] == (j == c0 as int || j == c1 as int || j == c2 as int
                        || j == c3 as int),
            decreases 16 - i,
        {
            v.push(i == c0 || i == c1 || i == c2 || i == c3);
            i += 1;
        }
        assert(v@ =~= mask_of((c0 as int, c1 as int, c2 as int, c3 as int)));
        v
    }

    /// Orientation `k` placed `left` columns from the left edge.
    fn place(t: BlockType, k: u8, left: usize) -> (r: Vec<bool>)
        requires
            (k as int) < orientations(t),
            left + orientation_width(t, k as int) <= 4,
        ensures
            r@ == placed(t, k as int, left as int),
    {
        let b = t.base_pattern(k);
        Self::fill_mask(b.0 + left, b.1 + left, b.2 + left, b.3 + left)
    }

    pub fn new(bt: BlockType) -> (r: Blocks)
        ensures
            r.wf(),
            r.t == bt,
            r.model() == spawn_model(bt),
    {
        let margin = bt.get_margin();
        let square = Self::place(bt, 0, margin.0);
        proof {
            lemma_placed_exact(bt, 0, margin.0 as int);
        }
        Blocks { square, t: bt, inner_left_margin: margin.0, inner_right_margin: margin.1, state: 0 }
    }

    /// Rotates the piece in place to its next orientation (see `rotate_model`).
    pub fn trans(&mut self)
        requires
            old(self).wf(),
        ensures
            final(self).wf(),
            final(self).t == old(self).t,
            final(self).model() == rotate_model(old(self).t, old(self).model()),
    {
        let k = self.state;
        let l = self.inner_left_margin;
        let a: usize = match self.t {
            BlockType::Ltype => if k == 3 {
                l + 1
            } else {
                l / 2
            },
            BlockType::Stype => if k == 0 {
                l
            } else {
                (l + 1) / 2
            },
            BlockType::Ztype => if k == 0 {
                l + 1
            } else {
                l / 2
            },
            BlockType::Ttype => if k == 0 {
                l + 1
            } else if k == 2 {
                l
            } else {
                l / 2
            },
            BlockType::Itype | BlockType::Otype => l,
        };
        let nk = (k + 1) % self.t.orientation_count();
        let w = self.t.pattern_width(nk);
        self.square = Self::place(self.t, nk, a);
        self.inner_left_margin = a;
        self.inner_right_margin = 4 - w - a;
        self.state = nk;
        proof {
            lemma_placed_exact(self.t, nk as int, a as int);
        }
    }

    /// Moves the cells one column inside the box when the margin on that side
    /// allows it; otherwise leaves the piece unchanged.
    pub fn left_and_right_move(&mut self, go_left: bool)
        requires
            old(self).wf(),
        ensures
            final(self).wf(),
            final(self).t == old(self).t,
            final(self).state == old(self).state,
            go_left && old(self).inner_left_margin > 0 ==> final(self).model() == (
                shifted_left(old(self).square@),
                old(self).inner_left_margin - 1,
                old(self).inner_right_margin + 1,
                old(self).state as int,
            ),
            !go_left && old(self).inner_right_margin > 0 ==> final(self).model() == (
                shifted_right(old(self).square@),
                old(self).inner_left_margin + 1,
                old(self).inner_right_margin - 1,
                old(self).state as int,
            ),
            (go_left && old(self).inner_left_margin == 0) || (!go_left
                && old(self).inner_right_margin == 0) ==> *final(self) == *old(self),
    {
        if go_left {
            if self.inner_left_margin > 0 {
                let ghost m = self.square@;
                let mut i: usize = 0;
                while i < 16
                    invariant
                        i <= 16,
                        self.square@.len() == 16,
                        m.len() == 16,
                        self.inner_left_margin == old(self).inner_left_margin,
                        self.inner_right_margin == old(self).inner_right_margin,
                        self.t == old(self).t,
                        self.state == old(self).state,
                        forall|j: int|
                            0 <= j < i ==> self.square@[j] == shifted_left(m)[j],
                        forall|j: int| i <= j < 16 ==> self.square@[j] == m[j],
                    decreases 16 - i,
                {
                    let v = if i % 4 == 3 { false } else { self.square[i + 1] };
                    self.square.set(i, v);
                    i += 1;
                }
                assert(self.square@ =~= shifted_left(m));
                proof {
                    lemma_shift_margins(m, old(self).inner_left_margin as int, old(self).inner_right_margin as int);
                    lemma_shift_placed(self.t, self.state as int, old(self).inner_left_margin as int);
                }
                self.inner_left_margin -= 1;
                self.inner_right_margin += 1;
            }
        } else if self.inner_right_margin > 0 {
            let ghost m = self.square@;
            let mut i: usize = 16;
            while i > 0
                invariant
                    i <= 16,
                    self.square@.len() == 16,
                    m.len() == 16,
                    self.inner_left_margin == old(self).inner_left_margin,
                    self.inner_right_margin == old(self).inner_right_margin,
                    self.t == old(self).t,
                    self.state == old(self).state,
                    forall|j: int| i <= j < 16 ==> self.square@[j] == shifted_right(m)[j],
                    forall|j: int| 0 <= j < i ==> self.square@[j] == m[j],
                decreases i,
            {
                let k = i - 1;
                let v = if k % 4 == 0 { false } else { self.square[k - 1] };
                self.square.set(k, v);
                i -= 1;
            }
            assert(self.square@ =~= shifted_right(m));
            proof {
                lemma_shift_margins(m, old(self).inner_left_margin as int, old(self).inner_right_margin as int);
                lemma_shift_placed(self.t, self.state as int, old(self).inner_left_margin as int);
            }
            self.inner_right_margin -= 1;
            self.inner_left_margin += 1;
        }
    }
}

} // verus!
