use vstd::prelude::*;
use pcg_with_xorshift::PcgWithXorshift;
use pcg_with_xorshift::RandomNumberGeneratorEngine;
use crate::board::{Board, Cell, can_occupy, compacted, empty_row, full_count, locked, resting};
use crate::piece::{Blocks, rotate_model, shifted_left, shifted_right, spawn_model};
use crate::shape::{BlockType, type_of_draw};

verus! {

#[verifier::external_type_specification]
#[verifier::external_body]
pub struct ExPcgWithXorshift(PcgWithXorshift);

/// Relies on `PcgWithXorshift::new`: a generator seeded with the crate's default seed.
#[verifier::external_body]
fn new_generator() -> PcgWithXorshift {
    PcgWithXorshift::new(None)
}

/// Relies on `RandomNumberGeneratorEngine::get_round` of `PcgWithXorshift`: a
/// number below `round`, which must not be 0 (it is a divisor there).
#[verifier::external_body]
fn draw_below(rng: &mut PcgWithXorshift, round: u32) -> (r: u32)
    requires
        round > 0,
    ensures
        r < round,
{
    rng.get_round(round)
}

/// Score at which the game is won.
pub const WIN_SCORE: u32 = 500;

/// Value the tick budget is reset to after each gravity step.
pub const TICK_BUDGET: u32 = 100;

/// Where the game stands.
#[derive(Clone, Copy, PartialEq, Eq, Structural, Debug)]
pub enum Outcome {
    Running,
    Won,
    Lost,
}

/// Why a game cannot start.
#[derive(Clone, Copy, PartialEq, Eq, Structural, Debug)]
pub enum SetupError {
    /// The terminal is smaller than 17 rows by 31 columns.
    TooSmall,
}

/// Screen rows and columns used for a terminal of the given size: `m` rows, where
/// `m` is the most that both the height and the width allow, and `2m + 7` columns.
pub open spec fn formatted(d0: int, d1: int) -> (int, int) {
    let m = if d0 <= (d1 - 7) / 2 {
        d0
    } else {
        (d1 - 7) / 2
    };
    (m, 2 * m + 7)
}

/// Picks the screen size for a terminal of at least 17 rows and 31 columns: the
/// playfield is two columns per cell plus borders and a 10-column side panel.
pub fn format_dimensions(dim: (u16, u16)) -> (r: (u16, u16))
    requires
        dim.0 >= 17,
        dim.1 >= 31,
    ensures
        (r.0 as int, r.1 as int) == formatted(dim.0 as int, dim.1 as int),
{
    if (dim.0 as u32 - 2) * 2 <= dim.1 as u32 - 11 {
        (dim.0, (dim.0 - 2) * 2 + 3 + 8)
    } else if dim.1 % 2 == 1 {
        ((dim.1 - 11) / 2 + 2, dim.1)
    } else {
        ((dim.1 - 12) / 2 + 2, dim.1 - 1)
    }
}

pub open spec fn command_of(byte: u8) -> u8 {
    if byte == 97 {
        0
    } else if byte == 100 {
        1
    } else if byte == 119 {
        2
    } else if byte == 115 {
        3
    } else {
        4
    }
}

/// Maps a key to a command: `a` (97) left, `d` (100) right, `w` (119) rotate,
/// `s` (115) down, any other none (4).
pub fn command_of_key(byte: u8) -> (r: u8)
    ensures
        r == command_of(byte),
{
    match byte {
        97 => 0,
        100 => 1,
        119 => 2,
        115 => 3,
        _ => 4,
    }
}

/// The piece (model, left column, bottom row) after applying command `dir`:
/// 0 left, 1 right, 2 rotate, 3 down, anything else nothing. A sideways move first
/// shifts the cells inside the box; only when the margin on that side is used up
/// does the box move, and then only onto free cells inside the playfield. A
/// rotation is kept even when it overlaps.
pub open spec fn move_result(
    g: Seq<Seq<Cell>>,
    width: int,
    t: BlockType,
    m: (Seq<bool>, int, int, int),
    col: int,
    row: int,
    dir: u8,
) -> ((Seq<bool>, int, int, int), int, int) {
    if dir == 0 {
        if m.1 > 0 {
            ((shifted_left(m.0), m.1 - 1, m.2 + 1, m.3), col, row)
        } else if col > 0 && can_occupy(g, col - 1, row, m.0) {
            (m, col - 1, row)
        } else {
            (m, col, row)
        }
    } else if dir == 1 {
        if m.2 > 0 {
            ((shifted_right(m.0), m.1 + 1, m.2 - 1, m.3), col, row)
        } else if col + 4 < width && can_occupy(g, col + 1, row, m.0) {
            (m, col + 1, row)
        } else {
            (m, col, row)
        }
    } else if dir == 2 {
        (rotate_model(t, m), col, row)
    } else if dir == 3 {
        (m, col, row + 1)
    } else {
        (m, col, row)
    }
}

/// `post` is the game after the piece with `mask`, kind `t`, left column `col`
/// and bottom row `row` locked on `g` with the score at `score`: the piece is
/// merged, full rows cleared, ten points scored per row, the outcome decided and,
/// while the game goes on, the next kind spawned at the top.
pub open spec fn settles_from(
    post: Game,
    g: Seq<Seq<Cell>>,
    width: int,
    mask: Seq<bool>,
    col: int,
    row: int,
    t: BlockType,
    score: int,
    next: BlockType,
) -> bool {
    let g1 = locked(g, col, row, mask, t);
    &&& post.game_board.wf()
    &&& post.game_board.width == width
    &&& post.grid() == compacted(g1, width)
    &&& post.score == score + 10 * full_count(g1)
    &&& post.outcome == outcome_after(post.score as int, mask, row)
    &&& post.outcome == Outcome::Running ==> {
        &&& post.wf()
        &&& post.current_block_type == next
        &&& post.blocks.model() == spawn_model(next)
        &&& post.col == (width - 4) / 2
        &&& post.row == 1
    }
}

/// Some filled cell of the piece lies in board row 1 or above.
pub open spec fn reaches_top(mask: Seq<bool>, row: int) -> bool {
    exists|ly: int, lx: int| 0 <= ly < 4 && 0 <= lx < 4 && #[trigger] mask[4 * ly + lx] && row - 3 + ly <= 1
}

/// Outcome after a piece locked at `row` and the score became `score`.
pub open spec fn outcome_after(score: int, mask: Seq<bool>, row: int) -> Outcome {
    if score >= WIN_SCORE {
        Outcome::Won
    } else if reaches_top(mask, row) {
        Outcome::Lost
    } else {
        Outcome::Running
    }
}

pub open spec fn speed_for(score: int) -> int {
    5 + score / 100
}

/// Game state: the playfield, the falling piece with its box's left column and
/// bottom row, the current and next kinds, score, speed and tick budget.
pub struct Game {
    pub game_board: Board,
    pub blocks: Blocks,
    pub col: usize,
    pub row: usize,
    pub current_block_type: BlockType,
    pub next_block_type: BlockType,
    pub score: u32,
    pub speed: u32,
    pub total_time: u32,
    pub outcome: Outcome,
    pub pcg: PcgWithXorshift,
}

impl Game {
    /// The piece sits inside the playfield, at most on the row above the floor.
    pub open spec fn wf_placed(&self) -> bool {
        &&& self.game_board.wf()
        &&& self.blocks.wf()
        &&& self.blocks.t == self.current_block_type
        &&& self.col + 4 <= self.game_board.width
        &&& self.row + 2 <= self.game_board.rows
        &&& self.score < WIN_SCORE
        &&& self.speed == speed_for(self.score as int)
    }

    /// Between ticks the game is running and the piece's bottom row lies above
    /// the row next to the floor.
    pub open spec fn wf(&self) -> bool {
        &&& self.wf_placed()
        &&& self.row + 3 <= self.game_board.rows
        &&& self.outcome == Outcome::Running
    }

    pub open spec fn grid(&self) -> Seq<Seq<Cell>> {
        self.game_board.grid()
    }

    /// Where the piece ends up after this tick's gravity step or command.
    pub open spec fn stepped(&self, key: u8) -> ((Seq<bool>, int, int, int), int, int) {
        if self.total_time <= self.speed {
            (self.blocks.model(), self.col as int, self.row + 1)
        } else {
            move_result(
                self.grid(),
                self.game_board.width as int,
                self.current_block_type,
                self.blocks.model(),
                self.col as int,
                self.row as int,
                key,
            )
        }
    }

    /// A game on the given playfield with the given current and next kinds; the
    /// first piece stands at the spawn place.
    pub fn with_board(board: Board, current: BlockType, next: BlockType) -> (r: Game)
        requires
            board.wf(),
        ensures
            r.wf(),
            r.game_board == board,
            r.current_block_type == current,
            r.next_block_type == next,
            r.blocks.model() == spawn_model(current),
            r.col == (board.width - 4) / 2,
            r.row == 1,
            r.score == 0,
            r.speed == 5,
            r.total_time == TICK_BUDGET,
    {
        let col = (board.width - 4) / 2;
        Game {
            game_board: board,
            blocks: Blocks::new(current),
            col,
            row: 1,
            current_block_type: current,
            next_block_type: next,
            score: 0,
            speed: 5,
            total_time: TICK_BUDGET,
            outcome: Outcome::Running,
            pcg: new_generator(),
        }
    }

    /// A game for a terminal of `dimensions` (rows, columns): an empty playfield of
    /// the formatted height and half the width left of the side panel, and two
    /// random kinds. Fails when the terminal is under 17 rows or 31 columns.
    pub fn new(dimensions: (u16, u16)) -> (r: Result<Game, SetupError>)
        ensures
            r is Err <==> dimensions.0 < 17 || dimensions.1 < 31,
            r is Ok ==> {
                let g = r->Ok_0;
                let f = formatted(dimensions.0 as int, dimensions.1 as int);
                &&& g.wf()
                &&& g.game_board.rows == f.0
                &&& g.game_board.width == (f.1 - 10) / 2
                &&& g.grid() == Seq::new(f.0 as nat, |i: int| empty_row((f.1 - 10) / 2))
                &&& g.blocks.model() == spawn_model(g.current_block_type)
                &&& g.col == (g.game_board.width - 4) / 2
                &&& g.row == 1
                &&& g.score == 0
                &&& g.total_time == TICK_BUDGET
            },
    {
        if dimensions.0 < 17 || dimensions.1 < 31 {
            return Err(SetupError::TooSmall);
        }
        let screen = format_dimensions(dimensions);
        let rows = screen.0 as usize;
        let width = (screen.1 as usize - 10) / 2;
        let board = Board::new(rows, width);
        let mut game = Self::with_board(board, BlockType::Otype, BlockType::Otype);
        let ct = BlockType::random_type(draw_below(&mut game.pcg, 6));
        let nt = BlockType::random_type(draw_below(&mut game.pcg, 6));
        game.current_block_type = ct;
        game.blocks = Blocks::new(ct);
        game.next_block_type = nt;
        Ok(game)
    }

    /// Applies one command to the falling piece (see `move_result`).
    pub fn mov(&mut self, direction: u8)
        requires
            old(self).wf(),
        ensures
            ({
                let r = move_result(
                    old(self).grid(),
                    old(self).game_board.width as int,
                    old(self).current_block_type,
                    old(self).blocks.model(),
                    old(self).col as int,
                    old(self).row as int,
                    direction,
                );
                &&& final(self).blocks.model() == r.0
                &&& final(self).col == r.1
                &&& final(self).row == r.2
            }),
            final(self).wf_placed(),
            final(self).game_board == old(self).game_board,
            final(self).current_block_type == old(self).current_block_type,
            final(self).next_block_type == old(self).next_block_type,
            final(self).score == old(self).score,
            final(self).speed == old(self).speed,
            final(self).total_time == old(self).total_time,
            final(self).outcome == old(self).outcome,
    {
        match direction {
            0 => {
                if self.blocks.inner_left_margin > 0 {
                    self.blocks.left_and_right_move(true);
                } else if self.col > 0 && self.game_board.can_occupy(
                    self.col - 1,
                    self.row,
                    &self.blocks.square,
                ) {
                    self.col -= 1;
                }
            },
            1 => {
                if self.blocks.inner_right_margin > 0 {
                    self.blocks.left_and_right_move(false);
                } else if self.col + 4 < self.game_board.width && self.game_board.can_occupy(
                    self.col + 1,
                    self.row,
                    &self.blocks.square,
                ) {
                    self.col += 1;
                }
            },
            2 => {
                self.blocks.trans();
            },
            3 => {
                self.row += 1;
            },
            _ => {},
        }
    }

    /// One tick before any lock: when the budget is used up the piece falls a row
    /// and the budget is refilled; otherwise the budget shrinks by the speed and
    /// the command `key` is applied. Returns whether the piece must now lock.
    pub fn advance(&mut self, key: u8) -> (locks: bool)
        requires
            old(self).wf(),
        ensures
            ({
                let p = old(self).stepped(key);
                &&& final(self).blocks.model() == p.0
                &&& final(self).col == p.1
                &&& final(self).row == p.2
                &&& locks == resting(old(self).grid(), p.1, p.2, p.0.0)
            }),
            final(self).total_time == if old(self).total_time <= old(self).speed {
                TICK_BUDGET as int
            } else {
                old(self).total_time - old(self).speed
            },
            final(self).wf_placed(),
            !locks ==> final(self).wf(),
            final(self).outcome == Outcome::Running,
            final(self).game_board == old(self).game_board,
            final(self).current_block_type == old(self).current_block_type,
            final(self).next_block_type == old(self).next_block_type,
            final(self).score == old(self).score,
            final(self).speed == old(self).speed,
    {
        if self.total_time <= self.speed {
            self.row += 1;
            self.total_time = TICK_BUDGET;
        } else {
            self.total_time -= self.speed;
            if key < 4 {
                self.mov(key);
            }
        }
        self.game_board.is_bottom(self.col, self.row, &self.blocks.square)
    }

    fn piece_reaches_top(mask: &Vec<bool>, row: usize) -> (r: bool)
        requires
            mask@.len() == 16,
        ensures
            r == reaches_top(mask@, row as int),
    {
        let mut ly: usize = 0;
        while ly < 4
            invariant
                mask@.len() == 16,
                ly <= 4,
                forall|y: int, x: int|
                    0 <= y < ly && 0 <= x < 4 && #[trigger] mask@[4 * y + x] ==> row - 3 + y > 1,
            decreases 4 - ly,
        {
            let mut lx: usize = 0;
            while lx < 4
                invariant
                    mask@.len() == 16,
                    ly < 4,
                    lx <= 4,
                    forall|y: int, x: int|
                        0 <= y < ly && 0 <= x < 4 && #[trigger] mask@[4 * y + x] ==> row - 3 + y > 1,
                    forall|x: int| 0 <= x < lx && #[trigger] mask@[4 * ly + x] ==> row - 3 + ly > 1,
                decreases 4 - lx,
            {
                if mask[4 * ly + lx] && row <= 4 - ly {
                    assert(mask@[4 * ly + lx]);
                    return true;
                }
                lx += 1;
            }
            ly += 1;
        }
        false
    }

    /// Locks the piece where it stands, clears full rows, scores them, decides
    /// the outcome and, while the game goes on, spawns the next kind and makes the
    /// kind selected by `draw` the new next one.
    pub fn settle(&mut self, draw: u32) -> (r: Outcome)
        requires
            old(self).wf_placed(),
            old(self).outcome == Outcome::Running,
        ensures
            settles_from(
                *final(self),
                old(self).grid(),
                old(self).game_board.width as int,
                old(self).blocks.square@,
                old(self).col as int,
                old(self).row as int,
                old(self).current_block_type,
                old(self).score as int,
                old(self).next_block_type,
            ),
            r == final(self).outcome,
            r == Outcome::Running ==> final(self).next_block_type == type_of_draw(draw),
            final(self).total_time == old(self).total_time,
    {
        self.game_board.lock(self.col, self.row, &self.blocks.square, self.current_block_type);
        let ghost g1 = self.grid();
        let lines = self.game_board.remove_line();
        assert(lines <= 0xffff) by {
            assert(g1.len() == self.game_board.rows);
        }
        self.score = self.score + lines * 10;
        if self.score >= WIN_SCORE {
            self.outcome = Outcome::Won;
            return Outcome::Won;
        }
        if Self::piece_reaches_top(&self.blocks.square, self.row) {
            self.outcome = Outcome::Lost;
            return Outcome::Lost;
        }
        self.speed = 5 + self.score / 100;
        self.current_block_type = self.next_block_type;
        self.blocks = Blocks::new(self.current_block_type);
        self.next_block_type = BlockType::random_type(draw);
        self.col = (self.game_board.width - 4) / 2;
        self.row = 1;
        Outcome::Running
    }

    /// Whether this tick is a gravity step, which reads no command.
    pub fn gravity_due(&self) -> (r: bool)
        ensures
            r == (self.total_time <= self.speed),
    {
        self.total_time <= self.speed
    }

    /// One full tick: `advance`, then, if the piece must lock, `settle` with a
    /// kind drawn from the game's generator. Returns the outcome.
    pub fn tick(&mut self, key: u8) -> (r: Outcome)
        requires
            old(self).wf(),
        ensures
            r == final(self).outcome,
            final(self).total_time == if old(self).total_time <= old(self).speed {
                TICK_BUDGET as int
            } else {
                old(self).total_time - old(self).speed
            },
            ({
                let p = old(self).stepped(key);
                if resting(old(self).grid(), p.1, p.2, p.0.0) {
                    settles_from(
                        *final(self),
                        old(self).grid(),
                        old(self).game_board.width as int,
                        p.0.0,
                        p.1,
                        p.2,
                        old(self).current_block_type,
                        old(self).score as int,
                        old(self).next_block_type,
                    )
                } else {
                    &&& final(self).wf()
                    &&& final(self).blocks.model() == p.0
                    &&& final(self).col == p.1
                    &&& final(self).row == p.2
                    &&& final(self).game_board == old(self).game_board
                    &&& final(self).current_block_type == old(self).current_block_type
                    &&& final(self).next_block_type == old(self).next_block_type
                    &&& final(self).score == old(self).score
                }
            }),
    {
        if self.advance(key) {
            let d = draw_below(&mut self.pcg, 6);
            self.settle(d)
        } else {
            Outcome::Running
        }
    }
}

} // verus!
