use vstd::prelude::*;

verus! {

/// The six piece kinds.
#[derive(Clone, Copy, PartialEq, Eq, Structural, Debug)]
pub enum BlockType {
    Ttype,
    Ztype,
    Stype,
    Ltype,
    Itype,
    Otype,
}

/// Background colours a cell can be painted with.
#[derive(Clone, Copy, PartialEq, Eq, Structural, Debug)]
pub enum BackColor {
    Default,
    White,
    Black,
    Red,
    Green,
    Yellow,
    Blue,
    Purple,
    Cyan,
}

/// Empty columns to the left and right of a freshly spawned piece.
pub open spec fn spawn_margins(t: BlockType) -> (int, int) {
    match t {
        BlockType::Itype => (1, 2),
        BlockType::Ltype | BlockType::Otype => (1, 1),
        BlockType::Stype => (1, 0),
        BlockType::Ztype | BlockType::Ttype => (0, 1),
    }
}

pub open spec fn color_of(t: BlockType) -> BackColor {
    match t {
        BlockType::Itype => BackColor::Blue,
        BlockType::Ltype => BackColor::Cyan,
        BlockType::Otype => BackColor::Green,
        BlockType::Stype => BackColor::Purple,
        BlockType::Ztype => BackColor::Red,
        BlockType::Ttype => BackColor::Yellow,
    }
}

/// The piece kind selected by a random draw; every draw from 5 up gives `Otype`.
pub open spec fn type_of_draw(rand: u32) -> BlockType {
    if rand == 0 {
        BlockType::Ttype
    } else if rand == 1 {
        BlockType::Ztype
    } else if rand == 2 {
        BlockType::Stype
    } else if rand == 3 {
        BlockType::Ltype
    } else if rand == 4 {
        BlockType::Itype
    } else {
        BlockType::Otype
    }
}

/// Number of distinct orientations each kind cycles through.
pub open spec fn orientations(t: BlockType) -> int {
    match t {
        BlockType::Otype => 1,
        BlockType::Itype | BlockType::Stype | BlockType::Ztype => 2,
        BlockType::Ltype | BlockType::Ttype => 4,
    }
}

/// The four filled cells (indices `row * 4 + col` of the 4x4 box) of orientation
/// `k`, pushed against the left edge of the box and down to its bottom row.
pub open spec fn base_cells(t: BlockType, k: int) -> (int, int, int, int) {
    match t {
        BlockType::Itype => (0, 4, 8, 12),
        BlockType::Otype => (8, 9, 12, 13),
        BlockType::Ltype => if k == 0 {
            (4, 8, 12, 13)
        } else if k == 1 {
            (8, 9, 10, 12)
        } else if k == 2 {
            (4, 5, 9, 13)
        } else {
            (10, 12, 13, 14)
        },
        BlockType::Stype => if k == 0 {
            (9, 10, 12, 13)
        } else {
            (4, 8, 9, 13)
        },
        BlockType::Ztype => if k == 0 {
            (8, 9, 13, 14)
        } else {
            (5, 8, 9, 12)
        },
        BlockType::Ttype => if k == 0 {
            (9, 12, 13, 14)
        } else if k == 1 {
            (4, 8, 9, 12)
        } else if k == 2 {
            (8, 9, 10, 13)
        } else {
            (5, 8, 9, 13)
        },
    }
}

/// Number of columns that orientation `k` occupies.
pub open spec fn orientation_width(t: BlockType, k: int) -> int {
    match t {
        BlockType::Itype => 1,
        BlockType::Otype => 2,
        BlockType::Ltype => if k % 2 == 0 { 2 } else { 3 },
        BlockType::Ttype => if k % 2 == 0 { 3 } else { 2 },
        BlockType::Stype | BlockType::Ztype => if k == 0 { 3 } else { 2 },
    }
}

impl BlockType {
    pub fn get_margin(&self) -> (r: (usize, usize))
        ensures
            r.0 == spawn_margins(*self).0,
            r.1 == spawn_margins(*self).1,
    {
        match self {
            BlockType::Itype => (1, 2),
            BlockType::Ltype | BlockType::Otype => (1, 1),
            BlockType::Stype => (1, 0),
            BlockType::Ztype | BlockType::Ttype => (0, 1),
        }
    }

    pub fn get_color(&self) -> (r: BackColor)
        ensures
            r == color_of(*self),
    {
        match self {
            BlockType::Itype => BackColor::Blue,
            BlockType::Ltype => BackColor::Cyan,
            BlockType::Otype => BackColor::Green,
            BlockType::Stype => BackColor::Purple,
            BlockType::Ztype => BackColor::Red,
            BlockType::Ttype => BackColor::Yellow,
        }
    }

    pub fn random_type(rand: u32) -> (r: BlockType)
        ensures
            r == type_of_draw(rand),
    {
        match rand {
            0 => BlockType::Ttype,
            1 => BlockType::Ztype,
            2 => BlockType::Stype,
            3 => BlockType::Ltype,
            4 => BlockType::Itype,
            _ => BlockType::Otype,
        }
    }

    /// The cells of orientation `k` against the left edge of the box.
    pub fn base_pattern(&self, k: u8) -> (r: (usize, usize, usize, usize))
        ensures
            (r.0 as int, r.1 as int, r.2 as int, r.3 as int) == base_cells(*self, k as int),
    {
        match self {
            BlockType::Itype => (0, 4, 8, 12),
            BlockType::Otype => (8, 9, 12, 13),
            BlockType::Ltype => if k == 0 {
                (4, 8, 12, 13)
            } else if k == 1 {
                (8, 9, 10, 12)
            } else if k == 2 {
                (4, 5, 9, 13)
            } else {
                (10, 12, 13, 14)
            },
            BlockType::Stype => if k == 0 {
                (9, 10, 12, 13)
            } else {
                (4, 8, 9, 13)
            },
            BlockType::Ztype => if k == 0 {
                (8, 9, 13, 14)
            } else {
                (5, 8, 9, 12)
            },
            BlockType::Ttype => if k == 0 {
                (9, 12, 13, 14)
            } else if k == 1 {
                (4, 8, 9, 12)
            } else if k == 2 {
                (8, 9, 10, 13)
            } else {
                (5, 8, 9, 13)
            },
        }
    }

    /// Number of columns that orientation `k` occupies.
    pub fn pattern_width(&self, k: u8) -> (r: usize)
        ensures
            r as int == orientation_width(*self, k as int),
    {
        match self {
            BlockType::Itype => 1,
            BlockType::Otype => 2,
            BlockType::Ltype => if k % 2 == 0 { 2 } else { 3 },
            BlockType::Ttype => if k % 2 == 0 { 3 } else { 2 },
            BlockType::Stype | BlockType::Ztype => if k == 0 { 3 } else { 2 },
        }
    }

    pub fn orientation_count(&self) -> (r: u8)
        ensures
            r as int == orientations(*self),
    {
        match self {
            BlockType::Otype => 1,
            BlockType::Itype | BlockType::Stype | BlockType::Ztype => 2,
            BlockType::Ltype | BlockType::Ttype => 4,
        }
    }
}

} // verus!
