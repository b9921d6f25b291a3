use vstd::prelude::*;
use crate::board::{Cell, covers};
use crate::game::Game;
use crate::piece::{Blocks, spawn_model};
use crate::shape::{BackColor, BlockType, color_of};

verus! {

/// Foreground colours of a screen pixel.
#[derive(Clone, Copy, PartialEq, Eq, Structural, Debug)]
pub enum FrontColor {
    Default,
    White,
    Black,
    Red,
    Green,
    Yellow,
    Blue,
    Purple,
    Cyan,
}

/// ANSI colour digit: 9 for the terminal default, else 0 black, 1 red, 2 green,
/// 3 yellow, 4 blue, 5 purple (magenta), 6 cyan, 7 white; as an ASCII byte.
pub open spec fn front_digit(c: FrontColor) -> u8 {
    match c {
        FrontColor::Default => 0x39,
        FrontColor::Black => 0x30,
        FrontColor::Red => 0x31,
        FrontColor::Green => 0x32,
        FrontColor::Yellow => 0x33,
        FrontColor::Blue => 0x34,
        FrontColor::Purple => 0x35,
        FrontColor::Cyan => 0x36,
        FrontColor::White => 0x37,
    }
}

pub open spec fn back_digit(c: BackColor) -> u8 {
    match c {
        BackColor::Default => 0x39,
        BackColor::Black => 0x30,
        BackColor::Red => 0x31,
        BackColor::Green => 0x32,
        BackColor::Yellow => 0x33,
        BackColor::Blue => 0x34,
        BackColor::Purple => 0x35,
        BackColor::Cyan => 0x36,
        BackColor::White => 0x37,
    }
}

/// `ESC [ 3 d` : start of a colour escape selecting foreground `d`.
pub open spec fn front_bytes(c: FrontColor) -> Seq<u8> {
    seq![0x1bu8, 0x5bu8, 0x33u8, front_digit(c)]
}

/// `; 4 d m` : background `d`, closing the escape.
pub open spec fn back_bytes(c: BackColor) -> Seq<u8> {
    seq![0x3bu8, 0x34u8, back_digit(c), 0x6du8]
}

/// UTF-8 encoding of a character.
pub open spec fn utf8(c: char) -> Seq<u8> {
    let v = c as u32;
    if v < 0x80 {
        seq![v as u8]
    } else if v < 0x800 {
        seq![(0xc0 + v / 64) as u8, (0x80 + v % 64) as u8]
    } else if v < 0x10000 {
        seq![(0xe0 + v / 4096) as u8, (0x80 + (v / 64) % 64) as u8, (0x80 + v % 64) as u8]
    } else {
        seq![
            (0xf0 + v / 262144) as u8,
            (0x80 + (v / 4096) % 64) as u8,
            (0x80 + (v / 64) % 64) as u8,
            (0x80 + v % 64) as u8,
        ]
    }
}

impl FrontColor {
    /// Appends the escape that selects this foreground colour.
    pub fn encode_ascii(&self, buffer: &mut Vec<u8>)
        ensures
            final(buffer)@ == old(buffer)@ + front_bytes(*self),
    {
        let digit: u8 = match self {
            FrontColor::Default => 0x39,
            FrontColor::Black => 0x30,
            FrontColor::Red => 0x31,
            FrontColor::Green => 0x32,
            FrontColor::Yellow => 0x33,
            FrontColor::Blue => 0x34,
            FrontColor::Purple => 0x35,
            FrontColor::Cyan => 0x36,
            FrontColor::White => 0x37,
        };
        buffer.push(0x1b);
        buffer.push(0x5b);
        buffer.push(0x33);
        buffer.push(digit);
        assert(buffer@ =~= old(buffer)@ + front_bytes(*self));
    }
}

/// Appends the background part of a colour escape and closes it.
pub fn encode_back(c: BackColor, buffer: &mut Vec<u8>)
    ensures
        final(buffer)@ == old(buffer)@ + back_bytes(c),
{
    let digit: u8 = match c {
        BackColor::Default => 0x39,
        BackColor::Black => 0x30,
        BackColor::Red => 0x31,
        BackColor::Green => 0x32,
        BackColor::Yellow => 0x33,
        BackColor::Blue => 0x34,
        BackColor::Purple => 0x35,
        BackColor::Cyan => 0x36,
        BackColor::White => 0x37,
    };
    buffer.push(0x3b);
    buffer.push(0x34);
    buffer.push(digit);
    buffer.push(0x6d);
    assert(buffer@ =~= old(buffer)@ + back_bytes(c));
}

pub fn is_default(c: BackColor) -> (r: bool)
    ensures
        r == (c == BackColor::Default),
{
    match c {
        BackColor::Default => true,
        _ => false,
    }
}

/// Appends the UTF-8 encoding of `c`.
pub fn push_char_into_array(c: char, buffer: &mut Vec<u8>)
    ensures
        final(buffer)@ == old(buffer)@ + utf8(c),
{
    let v = c as u32;
    if v < 0x80 {
        buffer.push(v as u8);
    } else if v < 0x800 {
        buffer.push((0xc0 + v / 64) as u8);
        buffer.push((0x80 + v % 64) as u8);
    } else if v < 0x10000 {
        buffer.push((0xe0 + v / 4096) as u8);
        buffer.push((0x80 + (v / 64) % 64) as u8);
        buffer.push((0x80 + v % 64) as u8);
    } else {
        assert(v <= 0x10ffff);
        buffer.push((0xf0 + v / 262144) as u8);
        buffer.push((0x80 + (v / 4096) % 64) as u8);
        buffer.push((0x80 + (v / 64) % 64) as u8);
        buffer.push((0x80 + v % 64) as u8);
    }
    assert(buffer@ =~= old(buffer)@ + utf8(c));
}

/// One character cell of the screen.
#[derive(Clone, Copy, PartialEq, Eq, Structural, Debug)]
pub struct Pixel {
    pub front_color: FrontColor,
    pub back_color: BackColor,
    pub character: char,
}

pub open spec fn pixel_bytes(p: Pixel) -> Seq<u8> {
    front_bytes(p.front_color) + back_bytes(p.back_color) + utf8(p.character)
}

impl Pixel {
    pub fn new(c: char, fc: FrontColor, bc: BackColor) -> (r: Pixel)
        ensures
            r == (Pixel { front_color: fc, back_color: bc, character: c }),
    {
        Pixel { front_color: fc, back_color: bc, character: c }
    }

    /// A blank in the terminal's default colours.
    pub fn blank() -> (r: Pixel)
        ensures
            r == (Pixel {
                front_color: FrontColor::Default,
                back_color: BackColor::Default,
                character: ' ',
            }),
    {
        Pixel { front_color: FrontColor::Default, back_color: BackColor::Default, character: ' ' }
    }

    /// Appends the colour escape and the character.
    pub fn encode_ascii(&self, buffer: &mut Vec<u8>)
        ensures
            final(buffer)@ == old(buffer)@ + pixel_bytes(*self),
    {
        self.front_color.encode_ascii(buffer);
        encode_back(self.back_color, buffer);
        push_char_into_array(self.character, buffer);
        assert(buffer@ =~= old(buffer)@ + pixel_bytes(*self));
    }

    /// This pixel with another character.
    pub fn with_character(self, c: char) -> (r: Pixel)
        ensures
            r == (Pixel { character: c, ..self }),
    {
        Pixel { character: c, ..self }
    }

    pub fn change_character(&mut self, new_c: char)
        ensures
            *final(self) == (Pixel { character: new_c, ..*old(self) }),
    {
        self.character = new_c;
    }

    pub fn change_front_color(&mut self, new_fc: FrontColor)
        ensures
            *final(self) == (Pixel { front_color: new_fc, ..*old(self) }),
    {
        self.front_color = new_fc;
    }

    pub fn change_back_color(&mut self, new_bc: BackColor)
        ensures
            *final(self) == (Pixel { back_color: new_bc, ..*old(self) }),
    {
        self.back_color = new_bc;
    }

    pub fn change_all(&mut self, new_c: char, new_fc: FrontColor, new_bc: BackColor)
        ensures
            *final(self) == (Pixel { front_color: new_fc, back_color: new_bc, character: new_c }),
    {
        self.change_character(new_c);
        self.change_front_color(new_fc);
        self.change_back_color(new_bc);
    }
}

pub open spec fn digit(d: int) -> char {
    if d == 0 {
        '0'
    } else if d == 1 {
        '1'
    } else if d == 2 {
        '2'
    } else if d == 3 {
        '3'
    } else if d == 4 {
        '4'
    } else if d == 5 {
        '5'
    } else if d == 6 {
        '6'
    } else if d == 7 {
        '7'
    } else if d == 8 {
        '8'
    } else {
        '9'
    }
}

/// Decimal digits of `n`, most significant first.
pub open spec fn decimal(n: nat) -> Seq<char>
    decreases n,
{
    if n < 10 {
        seq![digit(n as int)]
    } else {
        decimal(n / 10).push(digit((n % 10) as int))
    }
}

fn digit_char(d: u32) -> (c: char)
    requires
        d < 10,
    ensures
        c == digit(d as int),
{
    match d {
        0 => '0',
        1 => '1',
        2 => '2',
        3 => '3',
        4 => '4',
        5 => '5',
        6 => '6',
        7 => '7',
        8 => '8',
        _ => '9',
    }
}

/// The decimal digits of `n`.
pub fn decimal_digits(n: u32) -> (r: Vec<char>)
    ensures
        r@ == decimal(n as nat),
    decreases n,
{
    if n < 10 {
        let mut v: Vec<char> = Vec::new();
        v.push(digit_char(n));
        v
    } else {
        let mut v = decimal_digits(n / 10);
        v.push(digit_char(n % 10));
        v
    }
}

pub open spec fn next_label() -> Seq<char> {
    seq!['n', 'e', 'x', 't', ':']
}

pub open spec fn score_label() -> Seq<char> {
    seq!['s', 'c', 'o', 'r', 'e', ':']
}

pub open spec fn speed_label() -> Seq<char> {
    seq!['s', 'p', 'e', 'e', 'd', ':']
}

/// Screen width for a playfield of `width` cells: two columns per cell, three
/// border columns and an eight-column side panel.
pub open spec fn screen_columns(width: int) -> int {
    2 * width + 11
}

pub open spec fn score_row(rows: int) -> int {
    10 + (rows - 10) / 5 * 3
}

pub open spec fn speed_row(rows: int) -> int {
    10 + (rows - 10) / 5 * 4
}

pub open spec fn plain(c: char) -> Pixel {
    Pixel { front_color: FrontColor::Default, back_color: BackColor::Default, character: c }
}

pub open spec fn frame_char(rows: int, columns: int, x: int, y: int) -> char {
    let panel = columns - 10;
    if y == 0 {
        if x == 0 {
            '┌'
        } else if x == panel {
            '┬'
        } else if x == columns - 1 {
            '┐'
        } else {
            '─'
        }
    } else if y == rows - 1 {
        if x == 0 {
            '└'
        } else if x == panel {
            '┴'
        } else if x == columns - 1 {
            '┘'
        } else {
            '─'
        }
    } else if x == 0 || x == panel || x == columns - 1 {
        '│'
    } else {
        ' '
    }
}

/// A cell of the preview of the next piece: the next kind's spawn mask against
/// the left edge, each cell two screen columns wide.
pub open spec fn next_piece_on(t: BlockType, px: int, py: int) -> bool {
    let lx = px / 2 + spawn_model(t).1;
    lx < 4 && spawn_model(t).0[py * 4 + lx]
}

/// Background of playfield cell (`r`, `c`): the falling piece over the board.
pub open spec fn field_color(g: Game, r: int, c: int) -> BackColor {
    if covers(g.col as int, g.row as int, g.blocks.square@, r, c) {
        color_of(g.current_block_type)
    } else {
        match g.grid()[r][c] {
            Cell::Filled(t) => color_of(t),
            Cell::Empty => BackColor::Default,
        }
    }
}

/// A label or number in the side panel: character `i` of `text`, blank past its end.
pub open spec fn panel_text(text: Seq<char>, i: int, fc: FrontColor, bc: BackColor) -> Pixel {
    if i < text.len() {
        Pixel { front_color: fc, back_color: bc, character: text[i] }
    } else {
        plain(' ')
    }
}

/// What the screen shows at column `x`, row `y`. The playfield fills the inside
/// of the left frame; the side panel holds the next kind, the score and the speed,
/// the speed lines drawn over the score lines where a short screen lets them meet.
pub open spec fn pixel_at(g: Game, x: int, y: int) -> Pixel {
    let rows = g.game_board.rows as int;
    let columns = screen_columns(g.game_board.width as int);
    let panel = columns - 10;
    let i = x - (columns - 9);
    if panel < x < columns - 1 && y == speed_row(rows) {
        panel_text(speed_label(), i, FrontColor::Default, BackColor::Blue)
    } else if panel < x < columns - 1 && y == speed_row(rows) + 1 {
        panel_text(decimal(g.speed as nat), i, FrontColor::Yellow, BackColor::Default)
    } else if panel < x < columns - 1 && y == score_row(rows) {
        panel_text(score_label(), i, FrontColor::Default, BackColor::Green)
    } else if panel < x < columns - 1 && y == score_row(rows) + 1 {
        panel_text(decimal(g.score as nat), i, FrontColor::Yellow, BackColor::Default)
    } else if y == 0 || y == rows - 1 || x == 0 || x == panel || x == columns - 1 {
        plain(frame_char(rows, columns, x, y))
    } else if x < panel {
        Pixel {
            front_color: FrontColor::Default,
            back_color: field_color(g, y, (x - 1) / 2),
            character: ' ',
        }
    } else if y == 1 {
        panel_text(next_label(), i, FrontColor::Default, BackColor::Red)
    } else if 2 <= y < 6 && i < 6 {
        Pixel {
            front_color: FrontColor::Default,
            back_color: if next_piece_on(g.next_block_type, i, y - 2) {
                color_of(g.next_block_type)
            } else {
                BackColor::Default
            },
            character: ' ',
        }
    } else {
        plain(' ')
    }
}

/// Bytes of the first `x` pixels of screen row `y`.
pub open spec fn row_bytes(g: Game, y: int, x: int) -> Seq<u8>
    decreases x,
{
    if x <= 0 {
        Seq::empty()
    } else {
        row_bytes(g, y, x - 1) + pixel_bytes(pixel_at(g, x - 1, y))
    }
}

/// Bytes of the first `y` screen rows, a newline between rows.
pub open spec fn screen_bytes(g: Game, y: int) -> Seq<u8>
    decreases y,
{
    if y <= 0 {
        Seq::empty()
    } else {
        let prev = screen_bytes(g, y - 1) + row_bytes(
            g,
            y - 1,
            screen_columns(g.game_board.width as int),
        );
        if y < g.game_board.rows {
            prev.push(0x0au8)
        } else {
            prev
        }
    }
}

fn field_color_at(g: &Game, r: usize, c: usize) -> (b: BackColor)
    requires
        g.wf_placed(),
        r < g.game_board.rows,
        c < g.game_board.width,
    ensures
        b == field_color(*g, r as int, c as int),
{
    if g.col <= c && c < g.col + 4 && r <= g.row && g.row <= r + 3 && g.blocks.square[(r + 3
        - g.row) * 4 + (c - g.col)] {
        g.current_block_type.get_color()
    } else {
        match g.game_board.get_cell(r, c) {
            Cell::Filled(t) => t.get_color(),
            Cell::Empty => BackColor::Default,
        }
    }
}

fn panel_text_at(text: &Vec<char>, i: usize, fc: FrontColor, bc: BackColor) -> (p: Pixel)
    ensures
        p == panel_text(text@, i as int, fc, bc),
{
    if i < text.len() {
        Pixel { front_color: fc, back_color: bc, character: text[i] }
    } else {
        Pixel::blank()
    }
}

fn frame_char_at(rows: usize, columns: usize, x: usize, y: usize) -> (c: char)
    requires
        columns >= 10,
        x < columns,
        y < rows,
    ensures
        c == frame_char(rows as int, columns as int, x as int, y as int),
{
    let panel = columns - 10;
    if y == 0 {
        if x == 0 {
            '┌'
        } else if x == panel {
            '┬'
        } else if x + 1 == columns {
            '┐'
        } else {
            '─'
        }
    } else if y + 1 == rows {
        if x == 0 {
            '└'
        } else if x == panel {
            '┴'
        } else if x + 1 == columns {
            '┘'
        } else {
            '─'
        }
    } else if x == 0 || x == panel || x + 1 == columns {
        '│'
    } else {
        ' '
    }
}

/// Texts and the preview of the next piece that the side panel shows.
pub struct PanelTexts {
    pub next: Vec<char>,
    pub score: Vec<char>,
    pub score_digits: Vec<char>,
    pub speed: Vec<char>,
    pub speed_digits: Vec<char>,
    pub next_piece: Blocks,
}

impl PanelTexts {
    pub open spec fn matches(&self, g: Game) -> bool {
        &&& self.next@ == next_label()
        &&& self.score@ == score_label()
        &&& self.speed@ == speed_label()
        &&& self.score_digits@ == decimal(g.score as nat)
        &&& self.speed_digits@ == decimal(g.speed as nat)
        &&& self.next_piece.wf()
        &&& self.next_piece.model() == spawn_model(g.next_block_type)
    }

    pub fn of_game(g: &Game) -> (r: PanelTexts)
        ensures
            r.matches(*g),
    {
        let r = PanelTexts {
            next: vec!['n', 'e', 'x', 't', ':'],
            score: vec!['s', 'c', 'o', 'r', 'e', ':'],
            score_digits: decimal_digits(g.score),
            speed: vec!['s', 'p', 'e', 'e', 'd', ':'],
            speed_digits: decimal_digits(g.speed),
            next_piece: Blocks::new(g.next_block_type),
        };
        assert(r.next@ =~= next_label());
        assert(r.score@ =~= score_label());
        assert(r.speed@ =~= speed_label());
        r
    }
}

/// What the screen shows at column `x`, row `y` (see the spec function of that name).
pub fn pixel_of(g: &Game, texts: &PanelTexts, x: usize, y: usize) -> (p: Pixel)
    requires
        g.wf_placed(),
        g.game_board.rows >= 12,
        texts.matches(*g),
        x < screen_columns(g.game_board.width as int),
        y < g.game_board.rows,
    ensures
        p == pixel_at(*g, x as int, y as int),
{
    let rows = g.game_board.rows;
    let columns = 2 * g.game_board.width + 11;
    let panel = columns - 10;
    let in_panel = panel < x && x + 1 < columns;
    let i = if x + 9 >= columns { x + 9 - columns } else { 0 };
    let speed_y = 10 + (rows - 10) / 5 * 4;
    let score_y = 10 + (rows - 10) / 5 * 3;
    if in_panel && y == speed_y {
        panel_text_at(&texts.speed, i, FrontColor::Default, BackColor::Blue)
    } else if in_panel && y == speed_y + 1 {
        panel_text_at(&texts.speed_digits, i, FrontColor::Yellow, BackColor::Default)
    } else if in_panel && y == score_y {
        panel_text_at(&texts.score, i, FrontColor::Default, BackColor::Green)
    } else if in_panel && y == score_y + 1 {
        panel_text_at(&texts.score_digits, i, FrontColor::Yellow, BackColor::Default)
    } else if y == 0 || y + 1 == rows || x == 0 || x == panel || x + 1 == columns {
        Pixel::blank().with_character(frame_char_at(rows, columns, x, y))
    } else if x < panel {
        Pixel {
            front_color: FrontColor::Default,
            back_color: field_color_at(g, y, (x - 1) / 2),
            character: ' ',
        }
    } else if y == 1 {
        panel_text_at(&texts.next, i, FrontColor::Default, BackColor::Red)
    } else if 2 <= y && y < 6 && i < 6 {
        let lx = i / 2 + texts.next_piece.inner_left_margin;
        let on = lx < 4 && texts.next_piece.square[(y - 2) * 4 + lx];
        let back = if on {
            g.next_block_type.get_color()
        } else {
            BackColor::Default
        };
        Pixel { front_color: FrontColor::Default, back_color: back, character: ' ' }
    } else {
        Pixel::blank()
    }
}

/// The whole screen as bytes for the terminal: every pixel's colour escape and
/// character, row by row, a newline between rows.
pub fn render(g: &Game) -> (out: Vec<u8>)
    requires
        g.wf_placed(),
        g.game_board.rows >= 12,
    ensures
        out@ == screen_bytes(*g, g.game_board.rows as int),
{
    let texts = PanelTexts::of_game(g);
    let rows = g.game_board.rows;
    let columns = 2 * g.game_board.width + 11;
    let mut out: Vec<u8> = Vec::new();
    let mut y: usize = 0;
    while y < rows
        invariant
            g.wf_placed(),
            g.game_board.rows >= 12,
            texts.matches(*g),
            rows == g.game_board.rows,
            columns == screen_columns(g.game_board.width as int),
            y <= rows,
            out@ == screen_bytes(*g, y as int),
        decreases rows - y,
    {
        let mut x: usize = 0;
        let ghost start = out@;
        while x < columns
            invariant
                g.wf_placed(),
                g.game_board.rows >= 12,
                texts.matches(*g),
                rows == g.game_board.rows,
                columns == screen_columns(g.game_board.width as int),
                y < rows,
                x <= columns,
                start == screen_bytes(*g, y as int),
                out@ == start + row_bytes(*g, y as int, x as int),
            decreases columns - x,
        {
            let p = pixel_of(g, &texts, x, y);
            p.encode_ascii(&mut out);
            x += 1;
            assert(out@ =~= start + row_bytes(*g, y as int, x as int));
        }
        if y + 1 < rows {
            out.push(0x0a);
        }
        y += 1;
        assert(out@ =~= screen_bytes(*g, y as int));
    }
    out
}

} // verus!
