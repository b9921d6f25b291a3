use pcg_with_xorshift::{PcgWithXorshift, RandomNumberGeneratorEngine};
use tetris_engine::board::{Board, Cell};
use tetris_engine::game::{command_of_key, format_dimensions, Game, Outcome, SetupError};
use tetris_engine::piece::Blocks;
use tetris_engine::shape::{BackColor, BlockType};

const ALL: [BlockType; 6] = [
    BlockType::Ttype,
    BlockType::Ztype,
    BlockType::Stype,
    BlockType::Ltype,
    BlockType::Itype,
    BlockType::Otype,
];

fn filled(p: &Blocks) -> Vec<usize> {
    (0..16).filter(|&i| p.square[i]).collect()
}

fn used_width(p: &Blocks) -> usize {
    let used: Vec<usize> = (0..4)
        .filter(|&c| (0..4).any(|r| p.square[r * 4 + c]))
        .collect();
    used[used.len() - 1] - used[0] + 1
}

fn count(t: BlockType) -> usize {
    t.orientation_count() as usize
}

fn fill_row(b: &mut Board, r: usize) {
    for c in 0..b.width {
        b.set_cell(r, c, Cell::Filled(BlockType::Itype));
    }
}

#[test]
fn spawn_cells_and_margins() {
    let expect: [(BlockType, [usize; 4], (usize, usize)); 6] = [
        (BlockType::Itype, [1, 5, 9, 13], (1, 2)),
        (BlockType::Ltype, [5, 9, 13, 14], (1, 1)),
        (BlockType::Otype, [9, 10, 13, 14], (1, 1)),
        (BlockType::Stype, [10, 11, 13, 14], (1, 0)),
        (BlockType::Ttype, [9, 12, 13, 14], (0, 1)),
        (BlockType::Ztype, [8, 9, 13, 14], (0, 1)),
    ];
    for (t, cells, margins) in expect.iter() {
        let p = Blocks::new(*t);
        assert_eq!(filled(&p), cells.to_vec());
        assert_eq!((p.inner_left_margin, p.inner_right_margin), *margins);
        assert_eq!(p.state, 0);
        assert_eq!(t.get_margin(), *margins);
    }
}

#[test]
fn colours_and_draws() {
    assert_eq!(BlockType::Itype.get_color(), BackColor::Blue);
    assert_eq!(BlockType::Ltype.get_color(), BackColor::Cyan);
    assert_eq!(BlockType::Otype.get_color(), BackColor::Green);
    assert_eq!(BlockType::Stype.get_color(), BackColor::Purple);
    assert_eq!(BlockType::Ztype.get_color(), BackColor::Red);
    assert_eq!(BlockType::Ttype.get_color(), BackColor::Yellow);
    let kinds: Vec<BlockType> = (0..8).map(BlockType::random_type).collect();
    assert_eq!(
        kinds,
        vec![
            BlockType::Ttype,
            BlockType::Ztype,
            BlockType::Stype,
            BlockType::Ltype,
            BlockType::Itype,
            BlockType::Otype,
            BlockType::Otype,
            BlockType::Otype
        ]
    );
}

#[test]
fn full_cycle_returns_spawn_state() {
    for t in ALL {
        let mut p = Blocks::new(t);
        for _ in 0..count(t) {
            p.trans();
        }
        let s = Blocks::new(t);
        assert_eq!(p.square, s.square);
        assert_eq!((p.inner_left_margin, p.inner_right_margin, p.state), (s.inner_left_margin, s.inner_right_margin, 0));
    }
}

#[test]
fn second_cycle_repeats_first() {
    for t in ALL {
        let mut p = Blocks::new(t);
        for _ in 0..count(t) {
            p.trans();
        }
        let once = (p.square.clone(), p.inner_left_margin, p.inner_right_margin, p.state);
        for _ in 0..count(t) {
            p.trans();
        }
        assert_eq!((p.square.clone(), p.inner_left_margin, p.inner_right_margin, p.state), once);
    }
}

#[test]
fn l_piece_orientations() {
    let mut p = Blocks::new(BlockType::Ltype);
    let expect: [(Vec<usize>, (usize, usize)); 4] = [
        (vec![8, 9, 10, 12], (0, 1)),
        (vec![4, 5, 9, 13], (0, 2)),
        (vec![10, 12, 13, 14], (0, 1)),
        (vec![5, 9, 13, 14], (1, 1)),
    ];
    for (cells, margins) in expect.iter() {
        p.trans();
        assert_eq!(&filled(&p), cells);
        assert_eq!((p.inner_left_margin, p.inner_right_margin), *margins);
    }
}

#[test]
fn s_piece_cycle() {
    let mut p = Blocks::new(BlockType::Stype);
    p.trans();
    assert_eq!(filled(&p), vec![5, 9, 10, 14]);
    assert_eq!((p.inner_left_margin, p.inner_right_margin), (1, 1));
    p.trans();
    assert_eq!(filled(&p), vec![10, 11, 13, 14]);
    assert_eq!((p.inner_left_margin, p.inner_right_margin), (1, 0));
}

#[test]
fn rotation_halves_or_keeps_the_left_margin() {
    // An L against the right edge halves its left margin as it turns.
    let mut p = Blocks::new(BlockType::Ltype);
    p.left_and_right_move(false);
    assert_eq!((p.inner_left_margin, p.inner_right_margin), (2, 0));
    p.trans();
    assert_eq!(filled(&p), vec![9, 10, 11, 13]);
    assert_eq!((p.inner_left_margin, p.inner_right_margin), (1, 0));
    // A T moved one column right stands up one further column right.
    let mut t = Blocks::new(BlockType::Ttype);
    t.left_and_right_move(false);
    assert_eq!((t.inner_left_margin, t.inner_right_margin), (1, 0));
    t.trans();
    assert_eq!(filled(&t), vec![6, 10, 11, 14]);
    assert_eq!((t.inner_left_margin, t.inner_right_margin), (2, 0));
    // An S keeps its left margin as it stands up.
    let mut s = Blocks::new(BlockType::Stype);
    s.left_and_right_move(true);
    s.trans();
    assert_eq!(filled(&s), vec![4, 8, 9, 13]);
    assert_eq!((s.inner_left_margin, s.inner_right_margin), (0, 2));
}

#[test]
fn margins_and_width_span_box_after_rotations() {
    for t in ALL {
        let mut p = Blocks::new(t);
        for _ in 0..8 {
            p.trans();
            assert_eq!(p.inner_left_margin + p.inner_right_margin + used_width(&p), 4);
            assert_eq!(filled(&p).len(), 4);
        }
    }
}

#[test]
fn margins_and_width_span_box_after_shifts() {
    for t in ALL {
        let mut p = Blocks::new(t);
        for step in 0..24 {
            match step % 4 {
                0 => p.trans(),
                1 | 2 => p.left_and_right_move(false),
                _ => p.left_and_right_move(true),
            }
            assert_eq!(p.inner_left_margin + p.inner_right_margin + used_width(&p), 4);
            assert_eq!(filled(&p).len(), 4);
        }
    }
}

#[test]
fn i_piece_rotation_keeps_a_single_column() {
    let mut p = Blocks::new(BlockType::Itype);
    p.trans();
    assert_eq!(filled(&p), vec![1, 5, 9, 13]);
    assert_eq!((p.inner_left_margin, p.inner_right_margin, p.state), (1, 2, 1));
    p.trans();
    assert_eq!(filled(&p), vec![1, 5, 9, 13]);
    assert_eq!((p.inner_left_margin, p.inner_right_margin, p.state), (1, 2, 0));
}

#[test]
fn shift_inside_box() {
    let mut p = Blocks::new(BlockType::Itype);
    p.left_and_right_move(true);
    assert_eq!(filled(&p), vec![0, 4, 8, 12]);
    assert_eq!((p.inner_left_margin, p.inner_right_margin), (0, 3));
    p.left_and_right_move(true);
    assert_eq!(filled(&p), vec![0, 4, 8, 12]);
    assert_eq!((p.inner_left_margin, p.inner_right_margin), (0, 3));
    p.left_and_right_move(false);
    p.left_and_right_move(false);
    assert_eq!(filled(&p), vec![2, 6, 10, 14]);
    assert_eq!((p.inner_left_margin, p.inner_right_margin), (2, 1));
}

#[test]
fn occupancy_and_lock() {
    let mut b = Board::new(10, 6);
    let o = Blocks::new(BlockType::Otype);
    assert!(b.can_occupy(0, 8, &o.square));
    b.set_cell(8, 1, Cell::Filled(BlockType::Ttype));
    assert!(!b.can_occupy(0, 8, &o.square));
    assert!(b.can_occupy(2, 8, &o.square));
    b.lock(2, 8, &o.square, BlockType::Otype);
    assert!(!b.can_occupy(2, 8, &o.square));
    assert_eq!(b.get_cell(7, 3), Cell::Filled(BlockType::Otype));
    assert_eq!(b.get_cell(8, 4), Cell::Filled(BlockType::Otype));
    assert_eq!(b.get_cell(6, 3), Cell::Empty);
    assert_eq!(b.get_cell(8, 2), Cell::Empty);
}

#[test]
fn cells_above_the_board_never_collide() {
    let mut b = Board::new(10, 6);
    fill_row(&mut b, 0);
    let i = Blocks::new(BlockType::Itype);
    // At bottom row 0 only the lowest cell is on the board.
    assert!(!b.can_occupy(0, 0, &i.square));
    let mut t = Board::new(10, 6);
    t.set_cell(1, 0, Cell::Filled(BlockType::Ltype));
    assert!(t.can_occupy(0, 0, &i.square));
}

#[test]
fn resting_on_floor_and_on_cells() {
    let mut b = Board::new(10, 6);
    let o = Blocks::new(BlockType::Otype);
    assert!(b.is_bottom(0, 8, &o.square));
    assert!(!b.is_bottom(0, 7, &o.square));
    b.set_cell(5, 2, Cell::Filled(BlockType::Ztype));
    assert!(b.is_bottom(0, 4, &o.square));
    assert!(!b.is_bottom(0, 3, &o.square));
    assert!(b.is_bottom(1, 4, &o.square));
    assert!(!b.is_bottom(2, 4, &o.square));
}

#[test]
fn row_fullness() {
    let mut b = Board::new(6, 4);
    assert!(!b.is_fill_line(3));
    fill_row(&mut b, 3);
    assert!(b.is_fill_line(3));
    b.set_cell(3, 2, Cell::Empty);
    assert!(!b.is_fill_line(3));
}

#[test]
fn compaction_moves_rows_down() {
    let mut b = Board::new(10, 4);
    fill_row(&mut b, 2);
    fill_row(&mut b, 5);
    b.set_cell(0, 0, Cell::Filled(BlockType::Ttype));
    b.set_cell(1, 1, Cell::Filled(BlockType::Ztype));
    b.set_cell(3, 2, Cell::Filled(BlockType::Stype));
    b.set_cell(4, 3, Cell::Filled(BlockType::Ltype));
    b.set_cell(7, 0, Cell::Filled(BlockType::Otype));
    assert_eq!(b.remove_line(), 2);
    for c in 0..4 {
        assert_eq!(b.get_cell(0, c), Cell::Empty);
        assert_eq!(b.get_cell(1, c), Cell::Empty);
    }
    assert_eq!(b.get_cell(2, 0), Cell::Filled(BlockType::Ttype));
    assert_eq!(b.get_cell(3, 1), Cell::Filled(BlockType::Ztype));
    assert_eq!(b.get_cell(4, 2), Cell::Filled(BlockType::Stype));
    assert_eq!(b.get_cell(5, 3), Cell::Filled(BlockType::Ltype));
    assert_eq!(b.get_cell(7, 0), Cell::Filled(BlockType::Otype));
    for r in 0..10 {
        assert!(!b.is_fill_line(r));
    }
    assert_eq!(b.remove_line(), 0);
}

#[test]
fn clearing_twice_finds_nothing() {
    let mut b = Board::new(8, 5);
    fill_row(&mut b, 6);
    fill_row(&mut b, 7);
    fill_row(&mut b, 0);
    b.set_cell(4, 4, Cell::Filled(BlockType::Ttype));
    assert_eq!(b.remove_line(), 3);
    assert_eq!(b.remove_line(), 0);
    assert_eq!(b.get_cell(6, 4), Cell::Filled(BlockType::Ttype));
}

#[test]
fn dimensions_and_keys() {
    assert_eq!(format_dimensions((17, 31)), (12, 31));
    assert_eq!(format_dimensions((40, 200)), (40, 87));
    assert_eq!(format_dimensions((30, 50)), (21, 49));
    assert_eq!(command_of_key(b'a'), 0);
    assert_eq!(command_of_key(b'd'), 1);
    assert_eq!(command_of_key(b'w'), 2);
    assert_eq!(command_of_key(b's'), 3);
    assert_eq!(command_of_key(b'x'), 4);
}

#[test]
fn new_game_rejects_small_terminal() {
    assert_eq!(Game::new((16, 80)).err(), Some(SetupError::TooSmall));
    assert_eq!(Game::new((24, 30)).err(), Some(SetupError::TooSmall));
}

#[test]
fn new_game_layout_and_first_kinds() {
    let g = Game::new((24, 80)).ok().unwrap();
    assert_eq!((g.game_board.rows, g.game_board.width), (24, 22));
    assert_eq!((g.col, g.row, g.score, g.speed, g.total_time), (9, 1, 0, 5, 100));
    assert_eq!(g.outcome, Outcome::Running);
    let mut rng = PcgWithXorshift::new(None);
    let first = BlockType::random_type(rng.get_round(6));
    let second = BlockType::random_type(rng.get_round(6));
    assert_eq!(g.current_block_type, first);
    assert_eq!(g.next_block_type, second);
    assert_eq!(g.blocks.square, Blocks::new(first).square);
}

fn o_game(rows: usize, width: usize) -> Game {
    Game::with_board(Board::new(rows, width), BlockType::Otype, BlockType::Itype)
}

#[test]
fn moves_shift_then_slide() {
    let mut g = o_game(20, 10);
    assert_eq!(g.col, 3);
    g.mov(0);
    assert_eq!((g.col, g.blocks.inner_left_margin), (3, 0));
    assert_eq!(filled(&g.blocks), vec![8, 9, 12, 13]);
    g.mov(0);
    assert_eq!((g.col, g.blocks.inner_left_margin), (2, 0));
    g.game_board.set_cell(1, 1, Cell::Filled(BlockType::Ttype));
    g.mov(0);
    assert_eq!(g.col, 2);
    g.mov(1);
    assert_eq!((g.col, g.blocks.inner_left_margin, g.blocks.inner_right_margin), (2, 1, 1));
    g.mov(3);
    assert_eq!(g.row, 2);
    g.mov(4);
    assert_eq!((g.col, g.row), (2, 2));
}

#[test]
fn right_edge_stops_the_box() {
    let mut g = o_game(20, 6);
    assert_eq!(g.col, 1);
    g.mov(1);
    g.mov(1);
    assert_eq!((g.col, g.blocks.inner_right_margin), (2, 0));
    g.mov(1);
    assert_eq!(g.col, 2);
}

#[test]
fn rotation_is_kept_even_when_it_overlaps() {
    let mut g = Game::with_board(Board::new(20, 10), BlockType::Ttype, BlockType::Itype);
    g.row = 5;
    // Free for the spawned T, covered by its rotated form.
    g.game_board.set_cell(3, 4, Cell::Filled(BlockType::Ttype));
    assert!(g.game_board.can_occupy(g.col, g.row, &g.blocks.square));
    g.mov(2);
    assert_eq!(g.blocks.state, 1);
    assert_eq!(filled(&g.blocks), vec![5, 9, 10, 13]);
    assert!(!g.game_board.can_occupy(g.col, g.row, &g.blocks.square));
}

#[test]
fn gravity_consumes_the_budget() {
    let mut g = o_game(20, 10);
    g.total_time = 5;
    assert!(g.gravity_due());
    assert!(!g.advance(0));
    assert_eq!((g.row, g.total_time, g.col), (2, 100, 3));
    assert!(!g.gravity_due());
    assert!(!g.advance(0));
    assert_eq!((g.row, g.total_time, g.blocks.inner_left_margin), (2, 95, 0));
}

#[test]
fn piece_locks_on_the_floor_and_respawns() {
    let mut g = o_game(20, 10);
    g.row = 17;
    assert!(g.advance(3));
    assert_eq!(g.row, 18);
    assert_eq!(g.settle(4), Outcome::Running);
    assert_eq!(g.game_board.get_cell(18, 4), Cell::Filled(BlockType::Otype));
    assert_eq!(g.game_board.get_cell(17, 5), Cell::Filled(BlockType::Otype));
    assert_eq!(g.current_block_type, BlockType::Itype);
    assert_eq!(g.next_block_type, BlockType::Itype);
    assert_eq!((g.col, g.row, g.score), (3, 1, 0));
}

#[test]
fn clearing_scores_ten_per_row() {
    let mut g = o_game(20, 4);
    g.col = 0;
    g.row = 18;
    for r in [17, 18] {
        g.game_board.set_cell(r, 0, Cell::Filled(BlockType::Ttype));
        g.game_board.set_cell(r, 3, Cell::Filled(BlockType::Ttype));
    }
    assert_eq!(g.settle(0), Outcome::Running);
    assert_eq!((g.score, g.speed), (20, 5));
    assert_eq!(g.next_block_type, BlockType::Ttype);
    for r in 0..20 {
        assert!(!g.game_board.is_fill_line(r));
    }
}

#[test]
fn win_exactly_when_score_reaches_threshold() {
    let mut g = o_game(20, 4);
    let mut lines = 1;
    loop {
        g.blocks = Blocks::new(BlockType::Otype);
        g.current_block_type = BlockType::Otype;
        g.col = 0;
        g.row = 12;
        for r in 0..20 {
            for c in 0..4 {
                g.game_board.set_cell(r, c, Cell::Empty);
            }
        }
        for k in 0..lines {
            fill_row(&mut g.game_board, 18 - k);
        }
        let before = g.score;
        let out = g.settle(5);
        assert_eq!(g.score, before + 10 * lines as u32);
        if g.score >= 500 {
            assert!(before < 500);
            assert_eq!(out, Outcome::Won);
            break;
        }
        assert_eq!(out, Outcome::Running);
        assert_eq!(g.speed, 5 + g.score / 100);
        lines = 3 - lines;
    }
    assert_eq!(g.score, 510);
}

#[test]
fn lock_with_top_cell_on_row_one_loses() {
    let mut g = o_game(20, 10);
    g.row = 2;
    g.game_board.set_cell(3, 4, Cell::Filled(BlockType::Ttype));
    assert_eq!(g.tick(4), Outcome::Lost);
    assert_eq!(g.outcome, Outcome::Lost);
}

#[test]
fn lock_with_top_cell_on_row_two_goes_on() {
    let mut g = o_game(20, 10);
    g.row = 3;
    g.game_board.set_cell(4, 4, Cell::Filled(BlockType::Ttype));
    assert_eq!(g.tick(4), Outcome::Running);
    assert_eq!(g.game_board.get_cell(2, 4), Cell::Filled(BlockType::Otype));
    assert_eq!((g.row, g.current_block_type), (1, BlockType::Itype));
}

#[test]
fn rotated_t_and_z_keep_their_cells_when_shifted() {
    let mut t = Blocks::new(BlockType::Ttype);
    t.trans();
    assert_eq!(filled(&t), vec![5, 9, 10, 13]);
    assert_eq!((t.inner_left_margin, t.inner_right_margin), (1, 1));
    t.left_and_right_move(false);
    assert_eq!(filled(&t), vec![6, 10, 11, 14]);
    assert_eq!((t.inner_left_margin, t.inner_right_margin), (2, 0));
    t.left_and_right_move(false);
    assert_eq!(filled(&t), vec![6, 10, 11, 14]);
    let mut z = Blocks::new(BlockType::Ztype);
    z.trans();
    assert_eq!(filled(&z), vec![6, 9, 10, 13]);
    assert_eq!((z.inner_left_margin, z.inner_right_margin), (1, 1));
    z.left_and_right_move(false);
    z.left_and_right_move(false);
    assert_eq!(filled(&z), vec![7, 10, 11, 14]);
    assert_eq!(z.inner_left_margin + z.inner_right_margin + used_width(&z), 4);
}
