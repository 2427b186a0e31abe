use game_of_life::grid::{
    cell_from_draws, generate_random_cell, initialize_board, Cell, CellState, WINDOW_HEIGHT,
    WINDOW_WIDTH,
};
use game_of_life::render::{print_char, render_board, ALIVE_SYMBOL, DEAD_SYMBOL};
use game_of_life::rules::{count_neighbors, next_generation, next_state, update_board};
use game_of_life::schedule::{check_terminal_size, wait_for_next_frame};

/// Builds a board of `w` columns and `h` rows whose live cells are `live`.
fn board_with(w: u16, h: u16, live: &[(u16, u16)]) -> Vec<Vec<Cell>> {
    let mut board = Vec::new();
    for x in 0..w {
        let mut column = Vec::new();
        for y in 0..h {
            let state = if live.contains(&(x, y)) {
                CellState::Alive
            } else {
                CellState::Dead
            };
            column.push(Cell { x, y, state });
        }
        board.push(column);
    }
    board
}

fn live_cells(board: &[Vec<Cell>]) -> Vec<(u16, u16)> {
    let mut out = Vec::new();
    for column in board {
        for cell in column {
            if cell.state == CellState::Alive {
                out.push((cell.x, cell.y));
            }
        }
    }
    out
}

fn assert_positions_kept(board: &[Vec<Cell>], w: usize, h: usize) {
    assert_eq!(board.len(), w);
    for (x, column) in board.iter().enumerate() {
        assert_eq!(column.len(), h);
        for (y, cell) in column.iter().enumerate() {
            assert_eq!((cell.x as usize, cell.y as usize), (x, y));
        }
    }
}

#[test]
fn rule_table_all_combinations() {
    for n in 0..=8 {
        let from_alive = if n == 2 || n == 3 { CellState::Alive } else { CellState::Dead };
        let from_dead = if n == 3 { CellState::Alive } else { CellState::Dead };
        assert_eq!(next_state(CellState::Alive, n), from_alive, "alive with {}", n);
        assert_eq!(next_state(CellState::Dead, n), from_dead, "dead with {}", n);
    }
}

#[test]
fn corner_cells_have_three_candidate_neighbors() {
    let all: Vec<(u16, u16)> = (0..3).flat_map(|x| (0..3).map(move |y| (x, y))).collect();
    let board = board_with(3, 3, &all);
    assert_eq!(count_neighbors(&board[0][0], &board), 3);
    assert_eq!(count_neighbors(&board[2][2], &board), 3);
    assert_eq!(count_neighbors(&board[1][0], &board), 5);
    assert_eq!(count_neighbors(&board[1][1], &board), 8);
}

#[test]
fn edges_do_not_wrap() {
    // Live cells on the far edges only: a wrapping grid would count them
    // as neighbors of the origin.
    let board = board_with(5, 4, &[(4, 0), (0, 3), (4, 3), (4, 1), (1, 3)]);
    assert_eq!(count_neighbors(&board[0][0], &board), 0);
    let corner = board_with(5, 4, &[(0, 0), (1, 0), (0, 1)]);
    assert_eq!(count_neighbors(&corner[4][3], &corner), 0);
}

#[test]
fn step_reads_only_the_previous_generation() {
    let board = board_with(3, 3, &[(0, 0), (1, 0), (0, 1)]);
    let next = next_generation(&board);
    assert_positions_kept(&next, 3, 3);
    assert_eq!(live_cells(&next), vec![(0, 0), (0, 1), (1, 0), (1, 1)]);

    let row = board_with(3, 3, &[(0, 1), (1, 1), (2, 1)]);
    let next = next_generation(&row);
    assert_eq!(live_cells(&next), vec![(1, 0), (1, 1), (1, 2)]);
}

#[test]
fn update_board_in_place_matches_fresh_generation() {
    let start = board_with(4, 4, &[(0, 0), (1, 0), (0, 1), (3, 3), (2, 3)]);
    let mut board = start.clone();
    update_board(&mut board);
    assert_eq!(board, next_generation(&start));
    assert_positions_kept(&board, 4, 4);
}

#[test]
fn empty_grid_stays_empty() {
    let board = board_with(3, 3, &[]);
    let next = next_generation(&board);
    assert_eq!(next, board);
}

#[test]
fn block_is_a_still_life() {
    let block = [(2, 2), (3, 2), (2, 3), (3, 3)];
    let board = board_with(6, 6, &block);
    let next = next_generation(&board);
    assert_eq!(next, board);
}

#[test]
fn blinker_oscillates_with_period_two() {
    let horizontal = board_with(5, 5, &[(1, 2), (2, 2), (3, 2)]);
    let vertical = board_with(5, 5, &[(2, 1), (2, 2), (2, 3)]);
    let once = next_generation(&horizontal);
    assert_eq!(once, vertical);
    let twice = next_generation(&once);
    assert_eq!(twice, horizontal);
}

#[test]
fn render_writes_each_cell_once_in_order() {
    let board = board_with(2, 2, &[(1, 0)]);
    let writes = render_board(&board);
    assert_eq!(
        writes,
        vec![
            (0, 0, DEAD_SYMBOL),
            (0, 1, DEAD_SYMBOL),
            (1, 0, ALIVE_SYMBOL),
            (1, 1, DEAD_SYMBOL)
        ]
    );
    assert_eq!(ALIVE_SYMBOL, '\u{2588}');
    assert_eq!(DEAD_SYMBOL, ' ');
}

#[test]
fn rendering_twice_gives_identical_writes() {
    let board = board_with(4, 3, &[(0, 0), (3, 2), (1, 1)]);
    assert_eq!(render_board(&board), render_board(&board));
    assert!(render_board(&[]).is_empty());
}

#[test]
fn print_char_positions_then_parks_cursor() {
    assert_eq!(print_char(0, 0, '#'), "\u{1b}[1;1H#\u{1b}[41;131H");
    assert_eq!(print_char(9, 4, ALIVE_SYMBOL), "\u{1b}[5;10H\u{2588}\u{1b}[41;131H");
    assert_eq!(print_char(129, 39, ' '), "\u{1b}[40;130H \u{1b}[41;131H");
}

#[test]
fn frame_delay_is_the_rest_of_the_frame() {
    assert_eq!(wait_for_next_frame(0), 220);
    assert_eq!(wait_for_next_frame(100), 120);
    assert_eq!(wait_for_next_frame(219), 1);
    assert_eq!(wait_for_next_frame(220), 0);
    assert_eq!(wait_for_next_frame(5000), 0);
}

#[test]
fn terminal_must_hold_the_grid() {
    assert!(check_terminal_size(130, 40));
    assert!(check_terminal_size(200, 60));
    assert!(!check_terminal_size(129, 40));
    assert!(!check_terminal_size(130, 39));
    assert!(!check_terminal_size(0, 0));
}

#[test]
fn cell_from_draws_is_alive_only_when_both_draws_are() {
    assert_eq!(cell_from_draws(3, 4, true, true), Cell { x: 3, y: 4, state: CellState::Alive });
    assert_eq!(cell_from_draws(3, 4, true, false).state, CellState::Dead);
    assert_eq!(cell_from_draws(3, 4, false, true).state, CellState::Dead);
    assert_eq!(cell_from_draws(3, 4, false, false).state, CellState::Dead);
}

#[test]
fn random_cell_keeps_its_position() {
    let cell = generate_random_cell(7, 9);
    assert_eq!((cell.x, cell.y), (7, 9));
}

#[test]
fn initial_board_is_a_quarter_alive() {
    let mut alive = 0usize;
    let mut total = 0usize;
    let first = initialize_board();
    let mut differs = false;
    for _ in 0..20 {
        let board = initialize_board();
        assert_positions_kept(&board, WINDOW_WIDTH as usize, WINDOW_HEIGHT as usize);
        if board != first {
            differs = true;
        }
        for column in &board {
            for cell in column {
                total += 1;
                if cell.state == CellState::Alive {
                    alive += 1;
                }
            }
        }
    }
    let fraction = alive as f64 / total as f64;
    assert!((fraction - 0.25).abs() < 0.02, "fraction alive {}", fraction);
    assert!(differs);
}
