use arena::game::Cell;
use arena::game::Game;
use arena::game::Position;
use arena::game::State;
use arena::screen::print;
use arena::screen::print_score;
use arena::screen::render_main;
use arena::screen::select_screen;
use arena::screen::Screen;
use arena::screen::ScreenKind;
use arena::screen::BLUE;
use arena::screen::RED;
use arena::screen::WHITE;

fn reach_main(g: &mut Game) {
    g.start();
    for _ in 0..40 {
        g.tick();
    }
    assert_eq!(g.state, State::Main);
}

#[test]
fn print_writes_bytes_with_the_color() {
    let mut s = Screen::new();
    print(&mut s, WHITE, 3, 5, b"AB");
    assert_eq!(s.cell(3, 5), WHITE | b'A' as u16);
    assert_eq!(s.cell(3, 6), WHITE | b'B' as u16);
    assert_eq!(s.cell(3, 7), 0);
    assert_eq!(s.cell(4, 5), 0);
}

#[test]
fn print_newline_returns_to_the_start_column() {
    let mut s = Screen::new();
    print(&mut s, RED, 0, 10, b"ab\ncd");
    assert_eq!(s.cell(0, 10), RED | b'a' as u16);
    assert_eq!(s.cell(0, 11), RED | b'b' as u16);
    assert_eq!(s.cell(1, 10), RED | b'c' as u16);
    assert_eq!(s.cell(1, 11), RED | b'd' as u16);
    // The newline itself writes nothing.
    assert_eq!(s.cell(0, 12), 0);
}

#[test]
fn print_score_zero_is_a_single_digit() {
    let mut s = Screen::new();
    print_score(&mut s, 7, 78, 0);
    assert_eq!(s.cell(7, 78), WHITE + 0x30);
    // Nine blanks fill the rest of the field.
    for c in 69..78 {
        assert_eq!(s.cell(7, c), WHITE + 0x20);
    }
    // Outside the ten-column field nothing is touched.
    assert_eq!(s.cell(7, 68), 0);
    assert_eq!(s.cell(7, 79), 0);
    assert_eq!(s.cell(6, 78), 0);
    assert_eq!(s.cell(8, 78), 0);
}

#[test]
fn print_score_renders_right_aligned_digits() {
    let mut s = Screen::new();
    print_score(&mut s, 8, 78, 1203);
    assert_eq!(s.cell(8, 78), WHITE + 0x30 + 3);
    assert_eq!(s.cell(8, 77), WHITE + 0x30 + 0);
    assert_eq!(s.cell(8, 76), WHITE + 0x30 + 2);
    assert_eq!(s.cell(8, 75), WHITE + 0x30 + 1);
    for c in 69..75 {
        assert_eq!(s.cell(8, c), WHITE + 0x20);
    }
    assert_eq!(s.cell(8, 68), 0);
}

#[test]
fn print_score_blanks_a_previously_wider_numeral() {
    let mut s = Screen::new();
    print_score(&mut s, 7, 78, 123456);
    print_score(&mut s, 7, 78, 7);
    assert_eq!(s.cell(7, 78), WHITE + 0x30 + 7);
    for c in 69..78 {
        assert_eq!(s.cell(7, c), WHITE + 0x20);
    }
}

#[test]
fn render_main_projects_board_trails_and_heads() {
    let mut g = Game::new();
    reach_main(&mut g);
    g.board.set_cell(Position { row: 0, col: 0 }, Cell::Red);
    g.board.set_cell(Position { row: 24, col: 49 }, Cell::Blue);
    let mut s = Screen::new();
    print(&mut s, WHITE, 0, 50, b"side");
    render_main(&g, &mut s);
    // Trails and empty cells.
    assert_eq!(s.cell(0, 0), 0x4020);
    assert_eq!(s.cell(24, 49), 0x1020);
    assert_eq!(s.cell(5, 5), 0x0220);
    // The heads, over whatever is below.
    assert_eq!(s.cell(12, 16), 0x1020);
    assert_eq!(s.cell(12, 33), 0x4020);
    // The right half of the screen is untouched.
    assert_eq!(s.cell(0, 50), WHITE | b's' as u16);
    assert_eq!(s.cell(0, 54), 0);
}

#[test]
fn select_screen_follows_the_state() {
    let mut g = Game::new();
    assert_eq!(select_screen(&g), (ScreenKind::Title, WHITE));
    g.start();
    assert_eq!(select_screen(&g), (ScreenKind::Three, WHITE));
    for _ in 0..10 {
        g.tick();
    }
    assert_eq!(select_screen(&g), (ScreenKind::Two, WHITE));
    for _ in 0..10 {
        g.tick();
    }
    assert_eq!(select_screen(&g), (ScreenKind::One, WHITE));
    for _ in 0..10 {
        g.tick();
    }
    assert_eq!(select_screen(&g), (ScreenKind::Zero, WHITE));
    for _ in 0..10 {
        g.tick();
    }
    assert_eq!(select_screen(&g), (ScreenKind::Board, WHITE));
    g.pause();
    assert_eq!(select_screen(&g), (ScreenKind::Paused, WHITE));
}

#[test]
fn select_screen_colors_the_death_outcomes() {
    // Blue runs into red's trail: red wins, win screen in red.
    let mut g = Game::new();
    reach_main(&mut g);
    g.board.set_cell(Position { row: 12, col: 17 }, Cell::Red);
    g.tick();
    assert_eq!(g.state, State::Death);
    assert_eq!(select_screen(&g), (ScreenKind::Win, RED));
    // Red runs into blue's trail: blue wins, win screen in blue.
    let mut g = Game::new();
    reach_main(&mut g);
    g.board.set_cell(Position { row: 12, col: 32 }, Cell::Blue);
    g.tick();
    assert_eq!(g.state, State::Death);
    assert_eq!(select_screen(&g), (ScreenKind::Win, BLUE));
    // Head-on: both die, tie screen in white.
    let mut g = Game::new();
    reach_main(&mut g);
    g.blue.pos = Position { row: 12, col: 23 };
    g.red.pos = Position { row: 12, col: 25 };
    g.tick();
    assert_eq!(g.state, State::Death);
    assert_eq!(select_screen(&g), (ScreenKind::Tie, WHITE));
}

#[test]
fn screen_starts_blank() {
    let s = Screen::new();
    for y in 0..25 {
        for x in 0..80 {
            assert_eq!(s.cell(y, x), 0);
        }
    }
}
