use arena::game::Direction;
use arena::game::Game;
use arena::game::State;
use arena::keyboard::decode;
use arena::keyboard::handle_key;
use arena::keyboard::Command;

#[test]
fn decode_maps_the_fixed_scan_code_table() {
    assert_eq!(decode(57), Some(Command::Start));
    assert_eq!(decode(25), Some(Command::Pause));
    assert_eq!(decode(16), Some(Command::Quit));
    assert_eq!(decode(17), Some(Command::Steer(false, Direction::Up)));
    assert_eq!(decode(31), Some(Command::Steer(false, Direction::Down)));
    assert_eq!(decode(30), Some(Command::Steer(false, Direction::Left)));
    assert_eq!(decode(32), Some(Command::Steer(false, Direction::Right)));
    assert_eq!(decode(72), Some(Command::Steer(true, Direction::Up)));
    assert_eq!(decode(80), Some(Command::Steer(true, Direction::Down)));
    assert_eq!(decode(75), Some(Command::Steer(true, Direction::Left)));
    assert_eq!(decode(77), Some(Command::Steer(true, Direction::Right)));
}

#[test]
fn decode_ignores_unmapped_codes() {
    for code in 0..=255u16 {
        let code = code as u8;
        let mapped = matches!(code, 57 | 25 | 16 | 17 | 31 | 30 | 32 | 72 | 80 | 75 | 77);
        assert_eq!(decode(code).is_some(), mapped, "code {code}");
    }
}

#[test]
fn handle_key_drives_the_game() {
    let mut g = Game::new();
    // Space starts the game.
    handle_key(&mut g, 57);
    assert_eq!(g.state, State::Countdown(3));
    for _ in 0..40 {
        g.tick();
    }
    assert_eq!(g.state, State::Main);
    // W steers blue up, Down arrow steers red down.
    handle_key(&mut g, 17);
    assert_eq!(g.blue.direction, Direction::Up);
    handle_key(&mut g, 80);
    assert_eq!(g.red.direction, Direction::Down);
    // P pauses, Q quits back to the title.
    handle_key(&mut g, 25);
    assert_eq!(g.state, State::Paused);
    handle_key(&mut g, 16);
    assert_eq!(g.state, State::Title);
}

#[test]
fn handle_key_ignores_unknown_codes() {
    let mut g = Game::new();
    handle_key(&mut g, 0);
    handle_key(&mut g, 255);
    assert_eq!(g.state, State::Title);
    assert_eq!(g.time, 0);
}
