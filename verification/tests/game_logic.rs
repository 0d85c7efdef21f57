use bevy_3ds::game::{
    draw_player, handle_inputs, move_player, spawn_player, Direction, InputOutcome, Position,
};
use bevy_3ds::input::{ButtonValue, GamepadButton, GamepadButtonEvent};

fn press(button: GamepadButton) -> GamepadButtonEvent {
    GamepadButtonEvent { gamepad: 0, button, value: ButtonValue::Pressed }
}

#[test]
fn spawn_at_origin_facing_east() {
    assert_eq!(spawn_player(), (Position { x: 0, y: 0 }, Direction::East));
}

#[test]
fn clamp_to_window_cuts_coordinates() {
    let mut p = Position { x: 50, y: 10 };
    p.clamp_to_window();
    assert_eq!(p, Position { x: 40, y: 10 });
    let mut p = Position { x: 3, y: 31 };
    p.clamp_to_window();
    assert_eq!(p, Position { x: 3, y: 30 });
    let mut p = Position { x: usize::MAX, y: usize::MAX };
    p.clamp_to_window();
    assert_eq!(p, Position { x: 40, y: 30 });
    p.clamp_to_window();
    assert_eq!(p, Position { x: 40, y: 30 });
}

#[test]
fn move_player_each_direction() {
    let mut p = Position { x: 5, y: 5 };
    move_player(&mut p, Direction::North);
    assert_eq!(p, Position { x: 5, y: 4 });
    move_player(&mut p, Direction::South);
    assert_eq!(p, Position { x: 5, y: 5 });
    move_player(&mut p, Direction::East);
    assert_eq!(p, Position { x: 6, y: 5 });
    move_player(&mut p, Direction::West);
    assert_eq!(p, Position { x: 5, y: 5 });
}

#[test]
fn move_player_stops_at_border() {
    let mut p = Position { x: 40, y: 30 };
    move_player(&mut p, Direction::East);
    assert_eq!(p, Position { x: 40, y: 30 });
    move_player(&mut p, Direction::South);
    assert_eq!(p, Position { x: 40, y: 30 });
}

#[test]
fn handle_inputs_last_press_wins() {
    let events = vec![
        press(GamepadButton::DPadUp),
        press(GamepadButton::East),
        press(GamepadButton::DPadLeft),
    ];
    assert_eq!(
        handle_inputs(Direction::East, &events),
        InputOutcome { direction: Direction::West, exit_requests: 0 }
    );
}

#[test]
fn handle_inputs_ignores_releases_and_other_gamepads() {
    let events = vec![
        GamepadButtonEvent {
            gamepad: 0,
            button: GamepadButton::DPadDown,
            value: ButtonValue::Released,
        },
        GamepadButtonEvent { gamepad: 1, button: GamepadButton::DPadUp, value: ButtonValue::Pressed },
        GamepadButtonEvent { gamepad: 2, button: GamepadButton::Start, value: ButtonValue::Pressed },
    ];
    assert_eq!(
        handle_inputs(Direction::South, &events),
        InputOutcome { direction: Direction::South, exit_requests: 0 }
    );
}

#[test]
fn handle_inputs_counts_start_presses() {
    let events = vec![
        press(GamepadButton::Start),
        press(GamepadButton::DPadDown),
        press(GamepadButton::Start),
    ];
    assert_eq!(
        handle_inputs(Direction::North, &events),
        InputOutcome { direction: Direction::South, exit_requests: 2 }
    );
    assert_eq!(
        handle_inputs(Direction::North, &Vec::new()),
        InputOutcome { direction: Direction::North, exit_requests: 0 }
    );
}

#[test]
fn draw_player_at_origin() {
    assert_eq!(draw_player(&Position { x: 0, y: 0 }, Direction::East), "\x1b[0;0H\n>");
    assert_eq!(draw_player(&Position { x: 1, y: 0 }, Direction::West), "\x1b[0;0H\n<");
}

#[test]
fn draw_player_matches_formatting() {
    let p = Position { x: 4, y: 2 };
    let mut expected = String::from("\x1b[0;0H\n");
    for _ in 0..p.y {
        expected.push_str(&format!("{:>39}\n", ""));
    }
    expected.push_str(&format!("{:>1$}", '^', p.x));
    let text = draw_player(&p, Direction::North);
    assert_eq!(text, expected);
    assert_eq!(text, "\x1b[0;0H\n                                       \n                                       \n   ^");
    assert_eq!(text.chars().count(), 8 + 40 * 2 + 3);
}

#[test]
fn draw_player_south_arrow() {
    let text = draw_player(&Position { x: 2, y: 1 }, Direction::South);
    assert!(text.ends_with(" v"));
}
