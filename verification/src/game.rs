//! The logic of the demo game: a player that walks across the screen in the
//! direction chosen with the D-pad, drawn as an arrow on a text console.
use vstd::prelude::*;

use crate::input::{ButtonValue, GamepadButton, GamepadButtonEvent, GAMEPAD};

verus! {

/// The largest column the player can stand on.
pub const WINDOW_MAX_X: usize = 40;

/// The largest row the player can stand on.
pub const WINDOW_MAX_Y: usize = 30;

/// Where the player stands: a column and a row of the console.
#[derive(Clone, Copy, Debug, PartialEq, Eq, Structural)]
pub struct Position {
    pub x: usize,
    pub y: usize,
}

/// Where the player walks.
#[derive(Clone, Copy, Debug, PartialEq, Eq, Structural)]
pub enum Direction {
    North,
    South,
    East,
    West,
}

pub open spec fn min_usize(a: usize, b: usize) -> usize {
    if a <= b {
        a
    } else {
        b
    }
}

/// `p` moved back into the window.
pub open spec fn clamped(p: Position) -> Position {
    Position { x: min_usize(p.x, WINDOW_MAX_X), y: min_usize(p.y, WINDOW_MAX_Y) }
}

/// `p` lies inside the window.
pub open spec fn in_window(p: Position) -> bool {
    p.x <= WINDOW_MAX_X && p.y <= WINDOW_MAX_Y
}

/// A step from `p` in direction `d` stays within the range of `usize`.
pub open spec fn can_step(p: Position, d: Direction) -> bool {
    match d {
        Direction::North => p.y > 0,
        Direction::South => p.y < usize::MAX,
        Direction::East => p.x < usize::MAX,
        Direction::West => p.x > 0,
    }
}

/// One step from `p` in direction `d`: north is up (one row less), east is
/// right (one column more).
pub open spec fn stepped(p: Position, d: Direction) -> Position
    recommends
        can_step(p, d),
{
    match d {
        Direction::North => Position { x: p.x, y: (p.y - 1) as usize },
        Direction::South => Position { x: p.x, y: (p.y + 1) as usize },
        Direction::East => Position { x: (p.x + 1) as usize, y: p.y },
        Direction::West => Position { x: (p.x - 1) as usize, y: p.y },
    }
}

impl Position {
    /// Moves the position back into the window: each coordinate is cut to its
    /// largest allowed value.
    pub fn clamp_to_window(&mut self)
        ensures
            *final(self) == clamped(*old(self)),
    {
        if self.x > WINDOW_MAX_X {
            self.x = WINDOW_MAX_X;
        }
        if self.y > WINDOW_MAX_Y {
            self.y = WINDOW_MAX_Y;
        }
    }
}

/// The player as it enters the game: at the top left corner, walking east.
pub fn spawn_player() -> (player: (Position, Direction))
    ensures
        player == (Position { x: 0, y: 0 }, Direction::East),
{
    (Position { x: 0, y: 0 }, Direction::East)
}

/// Whether a step from `pos` in direction `dir` stays within the range of
/// `usize`.
pub fn can_move(pos: &Position, dir: Direction) -> (ok: bool)
    ensures
        ok == can_step(*pos, dir),
{
    match dir {
        Direction::North => pos.y > 0,
        Direction::South => pos.y < usize::MAX,
        Direction::East => pos.x < usize::MAX,
        Direction::West => pos.x > 0,
    }
}

/// Moves the player one step in its direction, then back into the window.
pub fn move_player(pos: &mut Position, dir: Direction)
    requires
        can_step(*old(pos), dir),
    ensures
        *final(pos) == clamped(stepped(*old(pos), dir)),
{
    match dir {
        Direction::North => pos.y = pos.y - 1,
        Direction::South => pos.y = pos.y + 1,
        Direction::East => pos.x = pos.x + 1,
        Direction::West => pos.x = pos.x - 1,
    }
    pos.clamp_to_window();
}

/// The direction that an event asks for: a D-pad button of the 3DS gamepad
/// that is pressed.
pub open spec fn requested_direction(ev: GamepadButtonEvent) -> Option<Direction> {
    if ev.gamepad == GAMEPAD && ev.value == ButtonValue::Pressed {
        match ev.button {
            GamepadButton::DPadUp => Some(Direction::North),
            GamepadButton::DPadDown => Some(Direction::South),
            GamepadButton::DPadLeft => Some(Direction::West),
            GamepadButton::DPadRight => Some(Direction::East),
            _ => None,
        }
    } else {
        None
    }
}

/// The event asks to leave the game: the Start button of the 3DS gamepad is
/// pressed.
pub open spec fn requests_exit(ev: GamepadButtonEvent) -> bool {
    ev.gamepad == GAMEPAD && ev.value == ButtonValue::Pressed && ev.button == GamepadButton::Start
}

/// The direction after `events`: that of the last event that asks for one, or
/// `dir` where none does.
pub open spec fn direction_after(dir: Direction, events: Seq<GamepadButtonEvent>) -> Direction
    decreases events.len(),
{
    if events.len() == 0 {
        dir
    } else {
        match requested_direction(events.last()) {
            Some(d) => d,
            None => direction_after(dir, events.drop_last()),
        }
    }
}

/// What a batch of input events does to the game.
#[derive(Clone, Copy, Debug, PartialEq, Eq, Structural)]
pub struct InputOutcome {
    /// The direction the player walks in afterwards.
    pub direction: Direction,
    /// How many exit requests are sent, one per press of Start.
    pub exit_requests: usize,
}

/// Applies a batch of gamepad events to the player's direction: each press of
/// a D-pad button turns the player, each press of Start requests an exit.
/// Events of other gamepads, releases and other buttons are ignored.
pub fn handle_inputs(direction: Direction, events: &Vec<GamepadButtonEvent>) -> (out: InputOutcome)
    ensures
        out.direction == direction_after(direction, events@),
        out.exit_requests == events@.filter(|e: GamepadButtonEvent| requests_exit(e)).len(),
{
    let mut dir = direction;
    let mut exits: usize = 0;
    let n = events.len();
    for i in 0..n
        invariant
            n == events@.len(),
            dir == direction_after(direction, events@.take(i as int)),
            exits == events@.take(i as int).filter(|e: GamepadButtonEvent| requests_exit(e)).len(),
            exits <= i,
    {
        let ev = events[i];
        proof {
            assert(events@.take(i + 1) =~= events@.take(i as int).push(ev));
            assert(events@.take(i + 1).drop_last() =~= events@.take(i as int));
            events@.take(i as int).lemma_filter_push(ev, |e: GamepadButtonEvent| requests_exit(e));
        }
        if ev.gamepad == GAMEPAD {
            if let ButtonValue::Pressed = ev.value {
                match ev.button {
                    GamepadButton::DPadUp => {
                        dir = Direction::North;
                    },
                    GamepadButton::DPadDown => {
                        dir = Direction::South;
                    },
                    GamepadButton::DPadLeft => {
                        dir = Direction::West;
                    },
                    GamepadButton::DPadRight => {
                        dir = Direction::East;
                    },
                    GamepadButton::Start => {
                        exits = exits + 1;
                    },
                    _ => {},
                }
            }
        }
    }
    assert(events@.take(n as int) =~= events@);
    InputOutcome { direction: dir, exit_requests: exits }
}

/// The arrow that shows a direction.
pub open spec fn arrow(d: Direction) -> char {
    match d {
        Direction::North => '^',
        Direction::South => 'v',
        Direction::East => '>',
        Direction::West => '<',
    }
}

/// `n` spaces.
pub open spec fn spaces(n: nat) -> Seq<char> {
    Seq::new(n, |i: int| ' ')
}

/// The width of an empty line of the console.
pub open spec fn blank_line() -> Seq<char> {
    spaces(39) + seq!['\n']
}

/// `n` empty lines.
pub open spec fn blank_lines(n: nat) -> Seq<char>
    decreases n,
{
    if n == 0 {
        Seq::empty()
    } else {
        blank_lines((n - 1) as nat) + blank_line()
    }
}

/// The text that draws the player: the cursor goes home, one empty line is
/// written per row above the player, and the arrow is right-aligned in a
/// field as wide as the player's column.
pub open spec fn player_text(p: Position, d: Direction) -> Seq<char> {
    seq!['\x1b', '[', '0', ';', '0', 'H', '\n'] + blank_lines(p.y as nat) + spaces(
        if p.x > 1 {
            (p.x - 1) as nat
        } else {
            0
        },
    ) + seq![arrow(d)]
}

/// The text that draws the player at `position`, facing `direction`.
pub fn draw_player(position: &Position, direction: Direction) -> (text: String)
    ensures
        text@ == player_text(*position, direction),
{
    let mut text = String::new();
    let home = "\x1b[0;0H\n";
    let line = "                                       \n";
    proof {
        reveal_strlit("\x1b[0;0H\n");
        reveal_strlit("                                       \n");
        assert(home@ =~= seq!['\x1b', '[', '0', ';', '0', 'H', '\n']);
        assert(line@ =~= blank_line());
    }
    text.append(home);
    let ghost head = text@;
    let mut row: usize = 0;
    while row < position.y
        invariant
            row <= position.y,
            line@ == blank_line(),
            text@ == head + blank_lines(row as nat),
        decreases position.y - row,
    {
        text.append(line);
        row = row + 1;
        proof {
            assert(text@ =~= head + blank_lines(row as nat));
        }
    }
    let ghost body = text@;
    let pad: usize = if position.x > 1 {
        position.x - 1
    } else {
        0
    };
    let mut col: usize = 0;
    let space = " ";
    proof {
        reveal_strlit(" ");
    }
    while col < pad
        invariant
            col <= pad,
            space@ == seq![' '],
            text@ == body + spaces(col as nat),
        decreases pad - col,
    {
        text.append(space);
        col = col + 1;
        assert(text@ =~= body + spaces(col as nat));
    }
    let arrow_text = match direction {
        Direction::North => "^",
        Direction::South => "v",
        Direction::East => ">",
        Direction::West => "<",
    };
    proof {
        reveal_strlit("^");
        reveal_strlit("v");
        reveal_strlit(">");
        reveal_strlit("<");
        assert(arrow_text@ =~= seq![arrow(direction)]);
    }
    text.append(arrow_text);
    assert(text@ =~= player_text(*position, direction));
    text
}

/// Clamping puts a position inside the window, leaves a position inside the
/// window where it is, and so changes nothing when done twice.
pub proof fn lemma_clamp_to_window(p: Position)
    ensures
        in_window(clamped(p)),
        in_window(p) ==> clamped(p) == p,
        clamped(clamped(p)) == clamped(p),
{
}

/// A move from inside the window ends inside the window, one step away in the
/// direction of the move or, at the border it walks into, where it started.
pub proof fn lemma_move_within_window(p: Position, d: Direction)
    requires
        in_window(p),
        can_step(p, d),
    ensures
        in_window(clamped(stepped(p, d))),
        clamped(stepped(p, d)) == (match d {
            Direction::North => Position { x: p.x, y: (p.y - 1) as usize },
            Direction::South => Position { x: p.x, y: min_usize((p.y + 1) as usize, WINDOW_MAX_Y) },
            Direction::East => Position { x: min_usize((p.x + 1) as usize, WINDOW_MAX_X), y: p.y },
            Direction::West => Position { x: (p.x - 1) as usize, y: p.y },
        }),
{
}

/// Events that ask for no direction leave the direction as it was.
pub proof fn lemma_direction_kept_without_request(dir: Direction, events: Seq<GamepadButtonEvent>)
    requires
        forall|i: int| 0 <= i < events.len() ==> requested_direction(#[trigger] events[i]) is None,
    ensures
        direction_after(dir, events) == dir,
    decreases events.len(),
{
    if events.len() > 0 {
        assert(requested_direction(events[events.len() - 1]) is None);
        lemma_direction_kept_without_request(dir, events.drop_last());
    }
}

/// The direction after a batch of events followed by one that asks for a
/// direction is the one that the last event asks for.
pub proof fn lemma_last_request_wins(
    dir: Direction,
    events: Seq<GamepadButtonEvent>,
    last: GamepadButtonEvent,
)
    requires
        requested_direction(last) is Some,
    ensures
        direction_after(dir, events.push(last)) == requested_direction(last).unwrap(),
{
    assert(events.push(last).last() == last);
}

/// No exit is requested exactly when no event presses Start.
pub proof fn lemma_exit_requests(events: Seq<GamepadButtonEvent>)
    ensures
        (events.filter(|e: GamepadButtonEvent| requests_exit(e)).len() == 0) <==> (forall|i: int|
            0 <= i < events.len() ==> !requests_exit(#[trigger] events[i])),
{
    broadcast use vstd::seq_lib::group_filter_ensures;

    let f = events.filter(|e: GamepadButtonEvent| requests_exit(e));
    if f.len() == 0 {
        assert forall|i: int| 0 <= i < events.len() implies !requests_exit(#[trigger] events[i]) by {
            if requests_exit(events[i]) {
                assert(f.contains(events[i]));
            }
        }
    } else {
        let e = f[0];
        assert(f.contains(e));
        events.lemma_filter_contains_rev(|e: GamepadButtonEvent| requests_exit(e), e);
    }
}

/// Only a press of a D-pad button on gamepad 0 turns the player: an event that
/// is a release, comes from another gamepad or is for any other button leaves
/// the direction as it was.
pub proof fn lemma_only_dpad_presses_turn(
    dir: Direction,
    events: Seq<GamepadButtonEvent>,
    ev: GamepadButtonEvent,
)
    requires
        !(ev.gamepad == 0 && ev.value == ButtonValue::Pressed && (ev.button
            == GamepadButton::DPadUp || ev.button == GamepadButton::DPadDown || ev.button
            == GamepadButton::DPadLeft || ev.button == GamepadButton::DPadRight)),
    ensures
        direction_after(dir, events.push(ev)) == direction_after(dir, events),
{
    assert(events.push(ev).last() == ev);
    assert(events.push(ev).drop_last() =~= events);
}

/// A press of a D-pad button on gamepad 0 turns the player to the direction of
/// that button, whatever came before: up is north, down is south, left is
/// west and right is east.
pub proof fn lemma_dpad_press_turns(
    dir: Direction,
    events: Seq<GamepadButtonEvent>,
    ev: GamepadButtonEvent,
)
    requires
        ev.gamepad == 0,
        ev.value == ButtonValue::Pressed,
    ensures
        ev.button == GamepadButton::DPadUp ==> direction_after(dir, events.push(ev))
            == Direction::North,
        ev.button == GamepadButton::DPadDown ==> direction_after(dir, events.push(ev))
            == Direction::South,
        ev.button == GamepadButton::DPadLeft ==> direction_after(dir, events.push(ev))
            == Direction::West,
        ev.button == GamepadButton::DPadRight ==> direction_after(dir, events.push(ev))
            == Direction::East,
{
    assert(events.push(ev).last() == ev);
}

/// No events leave the direction as it was and request no exit.
pub proof fn lemma_no_events(dir: Direction)
    ensures
        direction_after(dir, Seq::<GamepadButtonEvent>::empty()) == dir,
        Seq::<GamepadButtonEvent>::empty().filter(|e: GamepadButtonEvent| requests_exit(e)).len()
            == 0,
{
    reveal(Seq::filter);
}

/// Each event adds one exit request when it is a press of Start on gamepad 0,
/// and none otherwise.
pub proof fn lemma_exit_request_count(events: Seq<GamepadButtonEvent>, ev: GamepadButtonEvent)
    ensures
        events.push(ev).filter(|e: GamepadButtonEvent| requests_exit(e)).len() == events.filter(
            |e: GamepadButtonEvent| requests_exit(e),
        ).len() + if ev.gamepad == 0 && ev.value == ButtonValue::Pressed && ev.button
            == GamepadButton::Start {
            1int
        } else {
            0int
        },
{
    events.lemma_filter_push(ev, |e: GamepadButtonEvent| requests_exit(e));
}

/// A step is possible exactly when its target, computed on unbounded
/// integers, lies within the range of `usize`; the window plays no part, so a
/// step into the border of the window is always possible.
pub proof fn lemma_can_step_exactly_in_range(p: Position, d: Direction)
    ensures
        ({
            let (tx, ty): (int, int) = match d {
                Direction::North => (p.x as int, p.y - 1),
                Direction::South => (p.x as int, p.y + 1),
                Direction::East => (p.x + 1, p.y as int),
                Direction::West => (p.x - 1, p.y as int),
            };
            &&& can_step(p, d) <==> (0 <= tx <= usize::MAX && 0 <= ty <= usize::MAX)
            &&& can_step(p, d) ==> stepped(p, d).x == tx && stepped(p, d).y == ty
        }),
        in_window(p) && !(d == Direction::North && p.y == 0) && !(d == Direction::West && p.x
            == 0) ==> can_step(p, d),
{
}

proof fn lemma_blank_lines_len(n: nat)
    ensures
        blank_lines(n).len() == 40 * n,
    decreases n,
{
    if n > 0 {
        lemma_blank_lines_len((n - 1) as nat);
    }
}

/// The drawing is as long as its parts: the cursor move (seven characters),
/// forty per row above the player, the padding and the arrow; it ends with the
/// arrow of the player's direction.
pub proof fn lemma_player_text_shape(p: Position, d: Direction)
    ensures
        player_text(p, d).len() == 8 + 40 * p.y + (if p.x > 1 {
            p.x - 1
        } else {
            0
        }),
        player_text(p, d).last() == arrow(d),
{
    lemma_blank_lines_len(p.y as nat);
}

} // verus!
