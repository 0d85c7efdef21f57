//! Turning the key pad state into gamepad button events.
use vstd::prelude::*;

use crate::input::{
    ButtonValue, GamepadButton, GamepadButtonEvent, KeyPad, GAMEPAD, KEY_A, KEY_B, KEY_DDOWN,
    KEY_DLEFT, KEY_DRIGHT, KEY_DUP, KEY_L, KEY_R, KEY_SELECT, KEY_START, KEY_X, KEY_Y, KEY_ZL,
    KEY_ZR,
};

verus! {

/// The keys that are reported as gamepad buttons, in the order in which their
/// events are sent.
pub open spec fn key_order() -> Seq<KeyPad> {
    seq![
        KeyPad { bits: KEY_A },
        KeyPad { bits: KEY_B },
        KeyPad { bits: KEY_DDOWN },
        KeyPad { bits: KEY_DLEFT },
        KeyPad { bits: KEY_DRIGHT },
        KeyPad { bits: KEY_DUP },
        KeyPad { bits: KEY_L },
        KeyPad { bits: KEY_R },
        KeyPad { bits: KEY_SELECT },
        KeyPad { bits: KEY_START },
        KeyPad { bits: KEY_X },
        KeyPad { bits: KEY_Y },
        KeyPad { bits: KEY_ZL },
        KeyPad { bits: KEY_ZR },
    ]
}

/// The gamepad button that a single key stands for.
pub open spec fn key_button(key: KeyPad) -> Option<GamepadButton> {
    let b = key.bits;
    if b == KEY_A {
        Some(GamepadButton::East)
    } else if b == KEY_B {
        Some(GamepadButton::South)
    } else if b == KEY_DDOWN {
        Some(GamepadButton::DPadDown)
    } else if b == KEY_DLEFT {
        Some(GamepadButton::DPadLeft)
    } else if b == KEY_DRIGHT {
        Some(GamepadButton::DPadRight)
    } else if b == KEY_DUP {
        Some(GamepadButton::DPadUp)
    } else if b == KEY_L {
        Some(GamepadButton::LeftTrigger)
    } else if b == KEY_R {
        Some(GamepadButton::RightTrigger)
    } else if b == KEY_SELECT {
        Some(GamepadButton::Select)
    } else if b == KEY_START {
        Some(GamepadButton::Start)
    } else if b == KEY_X {
        Some(GamepadButton::North)
    } else if b == KEY_Y {
        Some(GamepadButton::West)
    } else if b == KEY_ZL {
        Some(GamepadButton::LeftTrigger2)
    } else if b == KEY_ZR {
        Some(GamepadButton::RightTrigger2)
    } else {
        None
    }
}

/// The reported keys that are pressed in `pad`, in reporting order.
pub open spec fn keys_of(pad: KeyPad) -> Seq<KeyPad> {
    key_order().filter(|k: KeyPad| pad.has(k))
}

/// The event that reports `key` with `value` on the 3DS gamepad.
pub open spec fn key_event(key: KeyPad, value: ButtonValue) -> GamepadButtonEvent {
    GamepadButtonEvent { gamepad: GAMEPAD, button: key_button(key).unwrap(), value }
}

/// The events that report each pressed key of `pad` with `value`.
pub open spec fn events_of(pad: KeyPad, value: ButtonValue) -> Seq<GamepadButtonEvent> {
    keys_of(pad).map_values(|k: KeyPad| key_event(k, value))
}

/// All events of one frame: the keys that went down and the keys that are
/// held are reported pressed, the keys that went up are reported released.
pub open spec fn frame_events(down: KeyPad, held: KeyPad, up: KeyPad) -> Seq<GamepadButtonEvent> {
    events_of(down, ButtonValue::Pressed) + events_of(held, ButtonValue::Pressed) + events_of(
        up,
        ButtonValue::Released,
    )
}

/// The gamepad button for a single key, or `None` for any other key pad value.
pub fn convert_key(key: KeyPad) -> (r: Option<GamepadButton>)
    ensures
        r == key_button(key),
{
    let b = key.bits;
    if b == KEY_A {
        Some(GamepadButton::East)
    } else if b == KEY_B {
        Some(GamepadButton::South)
    } else if b == KEY_DDOWN {
        Some(GamepadButton::DPadDown)
    } else if b == KEY_DLEFT {
        Some(GamepadButton::DPadLeft)
    } else if b == KEY_DRIGHT {
        Some(GamepadButton::DPadRight)
    } else if b == KEY_DUP {
        Some(GamepadButton::DPadUp)
    } else if b == KEY_L {
        Some(GamepadButton::LeftTrigger)
    } else if b == KEY_R {
        Some(GamepadButton::RightTrigger)
    } else if b == KEY_SELECT {
        Some(GamepadButton::Select)
    } else if b == KEY_START {
        Some(GamepadButton::Start)
    } else if b == KEY_X {
        Some(GamepadButton::North)
    } else if b == KEY_Y {
        Some(GamepadButton::West)
    } else if b == KEY_ZL {
        Some(GamepadButton::LeftTrigger2)
    } else if b == KEY_ZR {
        Some(GamepadButton::RightTrigger2)
    } else {
        None
    }
}

fn key_order_vec() -> (v: Vec<KeyPad>)
    ensures
        v@ == key_order(),
{
    let v = vec![
        KeyPad { bits: KEY_A },
        KeyPad { bits: KEY_B },
        KeyPad { bits: KEY_DDOWN },
        KeyPad { bits: KEY_DLEFT },
        KeyPad { bits: KEY_DRIGHT },
        KeyPad { bits: KEY_DUP },
        KeyPad { bits: KEY_L },
        KeyPad { bits: KEY_R },
        KeyPad { bits: KEY_SELECT },
        KeyPad { bits: KEY_START },
        KeyPad { bits: KEY_X },
        KeyPad { bits: KEY_Y },
        KeyPad { bits: KEY_ZL },
        KeyPad { bits: KEY_ZR },
    ];
    assert(v@ =~= key_order());
    v
}

/// The reported keys that are pressed in `key_pad`, in reporting order.
pub fn for_each_key(key_pad: KeyPad) -> (keys: Vec<KeyPad>)
    ensures
        keys@ == keys_of(key_pad),
{
    let order = key_order_vec();
    let mut keys: Vec<KeyPad> = Vec::new();
    let n = order.len();
    for i in 0..n
        invariant
            n == order@.len(),
            order@ == key_order(),
            keys@ == order@.take(i as int).filter(|k: KeyPad| key_pad.has(k)),
    {
        let key = order[i];
        proof {
            order@.take(i as int).lemma_filter_push(key, |k: KeyPad| key_pad.has(k));
            assert(order@.take(i + 1) =~= order@.take(i as int).push(key));
        }
        if key_pad.contains(key) {
            keys.push(key);
        }
    }
    assert(order@.take(n as int) =~= order@);
    keys
}

/// Every reported key stands for a gamepad button.
proof fn lemma_order_keys_have_buttons()
    ensures
        forall|k: KeyPad| key_order().contains(k) ==> (#[trigger] key_button(k)) is Some,
{
    assert forall|k: KeyPad| key_order().contains(k) implies (#[trigger] key_button(k)) is Some by {
        let i = choose|i: int| 0 <= i < key_order().len() && key_order()[i] == k;
        assert(0 <= i < 14);
    }
}

/// The pressed keys of a key pad are reported keys, each with a button.
proof fn lemma_keys_of_have_buttons(pad: KeyPad)
    ensures
        forall|i: int|
            0 <= i < keys_of(pad).len() ==> key_order().contains(#[trigger] keys_of(pad)[i])
                && pad.has(keys_of(pad)[i]) && key_button(keys_of(pad)[i]) is Some,
{
    lemma_order_keys_have_buttons();
    assert forall|i: int| 0 <= i < keys_of(pad).len() implies key_order().contains(
        #[trigger] keys_of(pad)[i],
    ) && pad.has(keys_of(pad)[i]) && key_button(keys_of(pad)[i]) is Some by {
        let k = keys_of(pad)[i];
        assert(keys_of(pad).contains(k));
        key_order().lemma_filter_contains_rev(|k: KeyPad| pad.has(k), k);
        key_order().lemma_filter_pred(|k: KeyPad| pad.has(k), i);
    }
}

proof fn lemma_concat_contains<A>(a: Seq<A>, b: Seq<A>, x: A)
    ensures
        (a + b).contains(x) <==> a.contains(x) || b.contains(x),
{
    if (a + b).contains(x) {
        let i = choose|i: int| 0 <= i < (a + b).len() && (a + b)[i] == x;
        if i < a.len() {
            assert(a[i] == x);
        } else {
            assert(b[i - a.len()] == x);
        }
    }
    if a.contains(x) {
        let i = choose|i: int| 0 <= i < a.len() && a[i] == x;
        assert((a + b)[i] == x);
    }
    if b.contains(x) {
        let i = choose|i: int| 0 <= i < b.len() && b[i] == x;
        assert((a + b)[a.len() + i] == x);
    }
}

/// An event for `button` with `value` is among the events of `pad` reported
/// with `reported` exactly when the values agree and a pressed reported key
/// of `pad` stands for `button`.
proof fn lemma_events_of_contains(
    pad: KeyPad,
    reported: ButtonValue,
    button: GamepadButton,
    value: ButtonValue,
)
    ensures
        events_of(pad, reported).contains(GamepadButtonEvent { gamepad: GAMEPAD, button, value })
            <==> reported == value && exists|k: KeyPad|
            key_order().contains(k) && pad.has(k) && #[trigger] key_button(k) == Some(button),
{
    let ev = GamepadButtonEvent { gamepad: GAMEPAD, button, value };
    let keys = keys_of(pad);
    let events = events_of(pad, reported);
    lemma_keys_of_have_buttons(pad);
    if events.contains(ev) {
        let j = choose|j: int| 0 <= j < events.len() && events[j] == ev;
        let k = keys[j];
        assert(key_order().contains(k) && pad.has(k) && key_button(k) == Some(button));
    }
    if reported == value && exists|k: KeyPad|
        key_order().contains(k) && pad.has(k) && #[trigger] key_button(k) == Some(button) {
        let k = choose|k: KeyPad|
            key_order().contains(k) && pad.has(k) && #[trigger] key_button(k) == Some(button);
        let i = choose|i: int| 0 <= i < key_order().len() && key_order()[i] == k;
        broadcast use vstd::seq_lib::group_filter_ensures;
        assert(keys.contains(k));
        let j = choose|j: int| 0 <= j < keys.len() && keys[j] == k;
        assert(events[j] == ev);
    }
}

/// Every event that a frame produces is for the single 3DS gamepad.
pub proof fn lemma_frame_events_on_one_gamepad(down: KeyPad, held: KeyPad, up: KeyPad)
    ensures
        forall|i: int|
            0 <= i < frame_events(down, held, up).len() ==> (#[trigger] frame_events(
                down,
                held,
                up,
            )[i]).gamepad == GAMEPAD,
{
    let a = events_of(down, ButtonValue::Pressed);
    let b = events_of(held, ButtonValue::Pressed);
    let c = events_of(up, ButtonValue::Released);
    assert forall|i: int| 0 <= i < frame_events(down, held, up).len() implies (
    #[trigger] frame_events(down, held, up)[i]).gamepad == GAMEPAD by {
        if i < a.len() {
        } else if i < a.len() + b.len() {
            assert(frame_events(down, held, up)[i] == b[i - a.len()]);
        } else {
            assert(frame_events(down, held, up)[i] == c[i - a.len() - b.len()]);
        }
    }
}

/// A frame reports a button as pressed exactly when a key standing for it went
/// down or is held, and as released exactly when such a key went up.
pub proof fn lemma_frame_events_report_keys(
    down: KeyPad,
    held: KeyPad,
    up: KeyPad,
    button: GamepadButton,
    value: ButtonValue,
)
    ensures
        frame_events(down, held, up).contains(GamepadButtonEvent { gamepad: GAMEPAD, button, value })
            <==> exists|k: KeyPad|
            key_order().contains(k) && #[trigger] key_button(k) == Some(button) && (match value {
                ButtonValue::Pressed => down.has(k) || held.has(k),
                ButtonValue::Released => up.has(k),
            }),
{
    let ev = GamepadButtonEvent { gamepad: GAMEPAD, button, value };
    let a = events_of(down, ButtonValue::Pressed);
    let b = events_of(held, ButtonValue::Pressed);
    let c = events_of(up, ButtonValue::Released);
    lemma_concat_contains(a + b, c, ev);
    lemma_concat_contains(a, b, ev);
    lemma_events_of_contains(down, ButtonValue::Pressed, button, value);
    lemma_events_of_contains(held, ButtonValue::Pressed, button, value);
    lemma_events_of_contains(up, ButtonValue::Released, button, value);
}

/// A key pad value stands for a button exactly when it is one of the reported
/// keys, and no two reported keys stand for the same button.
pub proof fn lemma_key_buttons_distinct(k1: KeyPad, k2: KeyPad)
    ensures
        key_button(k1) is Some <==> key_order().contains(k1),
        key_button(k1) is Some && key_button(k1) == key_button(k2) ==> k1 == k2,
{
    if key_button(k1) is Some {
        let b = k1.bits;
        let i: int = if b == KEY_A { 0 } else if b == KEY_B { 1 } else if b == KEY_DDOWN { 2 } else if b
            == KEY_DLEFT { 3 } else if b == KEY_DRIGHT { 4 } else if b == KEY_DUP { 5 } else if b
            == KEY_L { 6 } else if b == KEY_R { 7 } else if b == KEY_SELECT { 8 } else if b
            == KEY_START { 9 } else if b == KEY_X { 10 } else if b == KEY_Y { 11 } else if b
            == KEY_ZL { 12 } else { 13 };
        assert(key_order()[i] == k1);
    }
    lemma_order_keys_have_buttons();
}

/// The place of a button in the order in which the key pad keys are reported:
/// A (east), B (south), the D-pad down, left, right and up, L, R, Select,
/// Start, X (north), Y (west), ZL and ZR.
pub open spec fn report_rank(b: GamepadButton) -> int {
    match b {
        GamepadButton::East => 0,
        GamepadButton::South => 1,
        GamepadButton::DPadDown => 2,
        GamepadButton::DPadLeft => 3,
        GamepadButton::DPadRight => 4,
        GamepadButton::DPadUp => 5,
        GamepadButton::LeftTrigger => 6,
        GamepadButton::RightTrigger => 7,
        GamepadButton::Select => 8,
        GamepadButton::Start => 9,
        GamepadButton::North => 10,
        GamepadButton::West => 11,
        GamepadButton::LeftTrigger2 => 12,
        GamepadButton::RightTrigger2 => 13,
        _ => 14,
    }
}

/// Keeping some items of a sequence that rises under `f` gives a sequence
/// that rises under `f`.
proof fn lemma_filter_rising<A>(s: Seq<A>, p: spec_fn(A) -> bool, f: spec_fn(A) -> int)
    requires
        forall|i: int, j: int| 0 <= i < j < s.len() ==> f(s[i]) < f(s[j]),
    ensures
        forall|i: int, j: int|
            0 <= i < j < s.filter(p).len() ==> f(s.filter(p)[i]) < f(s.filter(p)[j]),
    decreases s.len(),
{
    reveal(Seq::filter);
    if s.len() > 0 {
        let s0 = s.drop_last();
        lemma_filter_rising(s0, p, f);
        let sub = s0.filter(p);
        if p(s.last()) {
            assert forall|k: int| 0 <= k < sub.len() implies f(sub[k]) < f(s.last()) by {
                assert(sub.contains(sub[k]));
                s0.lemma_filter_contains_rev(p, sub[k]);
                let m = choose|m: int| 0 <= m < s0.len() && s0[m] == sub[k];
                assert(s[m] == sub[k]);
            }
            assert(s.filter(p) == sub.push(s.last()));
        }
    }
}

/// The events of one key pad value come in key report order.
proof fn lemma_events_of_rising(pad: KeyPad, value: ButtonValue)
    ensures
        forall|i: int, j: int|
            0 <= i < j < events_of(pad, value).len() ==> report_rank(
                events_of(pad, value)[i].button,
            ) < report_rank(events_of(pad, value)[j].button),
        forall|i: int|
            0 <= i < events_of(pad, value).len() ==> (#[trigger] events_of(pad, value)[i]).value
                == value,
{
    let f = |k: KeyPad| report_rank(key_button(k).unwrap());
    let o = key_order();
    assert(f(o[0]) == 0 && f(o[1]) == 1 && f(o[2]) == 2 && f(o[3]) == 3 && f(o[4]) == 4 && f(o[5])
        == 5 && f(o[6]) == 6 && f(o[7]) == 7 && f(o[8]) == 8 && f(o[9]) == 9 && f(o[10]) == 10
        && f(o[11]) == 11 && f(o[12]) == 12 && f(o[13]) == 13);
    assert forall|i: int, j: int| 0 <= i < j < o.len() implies f(o[i]) < f(o[j]) by {
        assert(f(o[i]) == i && f(o[j]) == j);
    }
    lemma_filter_rising(o, |k: KeyPad| pad.has(k), f);
}

/// The events of a frame come in three groups, each in key report order: the
/// keys that went down, reported pressed; the keys that are held, reported
/// pressed; the keys that went up, reported released.
pub proof fn lemma_frame_events_in_report_order(down: KeyPad, held: KeyPad, up: KeyPad)
    ensures
        ({
            let ev = frame_events(down, held, up);
            let nd = keys_of(down).len() as int;
            let nh = keys_of(held).len() as int;
            let nu = keys_of(up).len() as int;
            &&& ev.len() == nd + nh + nu
            &&& forall|i: int| 0 <= i < nd + nh ==> (#[trigger] ev[i]).value == ButtonValue::Pressed
            &&& forall|i: int|
                nd + nh <= i < ev.len() ==> (#[trigger] ev[i]).value == ButtonValue::Released
            &&& forall|i: int, j: int|
                0 <= i < j < nd ==> report_rank(ev[i].button) < report_rank(ev[j].button)
            &&& forall|i: int, j: int|
                nd <= i < j < nd + nh ==> report_rank(ev[i].button) < report_rank(ev[j].button)
            &&& forall|i: int, j: int|
                nd + nh <= i < j < ev.len() ==> report_rank(ev[i].button) < report_rank(
                    ev[j].button,
                )
        }),
{
    let a = events_of(down, ButtonValue::Pressed);
    let b = events_of(held, ButtonValue::Pressed);
    let c = events_of(up, ButtonValue::Released);
    let ev = frame_events(down, held, up);
    lemma_events_of_rising(down, ButtonValue::Pressed);
    lemma_events_of_rising(held, ButtonValue::Pressed);
    lemma_events_of_rising(up, ButtonValue::Released);
    assert forall|i: int| 0 <= i < a.len() implies ev[i] == a[i] by {}
    assert forall|i: int| a.len() <= i < a.len() + b.len() implies ev[i] == b[i - a.len()] by {}
    assert forall|i: int| a.len() + b.len() <= i < ev.len() implies ev[i] == c[i - a.len()
        - b.len()] by {}
    assert forall|i: int, j: int| a.len() <= i < j < a.len() + b.len() implies report_rank(
        ev[i].button,
    ) < report_rank(ev[j].button) by {
        assert(ev[i] == b[i - a.len()] && ev[j] == b[j - a.len()]);
    }
    assert forall|i: int, j: int| a.len() + b.len() <= i < j < ev.len() implies report_rank(
        ev[i].button,
    ) < report_rank(ev[j].button) by {
        assert(ev[i] == c[i - a.len() - b.len()] && ev[j] == c[j - a.len() - b.len()]);
    }
    assert forall|i: int| 0 <= i < a.len() + b.len() implies (#[trigger] ev[i]).value
        == ButtonValue::Pressed by {
        if i >= a.len() {
            assert(ev[i] == b[i - a.len()]);
        }
    }
    assert forall|i: int| a.len() + b.len() <= i < ev.len() implies (#[trigger] ev[i]).value
        == ButtonValue::Released by {
        assert(ev[i] == c[i - a.len() - b.len()]);
    }
}

/// Appends to `events` one event per pressed key of `key_pad`, with `value`.
fn push_key_events(events: &mut Vec<GamepadButtonEvent>, key_pad: KeyPad, value: ButtonValue)
    ensures
        final(events)@ == old(events)@ + events_of(key_pad, value),
{
    let keys = for_each_key(key_pad);
    let ghost start = events@;
    proof {
        lemma_keys_of_have_buttons(key_pad);
    }
    let n = keys.len();
    for i in 0..n
        invariant
            n == keys@.len(),
            keys@ == keys_of(key_pad),
            forall|j: int| 0 <= j < keys@.len() ==> key_button(#[trigger] keys@[j]) is Some,
            events@ == start + keys@.take(i as int).map_values(|k: KeyPad| key_event(k, value)),
    {
        let key = keys[i];
        assert(keys@.take(i + 1) =~= keys@.take(i as int).push(key));
        assert(keys@.take(i + 1).map_values(|k: KeyPad| key_event(k, value)) =~= keys@.take(
            i as int,
        ).map_values(|k: KeyPad| key_event(k, value)).push(key_event(key, value)));
        if let Some(button) = convert_key(key) {
            events.push(GamepadButtonEvent { gamepad: GAMEPAD, button, value });
        }
    }
    assert(keys@.take(n as int) =~= keys@);
}

/// The gamepad events of one frame: each reported key that went down or is
/// held is sent as pressed, each one that went up as released, in that order.
pub fn update_state(keys_down: KeyPad, keys_held: KeyPad, keys_up: KeyPad) -> (events: Vec<
    GamepadButtonEvent,
>)
    ensures
        events@ == frame_events(keys_down, keys_held, keys_up),
{
    let mut events: Vec<GamepadButtonEvent> = Vec::new();
    push_key_events(&mut events, keys_down, ButtonValue::Pressed);
    push_key_events(&mut events, keys_held, ButtonValue::Pressed);
    push_key_events(&mut events, keys_up, ButtonValue::Released);
    assert(events@ =~= frame_events(keys_down, keys_held, keys_up));
    events
}

} // verus!
