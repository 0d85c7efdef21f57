//! Input handling for the 3DS. The device is treated as a single gamepad and
//! its key pad state is turned into gamepad button events.
use vstd::prelude::*;

pub mod button;

verus! {

/// There is only one "gamepad" on the 3DS, so its ID is always zero.
pub const GAMEPAD: usize = 0;

/// The state of the 3DS key pad: one bit per key.
#[derive(Clone, Copy, Debug, PartialEq, Eq, Structural)]
pub struct KeyPad {
    pub bits: u32,
}

pub const KEY_A: u32 = 0x1;
pub const KEY_B: u32 = 0x2;
pub const KEY_SELECT: u32 = 0x4;
pub const KEY_START: u32 = 0x8;
pub const KEY_DRIGHT: u32 = 0x10;
pub const KEY_DLEFT: u32 = 0x20;
pub const KEY_DUP: u32 = 0x40;
pub const KEY_DDOWN: u32 = 0x80;
pub const KEY_R: u32 = 0x100;
pub const KEY_L: u32 = 0x200;
pub const KEY_X: u32 = 0x400;
pub const KEY_Y: u32 = 0x800;
pub const KEY_ZL: u32 = 0x4000;
pub const KEY_ZR: u32 = 0x8000;

/// The buttons of a gamepad.
#[derive(Clone, Copy, Debug, PartialEq, Eq, Structural)]
pub enum GamepadButton {
    South,
    East,
    North,
    West,
    C,
    Z,
    LeftTrigger,
    LeftTrigger2,
    RightTrigger,
    RightTrigger2,
    Select,
    Start,
    Mode,
    LeftThumb,
    RightThumb,
    DPadUp,
    DPadDown,
    DPadLeft,
    DPadRight,
    Other(u8),
}

/// The value a button event reports. The key pad is not analog, so a button
/// is either fully pressed or released.
#[derive(Clone, Copy, Debug, PartialEq, Eq, Structural)]
pub enum ButtonValue {
    Pressed,
    Released,
}

/// A change of a button of a gamepad.
#[derive(Clone, Copy, Debug, PartialEq, Eq, Structural)]
pub struct GamepadButtonEvent {
    pub gamepad: usize,
    pub button: GamepadButton,
    pub value: ButtonValue,
}

/// The event that announces the 3DS gamepad.
pub struct GamepadConnection {
    pub gamepad: usize,
    pub name: String,
}

/// The announcement sent at startup: the single 3DS gamepad is connected, under
/// the name "3DS Gamepad".
pub fn gamepad_startup_system() -> (connection: GamepadConnection)
    ensures
        connection.gamepad == GAMEPAD,
        connection.name@ == "3DS Gamepad"@,
{
    let mut name = String::new();
    name.append("3DS Gamepad");
    GamepadConnection { gamepad: GAMEPAD, name }
}

impl KeyPad {
    /// Every key of `key` is set in `self`.
    pub open spec fn has(self, key: KeyPad) -> bool {
        self.bits & key.bits == key.bits
    }

    pub fn from_bits(bits: u32) -> (pad: KeyPad)
        ensures
            pad.bits == bits,
    {
        KeyPad { bits }
    }

    /// Whether every key of `key` is pressed in `self`.
    pub fn contains(&self, key: KeyPad) -> (r: bool)
        ensures
            r == self.has(key),
    {
        self.bits & key.bits == key.bits
    }
}

} // verus!
