//! The sixteen-key pad: host keys, the events the host reports, and the latch
//! that remembers which key is down.

use vstd::prelude::*;

verus! {

/// The keys of the host keyboard that matter to the machine. The block
/// `1234 / QWER / ASDF / ZXCV` stands for the pad; `Other` is any key that
/// has no meaning here.
#[derive(Debug, Clone, Copy, PartialEq, Eq, Structural)]
pub enum HostKey {
    Escape,
    Num1,
    Num2,
    Num3,
    Num4,
    Q,
    W,
    E,
    R,
    A,
    S,
    D,
    F,
    Z,
    X,
    C,
    V,
    Other,
}

/// What the host saw happen.
#[derive(Debug, Clone, Copy, PartialEq, Eq, Structural)]
pub enum InputEvent {
    /// The user asked for the run to end.
    Quit,
    /// A key went down.
    KeyDown(HostKey),
    /// A key came up.
    KeyUp(HostKey),
    /// Anything else.
    Other,
}

/// What became of an event.
#[derive(Debug, Clone, Copy, PartialEq, Eq, Structural)]
pub enum MetaInputs {
    /// The event changed the key latch.
    PressedInput,
    /// There was no event, or none that concerns the machine.
    Pass,
    /// The host should end the run.
    Quit,
}

/// The pad, row by row: `1 2 3 C / 4 5 6 D / 7 8 9 E / A 0 B F`.
pub open spec fn keypad_layout() -> Seq<u8> {
    seq![0x1u8, 0x2, 0x3, 0xC, 0x4, 0x5, 0x6, 0xD, 0x7, 0x8, 0x9, 0xE, 0xA, 0x0, 0xB, 0xF]
}

/// Where on the 4 by 4 block of the host keyboard a key lies, counting along
/// the rows from the top left; `None` for a key outside the block.
pub open spec fn key_position(key: HostKey) -> Option<int> {
    match key {
        HostKey::Num1 => Some(0),
        HostKey::Num2 => Some(1),
        HostKey::Num3 => Some(2),
        HostKey::Num4 => Some(3),
        HostKey::Q => Some(4),
        HostKey::W => Some(5),
        HostKey::E => Some(6),
        HostKey::R => Some(7),
        HostKey::A => Some(8),
        HostKey::S => Some(9),
        HostKey::D => Some(10),
        HostKey::F => Some(11),
        HostKey::Z => Some(12),
        HostKey::X => Some(13),
        HostKey::C => Some(14),
        HostKey::V => Some(15),
        HostKey::Escape | HostKey::Other => None,
    }
}

/// The pad code of a host key: the entry of the layout at the key's position.
pub open spec fn spec_keypad_code(key: HostKey) -> Option<u8> {
    match key_position(key) {
        Some(p) => Some(keypad_layout()[p]),
        None => None,
    }
}

/// The pad code that a host key stands for, if it stands for one.
pub fn keypad_code(key: HostKey) -> (code: Option<u8>)
    ensures
        code == spec_keypad_code(key),
        code matches Some(c) ==> c < 16,
{
    match key {
        HostKey::Num1 => Some(0x1),
        HostKey::Num2 => Some(0x2),
        HostKey::Num3 => Some(0x3),
        HostKey::Num4 => Some(0xC),
        HostKey::Q => Some(0x4),
        HostKey::W => Some(0x5),
        HostKey::E => Some(0x6),
        HostKey::R => Some(0xD),
        HostKey::A => Some(0x7),
        HostKey::S => Some(0x8),
        HostKey::D => Some(0x9),
        HostKey::F => Some(0xE),
        HostKey::Z => Some(0xA),
        HostKey::X => Some(0x0),
        HostKey::C => Some(0xB),
        HostKey::V => Some(0xF),
        HostKey::Escape | HostKey::Other => None,
    }
}

/// Remembers the pad key most lately seen to go down, until a key comes up.
/// Its view is that key's code, or `None` while no key is held.
#[derive(Debug)]
pub struct InputLatch {
    current: Option<u8>,
}

impl View for InputLatch {
    type V = Option<u8>;

    closed spec fn view(&self) -> Option<u8> {
        self.current
    }
}

/// A latch state is valid if the code it holds names one of the sixteen keys.
pub open spec fn valid_key(key: Option<u8>) -> bool {
    key matches Some(c) ==> c < 16
}

impl InputLatch {
    #[verifier::type_invariant]
    spec fn inv(self) -> bool {
        valid_key(self.current)
    }

    /// A latch with no key held.
    pub fn new() -> (latch: InputLatch)
        ensures
            latch@ == None::<u8>,
    {
        InputLatch { current: None }
    }

    /// Records that pad key `code` went down.
    pub fn key_down(&mut self, code: u8)
        requires
            code < 16,
        ensures
            final(self)@ == Some(code),
    {
        self.current = Some(code);
    }

    /// Records that a pad key came up: the latch is emptied, whichever key
    /// it held.
    pub fn key_up(&mut self, code: u8)
        ensures
            final(self)@ == None::<u8>,
    {
        self.current = None;
    }

    /// The key held, if any.
    pub fn current_key(&self) -> (key: Option<u8>)
        ensures
            key == self@,
            valid_key(key),
    {
        proof {
            use_type_invariant(self);
        }
        self.current
    }
}

} // verus!
