use vstd::prelude::*;

verus! {

/// The closed set of logical keys this library recognizes. Each variant
/// stands for exactly one raw hardware virtual-key code; the mapping in
/// both directions is given by [`KeyCode::raw_spec`] and [`KeyCode::from_raw`].
#[derive(Debug, Eq, PartialEq, Hash, Copy, Clone, Structural)]
pub enum KeyCode {
    Backspace,
    Tab,
    Return,
    Shift,
    Control,
    Alt,
    CapsLock,
    Escape,
    Space,
    PageUp,
    PageDown,
    End,
    Home,
    Left,
    Up,
    Right,
    Down,
    Insert,
    Delete,
    Digit0,
    Digit1,
    Digit2,
    Digit3,
    Digit4,
    Digit5,
    Digit6,
    Digit7,
    Digit8,
    Digit9,
    A,
    B,
    C,
    D,
    E,
    F,
    G,
    H,
    I,
    J,
    K,
    L,
    M,
    N,
    O,
    P,
    Q,
    R,
    S,
    T,
    U,
    V,
    W,
    X,
    Y,
    Z,
    NumPad0,
    NumPad1,
    NumPad2,
    NumPad3,
    NumPad4,
    NumPad5,
    NumPad6,
    NumPad7,
    NumPad8,
    NumPad9,
    F1,
    F2,
    F3,
    F4,
    F5,
    F6,
    F7,
    F8,
    F9,
    F10,
    F11,
    F12,
}

impl KeyCode {
    /// The raw hardware code that this logical key stands for.
    pub open spec fn raw_spec(self) -> u8 {
        match self {
            KeyCode::Backspace => 0x08,
            KeyCode::Tab => 0x09,
            KeyCode::Return => 0x0d,
            KeyCode::Shift => 0x10,
            KeyCode::Control => 0x11,
            KeyCode::Alt => 0x12,
            KeyCode::CapsLock => 0x14,
            KeyCode::Escape => 0x1b,
            KeyCode::Space => 0x20,
            KeyCode::PageUp => 0x21,
            KeyCode::PageDown => 0x22,
            KeyCode::End => 0x23,
            KeyCode::Home => 0x24,
            KeyCode::Left => 0x25,
            KeyCode::Up => 0x26,
            KeyCode::Right => 0x27,
            KeyCode::Down => 0x28,
            KeyCode::Insert => 0x2d,
            KeyCode::Delete => 0x2e,
            KeyCode::Digit0 => 0x30,
            KeyCode::Digit1 => 0x31,
            KeyCode::Digit2 => 0x32,
            KeyCode::Digit3 => 0x33,
            KeyCode::Digit4 => 0x34,
            KeyCode::Digit5 => 0x35,
            KeyCode::Digit6 => 0x36,
            KeyCode::Digit7 => 0x37,
            KeyCode::Digit8 => 0x38,
            KeyCode::Digit9 => 0x39,
            KeyCode::A => 0x41,
            KeyCode::B => 0x42,
            KeyCode::C => 0x43,
            KeyCode::D => 0x44,
            KeyCode::E => 0x45,
            KeyCode::F => 0x46,
            KeyCode::G => 0x47,
            KeyCode::H => 0x48,
            KeyCode::I => 0x49,
            KeyCode::J => 0x4a,
            KeyCode::K => 0x4b,
            KeyCode::L => 0x4c,
            KeyCode::M => 0x4d,
            KeyCode::N => 0x4e,
            KeyCode::O => 0x4f,
            KeyCode::P => 0x50,
            KeyCode::Q => 0x51,
            KeyCode::R => 0x52,
            KeyCode::S => 0x53,
            KeyCode::T => 0x54,
            KeyCode::U => 0x55,
            KeyCode::V => 0x56,
            KeyCode::W => 0x57,
            KeyCode::X => 0x58,
            KeyCode::Y => 0x59,
            KeyCode::Z => 0x5a,
            KeyCode::NumPad0 => 0x60,
            KeyCode::NumPad1 => 0x61,
            KeyCode::NumPad2 => 0x62,
            KeyCode::NumPad3 => 0x63,
            KeyCode::NumPad4 => 0x64,
            KeyCode::NumPad5 => 0x65,
            KeyCode::NumPad6 => 0x66,
            KeyCode::NumPad7 => 0x67,
            KeyCode::NumPad8 => 0x68,
            KeyCode::NumPad9 => 0x69,
            KeyCode::F1 => 0x70,
            KeyCode::F2 => 0x71,
            KeyCode::F3 => 0x72,
            KeyCode::F4 => 0x73,
            KeyCode::F5 => 0x74,
            KeyCode::F6 => 0x75,
            KeyCode::F7 => 0x76,
            KeyCode::F8 => 0x77,
            KeyCode::F9 => 0x78,
            KeyCode::F10 => 0x79,
            KeyCode::F11 => 0x7a,
            KeyCode::F12 => 0x7b,
        }
    }

    /// Executable form of [`KeyCode::raw_spec`].
    pub fn raw_value(self) -> (r: u8)
        ensures
            r == self.raw_spec(),
    {
        match self {
            KeyCode::Backspace => 0x08,
            KeyCode::Tab => 0x09,
            KeyCode::Return => 0x0d,
            KeyCode::Shift => 0x10,
            KeyCode::Control => 0x11,
            KeyCode::Alt => 0x12,
            KeyCode::CapsLock => 0x14,
            KeyCode::Escape => 0x1b,
            KeyCode::Space => 0x20,
            KeyCode::PageUp => 0x21,
            KeyCode::PageDown => 0x22,
            KeyCode::End => 0x23,
            KeyCode::Home => 0x24,
            KeyCode::Left => 0x25,
            KeyCode::Up => 0x26,
            KeyCode::Right => 0x27,
            KeyCode::Down => 0x28,
            KeyCode::Insert => 0x2d,
            KeyCode::Delete => 0x2e,
            KeyCode::Digit0 => 0x30,
            KeyCode::Digit1 => 0x31,
            KeyCode::Digit2 => 0x32,
            KeyCode::Digit3 => 0x33,
            KeyCode::Digit4 => 0x34,
            KeyCode::Digit5 => 0x35,
            KeyCode::Digit6 => 0x36,
            KeyCode::Digit7 => 0x37,
            KeyCode::Digit8 => 0x38,
            KeyCode::Digit9 => 0x39,
            KeyCode::A => 0x41,
            KeyCode::B => 0x42,
            KeyCode::C => 0x43,
            KeyCode::D => 0x44,
            KeyCode::E => 0x45,
            KeyCode::F => 0x46,
            KeyCode::G => 0x47,
            KeyCode::H => 0x48,
            KeyCode::I => 0x49,
            KeyCode::J => 0x4a,
            KeyCode::K => 0x4b,
            KeyCode::L => 0x4c,
            KeyCode::M => 0x4d,
            KeyCode::N => 0x4e,
            KeyCode::O => 0x4f,
            KeyCode::P => 0x50,
            KeyCode::Q => 0x51,
            KeyCode::R => 0x52,
            KeyCode::S => 0x53,
            KeyCode::T => 0x54,
            KeyCode::U => 0x55,
            KeyCode::V => 0x56,
            KeyCode::W => 0x57,
            KeyCode::X => 0x58,
            KeyCode::Y => 0x59,
            KeyCode::Z => 0x5a,
            KeyCode::NumPad0 => 0x60,
            KeyCode::NumPad1 => 0x61,
            KeyCode::NumPad2 => 0x62,
            KeyCode::NumPad3 => 0x63,
            KeyCode::NumPad4 => 0x64,
            KeyCode::NumPad5 => 0x65,
            KeyCode::NumPad6 => 0x66,
            KeyCode::NumPad7 => 0x67,
            KeyCode::NumPad8 => 0x68,
            KeyCode::NumPad9 => 0x69,
            KeyCode::F1 => 0x70,
            KeyCode::F2 => 0x71,
            KeyCode::F3 => 0x72,
            KeyCode::F4 => 0x73,
            KeyCode::F5 => 0x74,
            KeyCode::F6 => 0x75,
            KeyCode::F7 => 0x76,
            KeyCode::F8 => 0x77,
            KeyCode::F9 => 0x78,
            KeyCode::F10 => 0x79,
            KeyCode::F11 => 0x7a,
            KeyCode::F12 => 0x7b,
        }
    }

    /// Checked, partial conversion from a raw hardware code: a raw value
    /// outside the recognized set yields `None` rather than an arbitrary key.
    pub fn from_raw(raw: u8) -> (r: Option<KeyCode>)
        ensures
            r matches Some(k) ==> k.raw_spec() == raw,
            r is None ==> forall|k: KeyCode| k.raw_spec() != raw,
    {
        match raw {
            0x08 => Some(KeyCode::Backspace),
            0x09 => Some(KeyCode::Tab),
            0x0d => Some(KeyCode::Return),
            0x10 => Some(KeyCode::Shift),
            0x11 => Some(KeyCode::Control),
            0x12 => Some(KeyCode::Alt),
            0x14 => Some(KeyCode::CapsLock),
            0x1b => Some(KeyCode::Escape),
            0x20 => Some(KeyCode::Space),
            0x21 => Some(KeyCode::PageUp),
            0x22 => Some(KeyCode::PageDown),
            0x23 => Some(KeyCode::End),
            0x24 => Some(KeyCode::Home),
            0x25 => Some(KeyCode::Left),
            0x26 => Some(KeyCode::Up),
            0x27 => Some(KeyCode::Right),
            0x28 => Some(KeyCode::Down),
            0x2d => Some(KeyCode::Insert),
            0x2e => Some(KeyCode::Delete),
            0x30 => Some(KeyCode::Digit0),
            0x31 => Some(KeyCode::Digit1),
            0x32 => Some(KeyCode::Digit2),
            0x33 => Some(KeyCode::Digit3),
            0x34 => Some(KeyCode::Digit4),
            0x35 => Some(KeyCode::Digit5),
            0x36 => Some(KeyCode::Digit6),
            0x37 => Some(KeyCode::Digit7),
            0x38 => Some(KeyCode::Digit8),
            0x39 => Some(KeyCode::Digit9),
            0x41 => Some(KeyCode::A),
            0x42 => Some(KeyCode::B),
            0x43 => Some(KeyCode::C),
            0x44 => Some(KeyCode::D),
            0x45 => Some(KeyCode::E),
            0x46 => Some(KeyCode::F),
            0x47 => Some(KeyCode::G),
            0x48 => Some(KeyCode::H),
            0x49 => Some(KeyCode::I),
            0x4a => Some(KeyCode::J),
            0x4b => Some(KeyCode::K),
            0x4c => Some(KeyCode::L),
            0x4d => Some(KeyCode::M),
            0x4e => Some(KeyCode::N),
            0x4f => Some(KeyCode::O),
            0x50 => Some(KeyCode::P),
            0x51 => Some(KeyCode::Q),
            0x52 => Some(KeyCode::R),
            0x53 => Some(KeyCode::S),
            0x54 => Some(KeyCode::T),
            0x55 => Some(KeyCode::U),
            0x56 => Some(KeyCode::V),
            0x57 => Some(KeyCode::W),
            0x58 => Some(KeyCode::X),
            0x59 => Some(KeyCode::Y),
            0x5a => Some(KeyCode::Z),
            0x60 => Some(KeyCode::NumPad0),
            0x61 => Some(KeyCode::NumPad1),
            0x62 => Some(KeyCode::NumPad2),
            0x63 => Some(KeyCode::NumPad3),
            0x64 => Some(KeyCode::NumPad4),
            0x65 => Some(KeyCode::NumPad5),
            0x66 => Some(KeyCode::NumPad6),
            0x67 => Some(KeyCode::NumPad7),
            0x68 => Some(KeyCode::NumPad8),
            0x69 => Some(KeyCode::NumPad9),
            0x70 => Some(KeyCode::F1),
            0x71 => Some(KeyCode::F2),
            0x72 => Some(KeyCode::F3),
            0x73 => Some(KeyCode::F4),
            0x74 => Some(KeyCode::F5),
            0x75 => Some(KeyCode::F6),
            0x76 => Some(KeyCode::F7),
            0x77 => Some(KeyCode::F8),
            0x78 => Some(KeyCode::F9),
            0x79 => Some(KeyCode::F10),
            0x7a => Some(KeyCode::F11),
            0x7b => Some(KeyCode::F12),
            _ => None,
        }
    }
}

/// No two logical keys share a raw hardware code: the mapping is 1:1.
pub proof fn lemma_raw_spec_injective(k1: KeyCode, k2: KeyCode)
    requires
        k1.raw_spec() == k2.raw_spec(),
    ensures
        k1 == k2,
{
}

/// Every recognized raw code fits strictly below the debounce table size.
pub proof fn lemma_raw_spec_bound(k: KeyCode)
    ensures
        k.raw_spec() < 255,
{
}

} // verus!
