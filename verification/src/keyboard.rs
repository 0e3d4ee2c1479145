use vstd::prelude::*;

use crate::strutil::str_eq;

verus! {

/// The modifier keys a shortcut can ask to be held.
#[derive(Clone, Copy, Debug, PartialEq, Eq, Structural, Default)]
pub struct Modifiers {
    pub ctrl: bool,
    pub meta: bool,
    pub alt: bool,
    pub shift: bool,
}

impl Modifiers {
    /// No modifier held.
    pub fn none() -> (r: Self)
        ensures
            r == (Modifiers { ctrl: false, meta: false, alt: false, shift: false }),
    {
        Modifiers { ctrl: false, meta: false, alt: false, shift: false }
    }

    /// Both sets of modifiers together.
    pub open spec fn union_spec(self, m: Modifiers) -> Modifiers {
        Modifiers {
            ctrl: self.ctrl || m.ctrl,
            meta: self.meta || m.meta,
            alt: self.alt || m.alt,
            shift: self.shift || m.shift,
        }
    }

    pub fn union(self, m: Modifiers) -> (r: Modifiers)
        ensures
            r == self.union_spec(m),
    {
        Modifiers {
            ctrl: self.ctrl || m.ctrl,
            meta: self.meta || m.meta,
            alt: self.alt || m.alt,
            shift: self.shift || m.shift,
        }
    }

    pub fn with_ctrl() -> (r: Self)
        ensures
            r == (Modifiers { ctrl: true, meta: false, alt: false, shift: false }),
    {
        Modifiers { ctrl: true, meta: false, alt: false, shift: false }
    }

    pub fn with_meta() -> (r: Self)
        ensures
            r == (Modifiers { ctrl: false, meta: true, alt: false, shift: false }),
    {
        Modifiers { ctrl: false, meta: true, alt: false, shift: false }
    }

    pub fn with_alt() -> (r: Self)
        ensures
            r == (Modifiers { ctrl: false, meta: false, alt: true, shift: false }),
    {
        Modifiers { ctrl: false, meta: false, alt: true, shift: false }
    }

    pub fn with_shift() -> (r: Self)
        ensures
            r == (Modifiers { ctrl: false, meta: false, alt: false, shift: true }),
    {
        Modifiers { ctrl: false, meta: false, alt: false, shift: true }
    }
}

pub open spec fn modifier_or_spec(modifier: Option<Modifiers>, m: Modifiers) -> Option<Modifiers> {
    match modifier {
        Some(v) => Some(v.union_spec(m)),
        None => Some(m),
    }
}

/// Adds a modifier into an accumulator that starts out absent.
pub fn modifier_or(modifier: Option<Modifiers>, m: Modifiers) -> (r: Option<Modifiers>)
    ensures
        r == modifier_or_spec(modifier, m),
{
    match modifier {
        Some(v) => Some(v.union(m)),
        None => Some(m),
    }
}

/// The textual form of the meta modifier on this host.
pub fn meta_str() -> (r: &'static str)
    ensures
        r@ == "Win+"@,
{
    "Win+"
}

/// The keys a shortcut can name.
#[derive(Clone, Copy, Debug, PartialEq, Eq, Structural)]
pub enum Code {

    ArrowDown,
    ArrowLeft,
    ArrowRight,
    ArrowUp,
    Escape,
    Tab,
    Backspace,
    Enter,
    Space,
    Insert,
    Delete,
    Home,
    End,
    PageUp,
    PageDown,
    Minus,
    Equal,
    Digit0,
    Digit1,
    Digit2,
    Digit3,
    Digit4,
    Digit5,
    Digit6,
    Digit7,
    Digit8,
    Digit9,
    KeyA,
    KeyB,
    KeyC,
    KeyD,
    KeyE,
    KeyF,
    KeyG,
    KeyH,
    KeyI,
    KeyJ,
    KeyK,
    KeyL,
    KeyM,
    KeyN,
    KeyO,
    KeyP,
    KeyQ,
    KeyR,
    KeyS,
    KeyT,
    KeyU,
    KeyV,
    KeyW,
    KeyX,
    KeyY,
    KeyZ,
    F1,
    F2,
    F3,
    F4,
    F5,
    F6,
    F7,
    F8,
    F9,
    F10,
    F11,
    F12,
    F13,
    F14,
    F15,
    F16,
    F17,
    F18,
    F19,
    F20,
}

pub open spec fn key_str_spec(key: Code) -> Seq<char> {
    match key {
        Code::ArrowDown => "Down"@,
        Code::ArrowLeft => "Left"@,
        Code::ArrowRight => "Right"@,
        Code::ArrowUp => "Up"@,
        Code::Escape => "Escape"@,
        Code::Tab => "Tab"@,
        Code::Backspace => "Backspace"@,
        Code::Enter => "Enter"@,
        Code::Space => "Space"@,
        Code::Insert => "Insert"@,
        Code::Delete => "Delete"@,
        Code::Home => "Home"@,
        Code::End => "End"@,
        Code::PageUp => "PageUp"@,
        Code::PageDown => "PageDown"@,
        Code::Minus => "Minus"@,
        Code::Equal => "Plus"@,
        Code::Digit0 => "0"@,
        Code::Digit1 => "1"@,
        Code::Digit2 => "2"@,
        Code::Digit3 => "3"@,
        Code::Digit4 => "4"@,
        Code::Digit5 => "5"@,
        Code::Digit6 => "6"@,
        Code::Digit7 => "7"@,
        Code::Digit8 => "8"@,
        Code::Digit9 => "9"@,
        Code::KeyA => "A"@,
        Code::KeyB => "B"@,
        Code::KeyC => "C"@,
        Code::KeyD => "D"@,
        Code::KeyE => "E"@,
        Code::KeyF => "F"@,
        Code::KeyG => "G"@,
        Code::KeyH => "H"@,
        Code::KeyI => "I"@,
        Code::KeyJ => "J"@,
        Code::KeyK => "K"@,
        Code::KeyL => "L"@,
        Code::KeyM => "M"@,
        Code::KeyN => "N"@,
        Code::KeyO => "O"@,
        Code::KeyP => "P"@,
        Code::KeyQ => "Q"@,
        Code::KeyR => "R"@,
        Code::KeyS => "S"@,
        Code::KeyT => "T"@,
        Code::KeyU => "U"@,
        Code::KeyV => "V"@,
        Code::KeyW => "W"@,
        Code::KeyX => "X"@,
        Code::KeyY => "Y"@,
        Code::KeyZ => "Z"@,
        Code::F1 => "F1"@,
        Code::F2 => "F2"@,
        Code::F3 => "F3"@,
        Code::F4 => "F4"@,
        Code::F5 => "F5"@,
        Code::F6 => "F6"@,
        Code::F7 => "F7"@,
        Code::F8 => "F8"@,
        Code::F9 => "F9"@,
        Code::F10 => "F10"@,
        Code::F11 => "F11"@,
        Code::F12 => "F12"@,
        Code::F13 => "F13"@,
        Code::F14 => "F14"@,
        Code::F15 => "F15"@,
        Code::F16 => "F16"@,
        Code::F17 => "F17"@,
        Code::F18 => "F18"@,
        Code::F19 => "F19"@,
        Code::F20 => "F20"@,
    }
}

/// The textual name of a key.
pub fn key_to_str(key: Code) -> (r: &'static str)
    ensures
        r@ == key_str_spec(key),
{
    match key {
        Code::ArrowDown => "Down",
        Code::ArrowLeft => "Left",
        Code::ArrowRight => "Right",
        Code::ArrowUp => "Up",
        Code::Escape => "Escape",
        Code::Tab => "Tab",
        Code::Backspace => "Backspace",
        Code::Enter => "Enter",
        Code::Space => "Space",
        Code::Insert => "Insert",
        Code::Delete => "Delete",
        Code::Home => "Home",
        Code::End => "End",
        Code::PageUp => "PageUp",
        Code::PageDown => "PageDown",
        Code::Minus => "Minus",
        Code::Equal => "Plus",
        Code::Digit0 => "0",
        Code::Digit1 => "1",
        Code::Digit2 => "2",
        Code::Digit3 => "3",
        Code::Digit4 => "4",
        Code::Digit5 => "5",
        Code::Digit6 => "6",
        Code::Digit7 => "7",
        Code::Digit8 => "8",
        Code::Digit9 => "9",
        Code::KeyA => "A",
        Code::KeyB => "B",
        Code::KeyC => "C",
        Code::KeyD => "D",
        Code::KeyE => "E",
        Code::KeyF => "F",
        Code::KeyG => "G",
        Code::KeyH => "H",
        Code::KeyI => "I",
        Code::KeyJ => "J",
        Code::KeyK => "K",
        Code::KeyL => "L",
        Code::KeyM => "M",
        Code::KeyN => "N",
        Code::KeyO => "O",
        Code::KeyP => "P",
        Code::KeyQ => "Q",
        Code::KeyR => "R",
        Code::KeyS => "S",
        Code::KeyT => "T",
        Code::KeyU => "U",
        Code::KeyV => "V",
        Code::KeyW => "W",
        Code::KeyX => "X",
        Code::KeyY => "Y",
        Code::KeyZ => "Z",
        Code::F1 => "F1",
        Code::F2 => "F2",
        Code::F3 => "F3",
        Code::F4 => "F4",
        Code::F5 => "F5",
        Code::F6 => "F6",
        Code::F7 => "F7",
        Code::F8 => "F8",
        Code::F9 => "F9",
        Code::F10 => "F10",
        Code::F11 => "F11",
        Code::F12 => "F12",
        Code::F13 => "F13",
        Code::F14 => "F14",
        Code::F15 => "F15",
        Code::F16 => "F16",
        Code::F17 => "F17",
        Code::F18 => "F18",
        Code::F19 => "F19",
        Code::F20 => "F20",
    }
}

pub open spec fn str_to_key_spec(s: Seq<char>) -> Option<Code> {

    if s == "Down"@ {
        Some(Code::ArrowDown)
    } else if s == "Left"@ {
        Some(Code::ArrowLeft)
    } else if s == "Right"@ {
        Some(Code::ArrowRight)
    } else if s == "Up"@ {
        Some(Code::ArrowUp)
    } else if s == "Escape"@ {
        Some(Code::Escape)
    } else if s == "Tab"@ {
        Some(Code::Tab)
    } else if s == "Backspace"@ {
        Some(Code::Backspace)
    } else if s == "Enter"@ {
        Some(Code::Enter)
    } else if s == "Space"@ {
        Some(Code::Space)
    } else if s == "Insert"@ {
        Some(Code::Insert)
    } else if s == "Delete"@ {
        Some(Code::Delete)
    } else if s == "Home"@ {
        Some(Code::Home)
    } else if s == "End"@ {
        Some(Code::End)
    } else if s == "PageUp"@ {
        Some(Code::PageUp)
    } else if s == "PageDown"@ {
        Some(Code::PageDown)
    } else if s == "Minus"@ {
        Some(Code::Minus)
    } else if s == "Plus"@ {
        Some(Code::Equal)
    } else if s == "0"@ {
        Some(Code::Digit0)
    } else if s == "1"@ {
        Some(Code::Digit1)
    } else if s == "2"@ {
        Some(Code::Digit2)
    } else if s == "3"@ {
        Some(Code::Digit3)
    } else if s == "4"@ {
        Some(Code::Digit4)
    } else if s == "5"@ {
        Some(Code::Digit5)
    } else if s == "6"@ {
        Some(Code::Digit6)
    } else if s == "7"@ {
        Some(Code::Digit7)
    } else if s == "8"@ {
        Some(Code::Digit8)
    } else if s == "9"@ {
        Some(Code::Digit9)
    } else if s == "A"@ {
        Some(Code::KeyA)
    } else if s == "B"@ {
        Some(Code::KeyB)
    } else if s == "C"@ {
        Some(Code::KeyC)
    } else if s == "D"@ {
        Some(Code::KeyD)
    } else if s == "E"@ {
        Some(Code::KeyE)
    } else if s == "F"@ {
        Some(Code::KeyF)
    } else if s == "G"@ {
        Some(Code::KeyG)
    } else if s == "H"@ {
        Some(Code::KeyH)
    } else if s == "I"@ {
        Some(Code::KeyI)
    } else if s == "J"@ {
        Some(Code::KeyJ)
    } else if s == "K"@ {
        Some(Code::KeyK)
    } else if s == "L"@ {
        Some(Code::KeyL)
    } else if s == "M"@ {
        Some(Code::KeyM)
    } else if s == "N"@ {
        Some(Code::KeyN)
    } else if s == "O"@ {
        Some(Code::KeyO)
    } else if s == "P"@ {
        Some(Code::KeyP)
    } else if s == "Q"@ {
        Some(Code::KeyQ)
    } else if s == "R"@ {
        Some(Code::KeyR)
    } else if s == "S"@ {
        Some(Code::KeyS)
    } else if s == "T"@ {
        Some(Code::KeyT)
    } else if s == "U"@ {
        Some(Code::KeyU)
    } else if s == "V"@ {
        Some(Code::KeyV)
    } else if s == "W"@ {
        Some(Code::KeyW)
    } else if s == "X"@ {
        Some(Code::KeyX)
    } else if s == "Y"@ {
        Some(Code::KeyY)
    } else if s == "Z"@ {
        Some(Code::KeyZ)
    } else if s == "F1"@ {
        Some(Code::F1)
    } else if s == "F2"@ {
        Some(Code::F2)
    } else if s == "F3"@ {
        Some(Code::F3)
    } else if s == "F4"@ {
        Some(Code::F4)
    } else if s == "F5"@ {
        Some(Code::F5)
    } else if s == "F6"@ {
        Some(Code::F6)
    } else if s == "F7"@ {
        Some(Code::F7)
    } else if s == "F8"@ {
        Some(Code::F8)
    } else if s == "F9"@ {
        Some(Code::F9)
    } else if s == "F10"@ {
        Some(Code::F10)
    } else if s == "F11"@ {
        Some(Code::F11)
    } else if s == "F12"@ {
        Some(Code::F12)
    } else if s == "F13"@ {
        Some(Code::F13)
    } else if s == "F14"@ {
        Some(Code::F14)
    } else if s == "F15"@ {
        Some(Code::F15)
    } else if s == "F16"@ {
        Some(Code::F16)
    } else if s == "F17"@ {
        Some(Code::F17)
    } else if s == "F18"@ {
        Some(Code::F18)
    } else if s == "F19"@ {
        Some(Code::F19)
    } else if s == "F20"@ {
        Some(Code::F20)
    } else {
        None
    }
}

/// The key named by the given text, if any.
pub fn str_to_key(s: &str) -> (r: Option<Code>)
    ensures
        r == str_to_key_spec(s@),
{

    if str_eq(s, "Down") {
        Some(Code::ArrowDown)
    } else if str_eq(s, "Left") {
        Some(Code::ArrowLeft)
    } else if str_eq(s, "Right") {
        Some(Code::ArrowRight)
    } else if str_eq(s, "Up") {
        Some(Code::ArrowUp)
    } else if str_eq(s, "Escape") {
        Some(Code::Escape)
    } else if str_eq(s, "Tab") {
        Some(Code::Tab)
    } else if str_eq(s, "Backspace") {
        Some(Code::Backspace)
    } else if str_eq(s, "Enter") {
        Some(Code::Enter)
    } else if str_eq(s, "Space") {
        Some(Code::Space)
    } else if str_eq(s, "Insert") {
        Some(Code::Insert)
    } else if str_eq(s, "Delete") {
        Some(Code::Delete)
    } else if str_eq(s, "Home") {
        Some(Code::Home)
    } else if str_eq(s, "End") {
        Some(Code::End)
    } else if str_eq(s, "PageUp") {
        Some(Code::PageUp)
    } else if str_eq(s, "PageDown") {
        Some(Code::PageDown)
    } else if str_eq(s, "Minus") {
        Some(Code::Minus)
    } else if str_eq(s, "Plus") {
        Some(Code::Equal)
    } else if str_eq(s, "0") {
        Some(Code::Digit0)
    } else if str_eq(s, "1") {
        Some(Code::Digit1)
    } else if str_eq(s, "2") {
        Some(Code::Digit2)
    } else if str_eq(s, "3") {
        Some(Code::Digit3)
    } else if str_eq(s, "4") {
        Some(Code::Digit4)
    } else if str_eq(s, "5") {
        Some(Code::Digit5)
    } else if str_eq(s, "6") {
        Some(Code::Digit6)
    } else if str_eq(s, "7") {
        Some(Code::Digit7)
    } else if str_eq(s, "8") {
        Some(Code::Digit8)
    } else if str_eq(s, "9") {
        Some(Code::Digit9)
    } else if str_eq(s, "A") {
        Some(Code::KeyA)
    } else if str_eq(s, "B") {
        Some(Code::KeyB)
    } else if str_eq(s, "C") {
        Some(Code::KeyC)
    } else if str_eq(s, "D") {
        Some(Code::KeyD)
    } else if str_eq(s, "E") {
        Some(Code::KeyE)
    } else if str_eq(s, "F") {
        Some(Code::KeyF)
    } else if str_eq(s, "G") {
        Some(Code::KeyG)
    } else if str_eq(s, "H") {
        Some(Code::KeyH)
    } else if str_eq(s, "I") {
        Some(Code::KeyI)
    } else if str_eq(s, "J") {
        Some(Code::KeyJ)
    } else if str_eq(s, "K") {
        Some(Code::KeyK)
    } else if str_eq(s, "L") {
        Some(Code::KeyL)
    } else if str_eq(s, "M") {
        Some(Code::KeyM)
    } else if str_eq(s, "N") {
        Some(Code::KeyN)
    } else if str_eq(s, "O") {
        Some(Code::KeyO)
    } else if str_eq(s, "P") {
        Some(Code::KeyP)
    } else if str_eq(s, "Q") {
        Some(Code::KeyQ)
    } else if str_eq(s, "R") {
        Some(Code::KeyR)
    } else if str_eq(s, "S") {
        Some(Code::KeyS)
    } else if str_eq(s, "T") {
        Some(Code::KeyT)
    } else if str_eq(s, "U") {
        Some(Code::KeyU)
    } else if str_eq(s, "V") {
        Some(Code::KeyV)
    } else if str_eq(s, "W") {
        Some(Code::KeyW)
    } else if str_eq(s, "X") {
        Some(Code::KeyX)
    } else if str_eq(s, "Y") {
        Some(Code::KeyY)
    } else if str_eq(s, "Z") {
        Some(Code::KeyZ)
    } else if str_eq(s, "F1") {
        Some(Code::F1)
    } else if str_eq(s, "F2") {
        Some(Code::F2)
    } else if str_eq(s, "F3") {
        Some(Code::F3)
    } else if str_eq(s, "F4") {
        Some(Code::F4)
    } else if str_eq(s, "F5") {
        Some(Code::F5)
    } else if str_eq(s, "F6") {
        Some(Code::F6)
    } else if str_eq(s, "F7") {
        Some(Code::F7)
    } else if str_eq(s, "F8") {
        Some(Code::F8)
    } else if str_eq(s, "F9") {
        Some(Code::F9)
    } else if str_eq(s, "F10") {
        Some(Code::F10)
    } else if str_eq(s, "F11") {
        Some(Code::F11)
    } else if str_eq(s, "F12") {
        Some(Code::F12)
    } else if str_eq(s, "F13") {
        Some(Code::F13)
    } else if str_eq(s, "F14") {
        Some(Code::F14)
    } else if str_eq(s, "F15") {
        Some(Code::F15)
    } else if str_eq(s, "F16") {
        Some(Code::F16)
    } else if str_eq(s, "F17") {
        Some(Code::F17)
    } else if str_eq(s, "F18") {
        Some(Code::F18)
    } else if str_eq(s, "F19") {
        Some(Code::F19)
    } else if str_eq(s, "F20") {
        Some(Code::F20)
    } else {
        None
    }
}

pub open spec fn key_win_spec(key: Code) -> u16 {
    match key {
        Code::ArrowDown => 0x28u16,
        Code::ArrowLeft => 0x25u16,
        Code::ArrowRight => 0x27u16,
        Code::ArrowUp => 0x26u16,
        Code::Escape => 0x1bu16,
        Code::Tab => 0x09u16,
        Code::Backspace => 0x08u16,
        Code::Enter => 0x0du16,
        Code::Space => 0x20u16,
        Code::Insert => 0x2du16,
        Code::Delete => 0x2eu16,
        Code::Home => 0x24u16,
        Code::End => 0x23u16,
        Code::PageUp => 0x21u16,
        Code::PageDown => 0x22u16,
        Code::Minus => 0xbdu16,
        Code::Equal => 0xbbu16,
        Code::Digit0 => 0x30u16,
        Code::Digit1 => 0x31u16,
        Code::Digit2 => 0x32u16,
        Code::Digit3 => 0x33u16,
        Code::Digit4 => 0x34u16,
        Code::Digit5 => 0x35u16,
        Code::Digit6 => 0x36u16,
        Code::Digit7 => 0x37u16,
        Code::Digit8 => 0x38u16,
        Code::Digit9 => 0x39u16,
        Code::KeyA => 0x41u16,
        Code::KeyB => 0x42u16,
        Code::KeyC => 0x43u16,
        Code::KeyD => 0x44u16,
        Code::KeyE => 0x45u16,
        Code::KeyF => 0x46u16,
        Code::KeyG => 0x47u16,
        Code::KeyH => 0x48u16,
        Code::KeyI => 0x49u16,
        Code::KeyJ => 0x4au16,
        Code::KeyK => 0x4bu16,
        Code::KeyL => 0x4cu16,
        Code::KeyM => 0x4du16,
        Code::KeyN => 0x4eu16,
        Code::KeyO => 0x4fu16,
        Code::KeyP => 0x50u16,
        Code::KeyQ => 0x51u16,
        Code::KeyR => 0x52u16,
        Code::KeyS => 0x53u16,
        Code::KeyT => 0x54u16,
        Code::KeyU => 0x55u16,
        Code::KeyV => 0x56u16,
        Code::KeyW => 0x57u16,
        Code::KeyX => 0x58u16,
        Code::KeyY => 0x59u16,
        Code::KeyZ => 0x5au16,
        Code::F1 => 0x70u16,
        Code::F2 => 0x71u16,
        Code::F3 => 0x72u16,
        Code::F4 => 0x73u16,
        Code::F5 => 0x74u16,
        Code::F6 => 0x75u16,
        Code::F7 => 0x76u16,
        Code::F8 => 0x77u16,
        Code::F9 => 0x78u16,
        Code::F10 => 0x79u16,
        Code::F11 => 0x7au16,
        Code::F12 => 0x7bu16,
        Code::F13 => 0x7cu16,
        Code::F14 => 0x7du16,
        Code::F15 => 0x7eu16,
        Code::F16 => 0x7fu16,
        Code::F17 => 0x80u16,
        Code::F18 => 0x81u16,
        Code::F19 => 0x82u16,
        Code::F20 => 0x83u16,
    }
}

/// The host's virtual-key value for a key.
pub fn key_to_win(key: Code) -> (r: Option<u16>)
    ensures
        r == Some(key_win_spec(key)),
{
    match key {
        Code::ArrowDown => Some(0x28),
        Code::ArrowLeft => Some(0x25),
        Code::ArrowRight => Some(0x27),
        Code::ArrowUp => Some(0x26),
        Code::Escape => Some(0x1b),
        Code::Tab => Some(0x09),
        Code::Backspace => Some(0x08),
        Code::Enter => Some(0x0d),
        Code::Space => Some(0x20),
        Code::Insert => Some(0x2d),
        Code::Delete => Some(0x2e),
        Code::Home => Some(0x24),
        Code::End => Some(0x23),
        Code::PageUp => Some(0x21),
        Code::PageDown => Some(0x22),
        Code::Minus => Some(0xbd),
        Code::Equal => Some(0xbb),
        Code::Digit0 => Some(0x30),
        Code::Digit1 => Some(0x31),
        Code::Digit2 => Some(0x32),
        Code::Digit3 => Some(0x33),
        Code::Digit4 => Some(0x34),
        Code::Digit5 => Some(0x35),
        Code::Digit6 => Some(0x36),
        Code::Digit7 => Some(0x37),
        Code::Digit8 => Some(0x38),
        Code::Digit9 => Some(0x39),
        Code::KeyA => Some(0x41),
        Code::KeyB => Some(0x42),
        Code::KeyC => Some(0x43),
        Code::KeyD => Some(0x44),
        Code::KeyE => Some(0x45),
        Code::KeyF => Some(0x46),
        Code::KeyG => Some(0x47),
        Code::KeyH => Some(0x48),
        Code::KeyI => Some(0x49),
        Code::KeyJ => Some(0x4a),
        Code::KeyK => Some(0x4b),
        Code::KeyL => Some(0x4c),
        Code::KeyM => Some(0x4d),
        Code::KeyN => Some(0x4e),
        Code::KeyO => Some(0x4f),
        Code::KeyP => Some(0x50),
        Code::KeyQ => Some(0x51),
        Code::KeyR => Some(0x52),
        Code::KeyS => Some(0x53),
        Code::KeyT => Some(0x54),
        Code::KeyU => Some(0x55),
        Code::KeyV => Some(0x56),
        Code::KeyW => Some(0x57),
        Code::KeyX => Some(0x58),
        Code::KeyY => Some(0x59),
        Code::KeyZ => Some(0x5a),
        Code::F1 => Some(0x70),
        Code::F2 => Some(0x71),
        Code::F3 => Some(0x72),
        Code::F4 => Some(0x73),
        Code::F5 => Some(0x74),
        Code::F6 => Some(0x75),
        Code::F7 => Some(0x76),
        Code::F8 => Some(0x77),
        Code::F9 => Some(0x78),
        Code::F10 => Some(0x79),
        Code::F11 => Some(0x7a),
        Code::F12 => Some(0x7b),
        Code::F13 => Some(0x7c),
        Code::F14 => Some(0x7d),
        Code::F15 => Some(0x7e),
        Code::F16 => Some(0x7f),
        Code::F17 => Some(0x80),
        Code::F18 => Some(0x81),
        Code::F19 => Some(0x82),
        Code::F20 => Some(0x83),
    }
}

/// One step of shortcut parsing: what a single `+`-separated token does to
/// the accumulated modifiers and key. `None` means the token is invalid here.
pub open spec fn match_one_spec(
    sub: Seq<char>,
    m: Option<Modifiers>,
    key: Option<Code>,
) -> Option<(Option<Modifiers>, Option<Code>)> {
    if sub == "Ctrl"@ {
        Some((modifier_or_spec(m, Modifiers { ctrl: true, meta: false, alt: false, shift: false }), key))
    } else if sub == "Win+"@ {
        Some((modifier_or_spec(m, Modifiers { ctrl: false, meta: true, alt: false, shift: false }), key))
    } else if sub == "Alt"@ {
        Some((modifier_or_spec(m, Modifiers { ctrl: false, meta: false, alt: true, shift: false }), key))
    } else if sub == "Shift"@ {
        Some((modifier_or_spec(m, Modifiers { ctrl: false, meta: false, alt: false, shift: true }), key))
    } else if key is Some {
        None
    } else {
        match str_to_key_spec(sub) {
            Some(k) => Some((m, Some(k))),
            None => None,
        }
    }
}

fn match_one(sub: &str, m: Option<Modifiers>, key: Option<Code>) -> (r: Option<
    (Option<Modifiers>, Option<Code>),
>)
    ensures
        r == match_one_spec(sub@, m, key),
{
    if str_eq(sub, "Ctrl") {
        Some((modifier_or(m, Modifiers::with_ctrl()), key))
    } else if str_eq(sub, meta_str()) {
        Some((modifier_or(m, Modifiers::with_meta()), key))
    } else if str_eq(sub, "Alt") {
        Some((modifier_or(m, Modifiers::with_alt()), key))
    } else if str_eq(sub, "Shift") {
        Some((modifier_or(m, Modifiers::with_shift()), key))
    } else if key.is_some() {
        None
    } else {
        match str_to_key(sub) {
            Some(k) => Some((m, Some(k))),
            None => None,
        }
    }
}

/// Shortcut parsing from position `i`, with the current token starting at
/// `last` and the modifiers and key gathered so far.
pub open spec fn parse_shortcut(
    s: Seq<char>,
    last: int,
    i: int,
    m: Option<Modifiers>,
    key: Option<Code>,
) -> Option<(Modifiers, Code)>
    decreases s.len() - i,
{
    if i < 0 || last < 0 || last > i || i > s.len() {
        None
    } else if i == s.len() {
        match match_one_spec(s.subrange(last, s.len() as int), m, key) {
            Some((m2, k2)) => if m2 is Some && k2 is Some {
                Some((m2->0, k2->0))
            } else {
                None
            },
            None => None,
        }
    } else if s[i] == '+' {
        if i == 0 {
            None
        } else {
            match match_one_spec(s.subrange(last, i), m, key) {
                Some((m2, k2)) => parse_shortcut(s, i + 1, i + 1, m2, k2),
                None => None,
            }
        }
    } else {
        parse_shortcut(s, last, i + 1, m, key)
    }
}

pub open spec fn shortcut_from_str_spec(s: Seq<char>) -> Option<(Modifiers, Code)> {
    parse_shortcut(s, 0, 0, None, None)
}

/// Parses a shortcut string such as `Ctrl+Alt+F9`: any number of modifier
/// tokens and exactly one key token, separated by `+`. Returns nothing for a
/// string that does not name both a modifier set and a key.
pub fn shortcut_from_str(s: &str) -> (r: Option<(Modifiers, Code)>)
    ensures
        r == shortcut_from_str_spec(s@),
{
    let n = s.unicode_len();
    let mut m: Option<Modifiers> = None;
    let mut key: Option<Code> = None;
    let mut last: usize = 0;
    let mut i: usize = 0;
    while i < n
        invariant
            0 <= last <= i <= n,
            n == s@.len(),
            parse_shortcut(s@, 0, 0, None, None) == parse_shortcut(
                s@,
                last as int,
                i as int,
                m,
                key,
            ),
        decreases n - i,
    {
        let c = s.get_char(i);
        if c == '+' {
            if i == 0 {
                return None;
            }
            let sub = s.substring_char(last, i);
            assert(sub@ == s@.subrange(last as int, i as int));
            match match_one(sub, m, key) {
                Some((m2, k2)) => {
                    m = m2;
                    key = k2;
                },
                None => {
                    return None;
                },
            }
            last = i + 1;
        }
        i += 1;
    }
    let sub = s.substring_char(last, n);
    assert(sub@ == s@.subrange(last as int, n as int));
    match match_one(sub, m, key) {
        Some((m2, k2)) => {
            match (m2, k2) {
                (Some(mv), Some(kv)) => Some((mv, kv)),
                _ => None,
            }
        },
        None => None,
    }
}

/// The textual form of a shortcut: the held modifiers in a fixed order, then
/// the key's name.
pub open spec fn shortcut_str_spec(m: Modifiers, code: Option<Code>) -> Seq<char> {
    (if m.ctrl {
        "Ctrl+"@
    } else {
        Seq::<char>::empty()
    }) + (if m.meta {
        "Win+"@
    } else {
        Seq::<char>::empty()
    }) + (if m.alt {
        "Alt+"@
    } else {
        Seq::<char>::empty()
    }) + (if m.shift {
        "Shift+"@
    } else {
        Seq::<char>::empty()
    }) + (match code {
        Some(c) => key_str_spec(c),
        None => Seq::<char>::empty(),
    })
}

pub fn shortcut_to_str(m: Modifiers, code: Option<Code>) -> (r: String)
    ensures
        r@ == shortcut_str_spec(m, code),
{
    let mut s = String::new();
    if m.ctrl {
        s.push_str("Ctrl+");
    }
    if m.meta {
        s.push_str(meta_str());
    }
    if m.alt {
        s.push_str("Alt+");
    }
    if m.shift {
        s.push_str("Shift+");
    }
    if let Some(c) = code {
        s.push_str(key_to_str(c));
    }
    assert(s@ =~= shortcut_str_spec(m, code));
    s
}

/// The host's modifier flag for the `Alt` key.
pub const MOD_ALT_VALUE: u32 = 1;

/// The host's modifier flag for the `Ctrl` key.
pub const MOD_CONTROL_VALUE: u32 = 2;

/// The host's modifier flag for the `Shift` key.
pub const MOD_SHIFT_VALUE: u32 = 4;

/// The host's modifier flag for the meta key.
pub const MOD_WIN_VALUE: u32 = 8;

pub open spec fn modifier_win_spec(m: Modifiers) -> u32 {
    ((if m.ctrl {
        MOD_CONTROL_VALUE as int
    } else {
        0int
    }) + (if m.alt {
        MOD_ALT_VALUE as int
    } else {
        0int
    }) + (if m.shift {
        MOD_SHIFT_VALUE as int
    } else {
        0int
    }) + (if m.meta {
        MOD_WIN_VALUE as int
    } else {
        0int
    })) as u32
}

/// The host's modifier bitmask for a modifier set.
pub fn modifier_to_win(m: Modifiers) -> (r: u32)
    ensures
        r == modifier_win_spec(m),
{
    let mut r: u32 = 0;
    if m.ctrl {
        r += MOD_CONTROL_VALUE;
    }
    if m.alt {
        r += MOD_ALT_VALUE;
    }
    if m.shift {
        r += MOD_SHIFT_VALUE;
    }
    if m.meta {
        r += MOD_WIN_VALUE;
    }
    r
}

/// Parses a shortcut string into the host's modifier bitmask and virtual-key
/// value.
pub fn shortcut_str_to_win(st: &str) -> (r: Option<(u32, u16)>)
    ensures
        match shortcut_from_str_spec(st@) {
            Some((m, code)) => r == Some((modifier_win_spec(m), key_win_spec(code))),
            None => r is None,
        },
{
    match shortcut_from_str(st) {
        Some((m, code)) => match key_to_win(code) {
            Some(k) => Some((modifier_to_win(m), k)),
            None => None,
        },
        None => None,
    }
}

} // verus!
