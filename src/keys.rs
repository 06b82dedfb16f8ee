//! The keys of the USB HID keyboard usage table that a mapping can send.

use vstd::prelude::*;

use crate::text::{chars_eq, str_eq};

verus! {

/// A key of the USB HID keyboard usage table.
#[derive(Clone, Copy, Debug, PartialEq, Eq, Structural, Hash)]
pub enum KeyboardInput {
    /// Keyboard a and A
    A,
    /// Keyboard b and B
    B,
    /// Keyboard c and C
    C,
    /// Keyboard d and D
    D,
    /// Keyboard e and E
    E,
    /// Keyboard f and F
    F,
    /// Keyboard g and G
    G,
    /// Keyboard h and H
    H,
    /// Keyboard i and I
    I,
    /// Keyboard j and J
    J,
    /// Keyboard k and K
    K,
    /// Keyboard l and L
    L,
    /// Keyboard m and M
    M,
    /// Keyboard n and N
    N,
    /// Keyboard o and O
    O,
    /// Keyboard p and P
    P,
    /// Keyboard q and Q
    Q,
    /// Keyboard r and R
    R,
    /// Keyboard s and S
    S,
    /// Keyboard t and T
    T,
    /// Keyboard u and U
    U,
    /// Keyboard v and V
    V,
    /// Keyboard w and W
    W,
    /// Keyboard x and X
    X,
    /// Keyboard y and Y
    Y,
    /// Keyboard z and Z
    Z,
    /// Keyboard 1 and !
    TopRow1Exclamation,
    /// Keyboard 2 and @
    TopRow2At,
    /// Keyboard 3 and #
    TopRow3Hash,
    /// Keyboard 4 and $
    TopRow4Dollar,
    /// Keyboard 5 and %
    TopRow5Percent,
    /// Keyboard 6 and ^
    TopRow6Caret,
    /// Keyboard 7 and &
    TopRow7Ampersand,
    /// Keyboard 8 and *
    TopRow8Asterisk,
    /// Keyboard 9 and (
    TopRow9OpenParens,
    /// Keyboard 0 and )
    TopRow0CloseParens,
    /// : Keyboard Enter and Keypad Enter generate different Usage codes.
    Enter,
    /// Keyboard ESCAPE
    Escape,
    /// Keyboard DELETE (Backspace)
    Backspace,
    /// Keyboard Tab
    Tab,
    /// Keyboard Spacebar
    Spacebar,
    /// Keyboard - and _
    DashUnderscore,
    /// Keyboard = and +
    EqualPlus,
    /// Keyboard [ and {
    OpenBracketBrace,
    /// Keyboard ] and }
    CloseBracketBrace,
    /// Keyboard \ and |
    BackslashBar,
    /// Keyboard Non-US # and
    NonUSHash,
    /// Keyboard ; and :
    SemiColon,
    /// Keyboard ' and "
    SingleDoubleQuote,
    /// Keyboard ` and ~
    BacktickTilde,
    /// Keyboard , and <
    CommaLessThan,
    /// Keyboard . and >
    PeriodGreaterThan,
    /// Keyboard / and ?
    SlashQuestion,
    /// Keyboard Caps Lock
    CapsLock,
    /// Keyboard F1
    F1,
    /// Keyboard F2
    F2,
    /// Keyboard F3
    F3,
    /// Keyboard F4
    F4,
    /// Keyboard F5
    F5,
    /// Keyboard F6
    F6,
    /// Keyboard F7
    F7,
    /// Keyboard F8
    F8,
    /// Keyboard F9
    F9,
    /// Keyboard F10
    F10,
    /// Keyboard F11
    F11,
    /// Keyboard F12
    F12,
    /// Keyboard PrintScreen
    PrintScreen,
    /// Keyboard ScrollLock
    ScrollLock,
    /// Keyboard Pause
    Pause,
    /// Keyboard Insert
    Insert,
    /// Keyboard Home
    Home,
    /// Keyboard PageUp
    PageUp,
    /// Keyboard Delete Forward
    Delete,
    /// Keyboard End
    End,
    /// Keyboard PageDown
    PageDown,
    /// Keyboard RightArrow
    RightArrow,
    /// Keyboard LeftArrow
    LeftArrow,
    /// Keyboard DownArrow
    DownArrow,
    /// Keyboard UpArrow
    UpArrow,
    /// Keypad Num Lock and Clear
    KeypadNumLock,
    /// Keypad /
    KeypadDivide,
    /// Keypad *
    KeypadMultiply,
    /// Keypad -
    KeypadMinus,
    /// Keypad +
    KeypadPlus,
    /// Keypad ENTER
    KeypadEnter,
    /// Keypad 1 and End
    Keypad1End,
    /// Keypad 2 and DownArrow
    Keypad2DownArrow,
    /// Keypad 3 and PageDown
    Keypad3PageDown,
    /// Keypad 4 and LeftArrow
    Keypad4LeftArrow,
    /// Keypad 5
    Keypad5,
    /// Keypad 6 and RightArrow
    Keypad6RightArrow,
    /// Keypad 7 and Home
    Keypad7Home,
    /// Keypad 8 and UpArrow
    Keypad8UpArrow,
    /// Keypad 9 and PageUp
    Keypad9PageUp,
    /// Keypad 0 and Insert
    Keypad0Insert,
    /// Keypad . and Delete
    KeypadPeriodDelete,
    /// Keyboard Non-US \ and |
    NonUSSlash,
    /// Keyboard Application
    Application,
    /// Keyboard Power
    Power,
    /// Keypad =
    KeypadEqual,
    /// Keyboard F13
    F13,
    /// Keyboard F14
    F14,
    /// Keyboard F15
    F15,
    /// Keyboard F16
    F16,
    /// Keyboard F17
    F17,
    /// Keyboard F18
    F18,
    /// Keyboard F19
    F19,
    /// Keyboard F20
    F20,
    /// Keyboard F21
    F21,
    /// Keyboard F22
    F22,
    /// Keyboard F23
    F23,
    /// Keyboard F24
    F24,
    /// Keyboard Execute
    Execute,
    /// Keyboard Help
    Help,
    /// Keyboard Menu
    Menu,
    /// Keyboard Select
    Select,
    /// Keyboard Stop
    Stop,
    /// Keyboard Again
    Again,
    /// Keyboard Undo
    Undo,
    /// Keyboard Cut
    Cut,
    /// Keyboard Copy
    Copy,
    /// Keyboard Paste
    Paste,
    /// Keyboard Find
    Find,
    /// Keyboard Mute
    Mute,
    /// Keyboard Volume Up
    VolumeUp,
    /// Keyboard Volume Down
    VolumeDown,
    /// Keyboad Locking Caps Lock
    LockingCapsLock,
    /// Keyboad Locking Num Lock
    LockingNumLock,
    /// Keyboad Locking Scroll Lock
    LockingScrollLock,
    /// Keypad Comma
    KeypadComma,
    /// Keypad Equal Sign
    KeypadEqualSign,
    /// Keyboard International1
    International1,
    /// Keyboard International2
    International2,
    /// Keyboard International3
    International3,
    /// Keyboard International4
    International4,
    /// Keyboard International5
    International5,
    /// Keyboard International6
    International6,
    /// Keyboard International7
    International7,
    /// Keyboard International8
    International8,
    /// Keyboard International9
    International9,
    /// Keyboard LANG1
    LANG1,
    /// Keyboard LANG2
    LANG2,
    /// Keyboard LANG3
    LANG3,
    /// Keyboard LANG4
    LANG4,
    /// Keyboard LANG5
    LANG5,
    /// Keyboard LANG6
    LANG6,
    /// Keyboard LANG7
    LANG7,
    /// Keyboard LANG8
    LANG8,
    /// Keyboard LANG9
    LANG9,
    /// Keyboard Alternate Erase
    AlternateErase,
    /// Keyboard SysReq/Attention
    SysReqAttention,
    /// Keyboard Cancel
    Cancel,
    /// Keyboard Clear
    Clear,
    /// Keyboard Prior
    Prior,
    /// Keyboard Return
    Return,
    /// Keyboard Separator
    Separator,
    /// Keyboard Out
    Out,
    /// Keyboard Oper
    Oper,
    /// Keyboard Clear/Again
    ClearAgain,
    /// Keyboard CrSel/Props
    CrSelProps,
    /// Keyboard ExSel
    ExSel,
    /// Keypad 00
    Keypad00,
    /// Keypad 000
    Keypad000,
    /// Thousands Separator
    ThousandsSeparator,
    /// Decimal Separator
    DecimalSeparator,
    /// Currency Unit
    CurrencyUnit,
    /// Currency Sub-unit
    CurrencySubunit,
    /// Keypad (
    KeypadOpenParens,
    /// Keypad )
    KeypadCloseParens,
    /// Keypad {
    KeypadOpenBrace,
    /// Keypad }
    KeypadCloseBrace,
    /// Keypad Tab
    KeypadTab,
    /// Keypad Backspace
    KeypadBackspace,
    /// Keypad A
    KeypadA,
    /// Keypad B
    KeypadB,
    /// Keypad C
    KeypadC,
    /// Keypad D
    KeypadD,
    /// Keypad E
    KeypadE,
    /// Keypad F
    KeypadF,
    /// Keypad XOR
    KeypadBitwiseXor,
    /// Keypad ^
    KeypadLogicalXor,
    /// Keypad %
    KeypadModulo,
    /// Keypad <
    KeypadLeftShift,
    /// Keypad >
    KeypadRightShift,
    /// Keypad &
    KeypadBitwiseAnd,
    /// Keypad &&
    KeypadLogicalAnd,
    /// Keypad |
    KeypadBitwiseOr,
    /// Keypad ||
    KeypadLogicalOr,
    /// Keypad :
    KeypadColon,
    /// Keypad #
    KeypadHash,
    /// Keypad Space
    KeypadSpace,
    /// Keypad @
    KeypadAt,
    /// Keypad !
    KeypadExclamation,
    /// Keypad Memory Store
    KeypadMemoryStore,
    /// Keypad Memory Recall
    KeypadMemoryRecall,
    /// Keypad Memory Clear
    KeypadMemoryClear,
    /// Keypad Memory Add
    KeypadMemoryAdd,
    /// Keypad Memory Subtract
    KeypadMemorySubtract,
    /// Keypad Memory Multiply
    KeypadMemoryMultiply,
    /// Keypad Memory Divice
    KeypadMemoryDivide,
    /// Keypad +/-
    KeypadPositiveNegative,
    /// Keypad Clear
    KeypadClear,
    /// Keypad Clear Entry
    KeypadClearEntry,
    /// Keypad Binary
    KeypadBinary,
    /// Keypad Octal
    KeypadOctal,
    /// Keypad Decimal
    KeypadDecimal,
    /// Keypad Hexadecimal
    KeypadHexadecimal,
    /// Keyboard LeftControl
    LeftControl,
    /// Keyboard LeftShift
    LeftShift,
    /// Keyboard LeftAlt
    LeftAlt,
    /// Keyboard LeftGUI
    LeftWindows,
    /// Keyboard RightControl
    RightControl,
    /// Keyboard RightShift
    RightShift,
    /// Keyboard RightAlt
    RightAlt,
    /// Keyboard RightGUI
    RightWindows,
}

impl KeyboardInput {
    /// The usage code that a keyboard report carries for this key.
    pub open spec fn spec_code(self) -> u8 {
        match self {
            KeyboardInput::A => 0x04,
            KeyboardInput::B => 0x05,
            KeyboardInput::C => 0x06,
            KeyboardInput::D => 0x07,
            KeyboardInput::E => 0x08,
            KeyboardInput::F => 0x09,
            KeyboardInput::G => 0x0A,
            KeyboardInput::H => 0x0B,
            KeyboardInput::I => 0x0C,
            KeyboardInput::J => 0x0D,
            KeyboardInput::K => 0x0E,
            KeyboardInput::L => 0x0F,
            KeyboardInput::M => 0x10,
            KeyboardInput::N => 0x11,
            KeyboardInput::O => 0x12,
            KeyboardInput::P => 0x13,
            KeyboardInput::Q => 0x14,
            KeyboardInput::R => 0x15,
            KeyboardInput::S => 0x16,
            KeyboardInput::T => 0x17,
            KeyboardInput::U => 0x18,
            KeyboardInput::V => 0x19,
            KeyboardInput::W => 0x1A,
            KeyboardInput::X => 0x1B,
            KeyboardInput::Y => 0x1C,
            KeyboardInput::Z => 0x1D,
            KeyboardInput::TopRow1Exclamation => 0x1E,
            KeyboardInput::TopRow2At => 0x1F,
            KeyboardInput::TopRow3Hash => 0x20,
            KeyboardInput::TopRow4Dollar => 0x21,
            KeyboardInput::TopRow5Percent => 0x22,
            KeyboardInput::TopRow6Caret => 0x23,
            KeyboardInput::TopRow7Ampersand => 0x24,
            KeyboardInput::TopRow8Asterisk => 0x25,
            KeyboardInput::TopRow9OpenParens => 0x26,
            KeyboardInput::TopRow0CloseParens => 0x27,
            KeyboardInput::Enter => 0x28,
            KeyboardInput::Escape => 0x29,
            KeyboardInput::Backspace => 0x2A,
            KeyboardInput::Tab => 0x2B,
            KeyboardInput::Spacebar => 0x2C,
            KeyboardInput::DashUnderscore => 0x2D,
            KeyboardInput::EqualPlus => 0x2E,
            KeyboardInput::OpenBracketBrace => 0x2F,
            KeyboardInput::CloseBracketBrace => 0x30,
            KeyboardInput::BackslashBar => 0x31,
            KeyboardInput::NonUSHash => 0x32,
            KeyboardInput::SemiColon => 0x33,
            KeyboardInput::SingleDoubleQuote => 0x34,
            KeyboardInput::BacktickTilde => 0x35,
            KeyboardInput::CommaLessThan => 0x36,
            KeyboardInput::PeriodGreaterThan => 0x37,
            KeyboardInput::SlashQuestion => 0x38,
            KeyboardInput::CapsLock => 0x39,
            KeyboardInput::F1 => 0x3A,
            KeyboardInput::F2 => 0x3B,
            KeyboardInput::F3 => 0x3C,
            KeyboardInput::F4 => 0x3D,
            KeyboardInput::F5 => 0x3E,
            KeyboardInput::F6 => 0x3F,
            KeyboardInput::F7 => 0x40,
            KeyboardInput::F8 => 0x41,
            KeyboardInput::F9 => 0x42,
            KeyboardInput::F10 => 0x43,
            KeyboardInput::F11 => 0x44,
            KeyboardInput::F12 => 0x45,
            KeyboardInput::PrintScreen => 0x46,
            KeyboardInput::ScrollLock => 0x47,
            KeyboardInput::Pause => 0x48,
            KeyboardInput::Insert => 0x49,
            KeyboardInput::Home => 0x4A,
            KeyboardInput::PageUp => 0x4B,
            KeyboardInput::Delete => 0x4C,
            KeyboardInput::End => 0x4D,
            KeyboardInput::PageDown => 0x4E,
            KeyboardInput::RightArrow => 0x4F,
            KeyboardInput::LeftArrow => 0x50,
            KeyboardInput::DownArrow => 0x51,
            KeyboardInput::UpArrow => 0x52,
            KeyboardInput::KeypadNumLock => 0x53,
            KeyboardInput::KeypadDivide => 0x54,
            KeyboardInput::KeypadMultiply => 0x55,
            KeyboardInput::KeypadMinus => 0x56,
            KeyboardInput::KeypadPlus => 0x57,
            KeyboardInput::KeypadEnter => 0x58,
            KeyboardInput::Keypad1End => 0x59,
            KeyboardInput::Keypad2DownArrow => 0x5A,
            KeyboardInput::Keypad3PageDown => 0x5B,
            KeyboardInput::Keypad4LeftArrow => 0x5C,
            KeyboardInput::Keypad5 => 0x5D,
            KeyboardInput::Keypad6RightArrow => 0x5E,
            KeyboardInput::Keypad7Home => 0x5F,
            KeyboardInput::Keypad8UpArrow => 0x60,
            KeyboardInput::Keypad9PageUp => 0x61,
            KeyboardInput::Keypad0Insert => 0x62,
            KeyboardInput::KeypadPeriodDelete => 0x63,
            KeyboardInput::NonUSSlash => 0x64,
            KeyboardInput::Application => 0x65,
            KeyboardInput::Power => 0x66,
            KeyboardInput::KeypadEqual => 0x67,
            KeyboardInput::F13 => 0x68,
            KeyboardInput::F14 => 0x69,
            KeyboardInput::F15 => 0x6A,
            KeyboardInput::F16 => 0x6B,
            KeyboardInput::F17 => 0x6C,
            KeyboardInput::F18 => 0x6D,
            KeyboardInput::F19 => 0x6E,
            KeyboardInput::F20 => 0x6F,
            KeyboardInput::F21 => 0x70,
            KeyboardInput::F22 => 0x71,
            KeyboardInput::F23 => 0x72,
            KeyboardInput::F24 => 0x73,
            KeyboardInput::Execute => 0x74,
            KeyboardInput::Help => 0x75,
            KeyboardInput::Menu => 0x76,
            KeyboardInput::Select => 0x77,
            KeyboardInput::Stop => 0x78,
            KeyboardInput::Again => 0x79,
            KeyboardInput::Undo => 0x7A,
            KeyboardInput::Cut => 0x7B,
            KeyboardInput::Copy => 0x7C,
            KeyboardInput::Paste => 0x7D,
            KeyboardInput::Find => 0x7E,
            KeyboardInput::Mute => 0x7F,
            KeyboardInput::VolumeUp => 0x80,
            KeyboardInput::VolumeDown => 0x81,
            KeyboardInput::LockingCapsLock => 0x82,
            KeyboardInput::LockingNumLock => 0x83,
            KeyboardInput::LockingScrollLock => 0x84,
            KeyboardInput::KeypadComma => 0x85,
            KeyboardInput::KeypadEqualSign => 0x86,
            KeyboardInput::International1 => 0x87,
            KeyboardInput::International2 => 0x88,
            KeyboardInput::International3 => 0x89,
            KeyboardInput::International4 => 0x8A,
            KeyboardInput::International5 => 0x8B,
            KeyboardInput::International6 => 0x8C,
            KeyboardInput::International7 => 0x8D,
            KeyboardInput::International8 => 0x8E,
            KeyboardInput::International9 => 0x8F,
            KeyboardInput::LANG1 => 0x90,
            KeyboardInput::LANG2 => 0x91,
            KeyboardInput::LANG3 => 0x92,
            KeyboardInput::LANG4 => 0x93,
            KeyboardInput::LANG5 => 0x94,
            KeyboardInput::LANG6 => 0x95,
            KeyboardInput::LANG7 => 0x96,
            KeyboardInput::LANG8 => 0x97,
            KeyboardInput::LANG9 => 0x98,
            KeyboardInput::AlternateErase => 0x99,
            KeyboardInput::SysReqAttention => 0x9A,
            KeyboardInput::Cancel => 0x9B,
            KeyboardInput::Clear => 0x9C,
            KeyboardInput::Prior => 0x9D,
            KeyboardInput::Return => 0x9E,
            KeyboardInput::Separator => 0x9F,
            KeyboardInput::Out => 0xA0,
            KeyboardInput::Oper => 0xA1,
            KeyboardInput::ClearAgain => 0xA2,
            KeyboardInput::CrSelProps => 0xA3,
            KeyboardInput::ExSel => 0xA4,
            KeyboardInput::Keypad00 => 0xB0,
            KeyboardInput::Keypad000 => 0xB1,
            KeyboardInput::ThousandsSeparator => 0xB2,
            KeyboardInput::DecimalSeparator => 0xB3,
            KeyboardInput::CurrencyUnit => 0xB4,
            KeyboardInput::CurrencySubunit => 0xB5,
            KeyboardInput::KeypadOpenParens => 0xB6,
            KeyboardInput::KeypadCloseParens => 0xB7,
            KeyboardInput::KeypadOpenBrace => 0xB8,
            KeyboardInput::KeypadCloseBrace => 0xB9,
            KeyboardInput::KeypadTab => 0xBA,
            KeyboardInput::KeypadBackspace => 0xBB,
            KeyboardInput::KeypadA => 0xBC,
            KeyboardInput::KeypadB => 0xBD,
            KeyboardInput::KeypadC => 0xBE,
            KeyboardInput::KeypadD => 0xBF,
            KeyboardInput::KeypadE => 0xC0,
            KeyboardInput::KeypadF => 0xC1,
            KeyboardInput::KeypadBitwiseXor => 0xC2,
            KeyboardInput::KeypadLogicalXor => 0xC3,
            KeyboardInput::KeypadModulo => 0xC4,
            KeyboardInput::KeypadLeftShift => 0xC5,
            KeyboardInput::KeypadRightShift => 0xC6,
            KeyboardInput::KeypadBitwiseAnd => 0xC7,
            KeyboardInput::KeypadLogicalAnd => 0xC8,
            KeyboardInput::KeypadBitwiseOr => 0xC9,
            KeyboardInput::KeypadLogicalOr => 0xCA,
            KeyboardInput::KeypadColon => 0xCB,
            KeyboardInput::KeypadHash => 0xCC,
            KeyboardInput::KeypadSpace => 0xCD,
            KeyboardInput::KeypadAt => 0xCE,
            KeyboardInput::KeypadExclamation => 0xCF,
            KeyboardInput::KeypadMemoryStore => 0xD0,
            KeyboardInput::KeypadMemoryRecall => 0xD1,
            KeyboardInput::KeypadMemoryClear => 0xD2,
            KeyboardInput::KeypadMemoryAdd => 0xD3,
            KeyboardInput::KeypadMemorySubtract => 0xD4,
            KeyboardInput::KeypadMemoryMultiply => 0xD5,
            KeyboardInput::KeypadMemoryDivide => 0xD6,
            KeyboardInput::KeypadPositiveNegative => 0xD7,
            KeyboardInput::KeypadClear => 0xD8,
            KeyboardInput::KeypadClearEntry => 0xD9,
            KeyboardInput::KeypadBinary => 0xDA,
            KeyboardInput::KeypadOctal => 0xDB,
            KeyboardInput::KeypadDecimal => 0xDC,
            KeyboardInput::KeypadHexadecimal => 0xDD,
            KeyboardInput::LeftControl => 0xE0,
            KeyboardInput::LeftShift => 0xE1,
            KeyboardInput::LeftAlt => 0xE2,
            KeyboardInput::LeftWindows => 0xE3,
            KeyboardInput::RightControl => 0xE4,
            KeyboardInput::RightShift => 0xE5,
            KeyboardInput::RightAlt => 0xE6,
            KeyboardInput::RightWindows => 0xE7,
        }
    }

    /// The usage code that a keyboard report carries for this key.
    pub fn code(&self) -> (r: u8)
        ensures
            r == self.spec_code(),
    {
        match self {
            KeyboardInput::A => 0x04,
            KeyboardInput::B => 0x05,
            KeyboardInput::C => 0x06,
            KeyboardInput::D => 0x07,
            KeyboardInput::E => 0x08,
            KeyboardInput::F => 0x09,
            KeyboardInput::G => 0x0A,
            KeyboardInput::H => 0x0B,
            KeyboardInput::I => 0x0C,
            KeyboardInput::J => 0x0D,
            KeyboardInput::K => 0x0E,
            KeyboardInput::L => 0x0F,
            KeyboardInput::M => 0x10,
            KeyboardInput::N => 0x11,
            KeyboardInput::O => 0x12,
            KeyboardInput::P => 0x13,
            KeyboardInput::Q => 0x14,
            KeyboardInput::R => 0x15,
            KeyboardInput::S => 0x16,
            KeyboardInput::T => 0x17,
            KeyboardInput::U => 0x18,
            KeyboardInput::V => 0x19,
            KeyboardInput::W => 0x1A,
            KeyboardInput::X => 0x1B,
            KeyboardInput::Y => 0x1C,
            KeyboardInput::Z => 0x1D,
            KeyboardInput::TopRow1Exclamation => 0x1E,
            KeyboardInput::TopRow2At => 0x1F,
            KeyboardInput::TopRow3Hash => 0x20,
            KeyboardInput::TopRow4Dollar => 0x21,
            KeyboardInput::TopRow5Percent => 0x22,
            KeyboardInput::TopRow6Caret => 0x23,
            KeyboardInput::TopRow7Ampersand => 0x24,
            KeyboardInput::TopRow8Asterisk => 0x25,
            KeyboardInput::TopRow9OpenParens => 0x26,
            KeyboardInput::TopRow0CloseParens => 0x27,
            KeyboardInput::Enter => 0x28,
            KeyboardInput::Escape => 0x29,
            KeyboardInput::Backspace => 0x2A,
            KeyboardInput::Tab => 0x2B,
            KeyboardInput::Spacebar => 0x2C,
            KeyboardInput::DashUnderscore => 0x2D,
            KeyboardInput::EqualPlus => 0x2E,
            KeyboardInput::OpenBracketBrace => 0x2F,
            KeyboardInput::CloseBracketBrace => 0x30,
            KeyboardInput::BackslashBar => 0x31,
            KeyboardInput::NonUSHash => 0x32,
            KeyboardInput::SemiColon => 0x33,
            KeyboardInput::SingleDoubleQuote => 0x34,
            KeyboardInput::BacktickTilde => 0x35,
            KeyboardInput::CommaLessThan => 0x36,
            KeyboardInput::PeriodGreaterThan => 0x37,
            KeyboardInput::SlashQuestion => 0x38,
            KeyboardInput::CapsLock => 0x39,
            KeyboardInput::F1 => 0x3A,
            KeyboardInput::F2 => 0x3B,
            KeyboardInput::F3 => 0x3C,
            KeyboardInput::F4 => 0x3D,
            KeyboardInput::F5 => 0x3E,
            KeyboardInput::F6 => 0x3F,
            KeyboardInput::F7 => 0x40,
            KeyboardInput::F8 => 0x41,
            KeyboardInput::F9 => 0x42,
            KeyboardInput::F10 => 0x43,
            KeyboardInput::F11 => 0x44,
            KeyboardInput::F12 => 0x45,
            KeyboardInput::PrintScreen => 0x46,
            KeyboardInput::ScrollLock => 0x47,
            KeyboardInput::Pause => 0x48,
            KeyboardInput::Insert => 0x49,
            KeyboardInput::Home => 0x4A,
            KeyboardInput::PageUp => 0x4B,
            KeyboardInput::Delete => 0x4C,
            KeyboardInput::End => 0x4D,
            KeyboardInput::PageDown => 0x4E,
            KeyboardInput::RightArrow => 0x4F,
            KeyboardInput::LeftArrow => 0x50,
            KeyboardInput::DownArrow => 0x51,
            KeyboardInput::UpArrow => 0x52,
            KeyboardInput::KeypadNumLock => 0x53,
            KeyboardInput::KeypadDivide => 0x54,
            KeyboardInput::KeypadMultiply => 0x55,
            KeyboardInput::KeypadMinus => 0x56,
            KeyboardInput::KeypadPlus => 0x57,
            KeyboardInput::KeypadEnter => 0x58,
            KeyboardInput::Keypad1End => 0x59,
            KeyboardInput::Keypad2DownArrow => 0x5A,
            KeyboardInput::Keypad3PageDown => 0x5B,
            KeyboardInput::Keypad4LeftArrow => 0x5C,
            KeyboardInput::Keypad5 => 0x5D,
            KeyboardInput::Keypad6RightArrow => 0x5E,
            KeyboardInput::Keypad7Home => 0x5F,
            KeyboardInput::Keypad8UpArrow => 0x60,
            KeyboardInput::Keypad9PageUp => 0x61,
            KeyboardInput::Keypad0Insert => 0x62,
            KeyboardInput::KeypadPeriodDelete => 0x63,
            KeyboardInput::NonUSSlash => 0x64,
            KeyboardInput::Application => 0x65,
            KeyboardInput::Power => 0x66,
            KeyboardInput::KeypadEqual => 0x67,
            KeyboardInput::F13 => 0x68,
            KeyboardInput::F14 => 0x69,
            KeyboardInput::F15 => 0x6A,
            KeyboardInput::F16 => 0x6B,
            KeyboardInput::F17 => 0x6C,
            KeyboardInput::F18 => 0x6D,
            KeyboardInput::F19 => 0x6E,
            KeyboardInput::F20 => 0x6F,
            KeyboardInput::F21 => 0x70,
            KeyboardInput::F22 => 0x71,
            KeyboardInput::F23 => 0x72,
            KeyboardInput::F24 => 0x73,
            KeyboardInput::Execute => 0x74,
            KeyboardInput::Help => 0x75,
            KeyboardInput::Menu => 0x76,
            KeyboardInput::Select => 0x77,
            KeyboardInput::Stop => 0x78,
            KeyboardInput::Again => 0x79,
            KeyboardInput::Undo => 0x7A,
            KeyboardInput::Cut => 0x7B,
            KeyboardInput::Copy => 0x7C,
            KeyboardInput::Paste => 0x7D,
            KeyboardInput::Find => 0x7E,
            KeyboardInput::Mute => 0x7F,
            KeyboardInput::VolumeUp => 0x80,
            KeyboardInput::VolumeDown => 0x81,
            KeyboardInput::LockingCapsLock => 0x82,
            KeyboardInput::LockingNumLock => 0x83,
            KeyboardInput::LockingScrollLock => 0x84,
            KeyboardInput::KeypadComma => 0x85,
            KeyboardInput::KeypadEqualSign => 0x86,
            KeyboardInput::International1 => 0x87,
            KeyboardInput::International2 => 0x88,
            KeyboardInput::International3 => 0x89,
            KeyboardInput::International4 => 0x8A,
            KeyboardInput::International5 => 0x8B,
            KeyboardInput::International6 => 0x8C,
            KeyboardInput::International7 => 0x8D,
            KeyboardInput::International8 => 0x8E,
            KeyboardInput::International9 => 0x8F,
            KeyboardInput::LANG1 => 0x90,
            KeyboardInput::LANG2 => 0x91,
            KeyboardInput::LANG3 => 0x92,
            KeyboardInput::LANG4 => 0x93,
            KeyboardInput::LANG5 => 0x94,
            KeyboardInput::LANG6 => 0x95,
            KeyboardInput::LANG7 => 0x96,
            KeyboardInput::LANG8 => 0x97,
            KeyboardInput::LANG9 => 0x98,
            KeyboardInput::AlternateErase => 0x99,
            KeyboardInput::SysReqAttention => 0x9A,
            KeyboardInput::Cancel => 0x9B,
            KeyboardInput::Clear => 0x9C,
            KeyboardInput::Prior => 0x9D,
            KeyboardInput::Return => 0x9E,
            KeyboardInput::Separator => 0x9F,
            KeyboardInput::Out => 0xA0,
            KeyboardInput::Oper => 0xA1,
            KeyboardInput::ClearAgain => 0xA2,
            KeyboardInput::CrSelProps => 0xA3,
            KeyboardInput::ExSel => 0xA4,
            KeyboardInput::Keypad00 => 0xB0,
            KeyboardInput::Keypad000 => 0xB1,
            KeyboardInput::ThousandsSeparator => 0xB2,
            KeyboardInput::DecimalSeparator => 0xB3,
            KeyboardInput::CurrencyUnit => 0xB4,
            KeyboardInput::CurrencySubunit => 0xB5,
            KeyboardInput::KeypadOpenParens => 0xB6,
            KeyboardInput::KeypadCloseParens => 0xB7,
            KeyboardInput::KeypadOpenBrace => 0xB8,
            KeyboardInput::KeypadCloseBrace => 0xB9,
            KeyboardInput::KeypadTab => 0xBA,
            KeyboardInput::KeypadBackspace => 0xBB,
            KeyboardInput::KeypadA => 0xBC,
            KeyboardInput::KeypadB => 0xBD,
            KeyboardInput::KeypadC => 0xBE,
            KeyboardInput::KeypadD => 0xBF,
            KeyboardInput::KeypadE => 0xC0,
            KeyboardInput::KeypadF => 0xC1,
            KeyboardInput::KeypadBitwiseXor => 0xC2,
            KeyboardInput::KeypadLogicalXor => 0xC3,
            KeyboardInput::KeypadModulo => 0xC4,
            KeyboardInput::KeypadLeftShift => 0xC5,
            KeyboardInput::KeypadRightShift => 0xC6,
            KeyboardInput::KeypadBitwiseAnd => 0xC7,
            KeyboardInput::KeypadLogicalAnd => 0xC8,
            KeyboardInput::KeypadBitwiseOr => 0xC9,
            KeyboardInput::KeypadLogicalOr => 0xCA,
            KeyboardInput::KeypadColon => 0xCB,
            KeyboardInput::KeypadHash => 0xCC,
            KeyboardInput::KeypadSpace => 0xCD,
            KeyboardInput::KeypadAt => 0xCE,
            KeyboardInput::KeypadExclamation => 0xCF,
            KeyboardInput::KeypadMemoryStore => 0xD0,
            KeyboardInput::KeypadMemoryRecall => 0xD1,
            KeyboardInput::KeypadMemoryClear => 0xD2,
            KeyboardInput::KeypadMemoryAdd => 0xD3,
            KeyboardInput::KeypadMemorySubtract => 0xD4,
            KeyboardInput::KeypadMemoryMultiply => 0xD5,
            KeyboardInput::KeypadMemoryDivide => 0xD6,
            KeyboardInput::KeypadPositiveNegative => 0xD7,
            KeyboardInput::KeypadClear => 0xD8,
            KeyboardInput::KeypadClearEntry => 0xD9,
            KeyboardInput::KeypadBinary => 0xDA,
            KeyboardInput::KeypadOctal => 0xDB,
            KeyboardInput::KeypadDecimal => 0xDC,
            KeyboardInput::KeypadHexadecimal => 0xDD,
            KeyboardInput::LeftControl => 0xE0,
            KeyboardInput::LeftShift => 0xE1,
            KeyboardInput::LeftAlt => 0xE2,
            KeyboardInput::LeftWindows => 0xE3,
            KeyboardInput::RightControl => 0xE4,
            KeyboardInput::RightShift => 0xE5,
            KeyboardInput::RightAlt => 0xE6,
            KeyboardInput::RightWindows => 0xE7,
        }
    }

    /// The name of the key, as written in configuration files and forms.
    pub fn name(&self) -> (r: &'static str)
        ensures
            r@ == self.spec_name(),
    {
        match self {
            KeyboardInput::A => "A",
            KeyboardInput::B => "B",
            KeyboardInput::C => "C",
            KeyboardInput::D => "D",
            KeyboardInput::E => "E",
            KeyboardInput::F => "F",
            KeyboardInput::G => "G",
            KeyboardInput::H => "H",
            KeyboardInput::I => "I",
            KeyboardInput::J => "J",
            KeyboardInput::K => "K",
            KeyboardInput::L => "L",
            KeyboardInput::M => "M",
            KeyboardInput::N => "N",
            KeyboardInput::O => "O",
            KeyboardInput::P => "P",
            KeyboardInput::Q => "Q",
            KeyboardInput::R => "R",
            KeyboardInput::S => "S",
            KeyboardInput::T => "T",
            KeyboardInput::U => "U",
            KeyboardInput::V => "V",
            KeyboardInput::W => "W",
            KeyboardInput::X => "X",
            KeyboardInput::Y => "Y",
            KeyboardInput::Z => "Z",
            KeyboardInput::TopRow1Exclamation => "TopRow1Exclamation",
            KeyboardInput::TopRow2At => "TopRow2At",
            KeyboardInput::TopRow3Hash => "TopRow3Hash",
            KeyboardInput::TopRow4Dollar => "TopRow4Dollar",
            KeyboardInput::TopRow5Percent => "TopRow5Percent",
            KeyboardInput::TopRow6Caret => "TopRow6Caret",
            KeyboardInput::TopRow7Ampersand => "TopRow7Ampersand",
            KeyboardInput::TopRow8Asterisk => "TopRow8Asterisk",
            KeyboardInput::TopRow9OpenParens => "TopRow9OpenParens",
            KeyboardInput::TopRow0CloseParens => "TopRow0CloseParens",
            KeyboardInput::Enter => "Enter",
            KeyboardInput::Escape => "Escape",
            KeyboardInput::Backspace => "Backspace",
            KeyboardInput::Tab => "Tab",
            KeyboardInput::Spacebar => "Spacebar",
            KeyboardInput::DashUnderscore => "DashUnderscore",
            KeyboardInput::EqualPlus => "EqualPlus",
            KeyboardInput::OpenBracketBrace => "OpenBracketBrace",
            KeyboardInput::CloseBracketBrace => "CloseBracketBrace",
            KeyboardInput::BackslashBar => "BackslashBar",
            KeyboardInput::NonUSHash => "NonUSHash",
            KeyboardInput::SemiColon => "SemiColon",
            KeyboardInput::SingleDoubleQuote => "SingleDoubleQuote",
            KeyboardInput::BacktickTilde => "BacktickTilde",
            KeyboardInput::CommaLessThan => "CommaLessThan",
            KeyboardInput::PeriodGreaterThan => "PeriodGreaterThan",
            KeyboardInput::SlashQuestion => "SlashQuestion",
            KeyboardInput::CapsLock => "CapsLock",
            KeyboardInput::F1 => "F1",
            KeyboardInput::F2 => "F2",
            KeyboardInput::F3 => "F3",
            KeyboardInput::F4 => "F4",
            KeyboardInput::F5 => "F5",
            KeyboardInput::F6 => "F6",
            KeyboardInput::F7 => "F7",
            KeyboardInput::F8 => "F8",
            KeyboardInput::F9 => "F9",
            KeyboardInput::F10 => "F10",
            KeyboardInput::F11 => "F11",
            KeyboardInput::F12 => "F12",
            KeyboardInput::PrintScreen => "PrintScreen",
            KeyboardInput::ScrollLock => "ScrollLock",
            KeyboardInput::Pause => "Pause",
            KeyboardInput::Insert => "Insert",
            KeyboardInput::Home => "Home",
            KeyboardInput::PageUp => "PageUp",
            KeyboardInput::Delete => "Delete",
            KeyboardInput::End => "End",
            KeyboardInput::PageDown => "PageDown",
            KeyboardInput::RightArrow => "RightArrow",
            KeyboardInput::LeftArrow => "LeftArrow",
            KeyboardInput::DownArrow => "DownArrow",
            KeyboardInput::UpArrow => "UpArrow",
            KeyboardInput::KeypadNumLock => "KeypadNumLock",
            KeyboardInput::KeypadDivide => "KeypadDivide",
            KeyboardInput::KeypadMultiply => "KeypadMultiply",
            KeyboardInput::KeypadMinus => "KeypadMinus",
            KeyboardInput::KeypadPlus => "KeypadPlus",
            KeyboardInput::KeypadEnter => "KeypadEnter",
            KeyboardInput::Keypad1End => "Keypad1End",
            KeyboardInput::Keypad2DownArrow => "Keypad2DownArrow",
            KeyboardInput::Keypad3PageDown => "Keypad3PageDown",
            KeyboardInput::Keypad4LeftArrow => "Keypad4LeftArrow",
            KeyboardInput::Keypad5 => "Keypad5",
            KeyboardInput::Keypad6RightArrow => "Keypad6RightArrow",
            KeyboardInput::Keypad7Home => "Keypad7Home",
            KeyboardInput::Keypad8UpArrow => "Keypad8UpArrow",
            KeyboardInput::Keypad9PageUp => "Keypad9PageUp",
            KeyboardInput::Keypad0Insert => "Keypad0Insert",
            KeyboardInput::KeypadPeriodDelete => "KeypadPeriodDelete",
            KeyboardInput::NonUSSlash => "NonUSSlash",
            KeyboardInput::Application => "Application",
            KeyboardInput::Power => "Power",
            KeyboardInput::KeypadEqual => "KeypadEqual",
            KeyboardInput::F13 => "F13",
            KeyboardInput::F14 => "F14",
            KeyboardInput::F15 => "F15",
            KeyboardInput::F16 => "F16",
            KeyboardInput::F17 => "F17",
            KeyboardInput::F18 => "F18",
            KeyboardInput::F19 => "F19",
            KeyboardInput::F20 => "F20",
            KeyboardInput::F21 => "F21",
            KeyboardInput::F22 => "F22",
            KeyboardInput::F23 => "F23",
            KeyboardInput::F24 => "F24",
            KeyboardInput::Execute => "Execute",
            KeyboardInput::Help => "Help",
            KeyboardInput::Menu => "Menu",
            KeyboardInput::Select => "Select",
            KeyboardInput::Stop => "Stop",
            KeyboardInput::Again => "Again",
            KeyboardInput::Undo => "Undo",
            KeyboardInput::Cut => "Cut",
            KeyboardInput::Copy => "Copy",
            KeyboardInput::Paste => "Paste",
            KeyboardInput::Find => "Find",
            KeyboardInput::Mute => "Mute",
            KeyboardInput::VolumeUp => "VolumeUp",
            KeyboardInput::VolumeDown => "VolumeDown",
            KeyboardInput::LockingCapsLock => "LockingCapsLock",
            KeyboardInput::LockingNumLock => "LockingNumLock",
            KeyboardInput::LockingScrollLock => "LockingScrollLock",
            KeyboardInput::KeypadComma => "KeypadComma",
            KeyboardInput::KeypadEqualSign => "KeypadEqualSign",
            KeyboardInput::International1 => "International1",
            KeyboardInput::International2 => "International2",
            KeyboardInput::International3 => "International3",
            KeyboardInput::International4 => "International4",
            KeyboardInput::International5 => "International5",
            KeyboardInput::International6 => "International6",
            KeyboardInput::International7 => "International7",
            KeyboardInput::International8 => "International8",
            KeyboardInput::International9 => "International9",
            KeyboardInput::LANG1 => "LANG1",
            KeyboardInput::LANG2 => "LANG2",
            KeyboardInput::LANG3 => "LANG3",
            KeyboardInput::LANG4 => "LANG4",
            KeyboardInput::LANG5 => "LANG5",
            KeyboardInput::LANG6 => "LANG6",
            KeyboardInput::LANG7 => "LANG7",
            KeyboardInput::LANG8 => "LANG8",
            KeyboardInput::LANG9 => "LANG9",
            KeyboardInput::AlternateErase => "AlternateErase",
            KeyboardInput::SysReqAttention => "SysReqAttention",
            KeyboardInput::Cancel => "Cancel",
            KeyboardInput::Clear => "Clear",
            KeyboardInput::Prior => "Prior",
            KeyboardInput::Return => "Return",
            KeyboardInput::Separator => "Separator",
            KeyboardInput::Out => "Out",
            KeyboardInput::Oper => "Oper",
            KeyboardInput::ClearAgain => "ClearAgain",
            KeyboardInput::CrSelProps => "CrSelProps",
            KeyboardInput::ExSel => "ExSel",
            KeyboardInput::Keypad00 => "Keypad00",
            KeyboardInput::Keypad000 => "Keypad000",
            KeyboardInput::ThousandsSeparator => "ThousandsSeparator",
            KeyboardInput::DecimalSeparator => "DecimalSeparator",
            KeyboardInput::CurrencyUnit => "CurrencyUnit",
            KeyboardInput::CurrencySubunit => "CurrencySubunit",
            KeyboardInput::KeypadOpenParens => "KeypadOpenParens",
            KeyboardInput::KeypadCloseParens => "KeypadCloseParens",
            KeyboardInput::KeypadOpenBrace => "KeypadOpenBrace",
            KeyboardInput::KeypadCloseBrace => "KeypadCloseBrace",
            KeyboardInput::KeypadTab => "KeypadTab",
            KeyboardInput::KeypadBackspace => "KeypadBackspace",
            KeyboardInput::KeypadA => "KeypadA",
            KeyboardInput::KeypadB => "KeypadB",
            KeyboardInput::KeypadC => "KeypadC",
            KeyboardInput::KeypadD => "KeypadD",
            KeyboardInput::KeypadE => "KeypadE",
            KeyboardInput::KeypadF => "KeypadF",
            KeyboardInput::KeypadBitwiseXor => "KeypadBitwiseXor",
            KeyboardInput::KeypadLogicalXor => "KeypadLogicalXor",
            KeyboardInput::KeypadModulo => "KeypadModulo",
            KeyboardInput::KeypadLeftShift => "KeypadLeftShift",
            KeyboardInput::KeypadRightShift => "KeypadRightShift",
            KeyboardInput::KeypadBitwiseAnd => "KeypadBitwiseAnd",
            KeyboardInput::KeypadLogicalAnd => "KeypadLogicalAnd",
            KeyboardInput::KeypadBitwiseOr => "KeypadBitwiseOr",
            KeyboardInput::KeypadLogicalOr => "KeypadLogicalOr",
            KeyboardInput::KeypadColon => "KeypadColon",
            KeyboardInput::KeypadHash => "KeypadHash",
            KeyboardInput::KeypadSpace => "KeypadSpace",
            KeyboardInput::KeypadAt => "KeypadAt",
            KeyboardInput::KeypadExclamation => "KeypadExclamation",
            KeyboardInput::KeypadMemoryStore => "KeypadMemoryStore",
            KeyboardInput::KeypadMemoryRecall => "KeypadMemoryRecall",
            KeyboardInput::KeypadMemoryClear => "KeypadMemoryClear",
            KeyboardInput::KeypadMemoryAdd => "KeypadMemoryAdd",
            KeyboardInput::KeypadMemorySubtract => "KeypadMemorySubtract",
            KeyboardInput::KeypadMemoryMultiply => "KeypadMemoryMultiply",
            KeyboardInput::KeypadMemoryDivide => "KeypadMemoryDivide",
            KeyboardInput::KeypadPositiveNegative => "KeypadPositiveNegative",
            KeyboardInput::KeypadClear => "KeypadClear",
            KeyboardInput::KeypadClearEntry => "KeypadClearEntry",
            KeyboardInput::KeypadBinary => "KeypadBinary",
            KeyboardInput::KeypadOctal => "KeypadOctal",
            KeyboardInput::KeypadDecimal => "KeypadDecimal",
            KeyboardInput::KeypadHexadecimal => "KeypadHexadecimal",
            KeyboardInput::LeftControl => "LeftControl",
            KeyboardInput::LeftShift => "LeftShift",
            KeyboardInput::LeftAlt => "LeftAlt",
            KeyboardInput::LeftWindows => "LeftWindows",
            KeyboardInput::RightControl => "RightControl",
            KeyboardInput::RightShift => "RightShift",
            KeyboardInput::RightAlt => "RightAlt",
            KeyboardInput::RightWindows => "RightWindows",
        }
    }

    /// The name of the key, as written in configuration files and forms.
    pub open spec fn spec_name(self) -> Seq<char> {
        match self {
            KeyboardInput::A => "A"@,
            KeyboardInput::B => "B"@,
            KeyboardInput::C => "C"@,
            KeyboardInput::D => "D"@,
            KeyboardInput::E => "E"@,
            KeyboardInput::F => "F"@,
            KeyboardInput::G => "G"@,
            KeyboardInput::H => "H"@,
            KeyboardInput::I => "I"@,
            KeyboardInput::J => "J"@,
            KeyboardInput::K => "K"@,
            KeyboardInput::L => "L"@,
            KeyboardInput::M => "M"@,
            KeyboardInput::N => "N"@,
            KeyboardInput::O => "O"@,
            KeyboardInput::P => "P"@,
            KeyboardInput::Q => "Q"@,
            KeyboardInput::R => "R"@,
            KeyboardInput::S => "S"@,
            KeyboardInput::T => "T"@,
            KeyboardInput::U => "U"@,
            KeyboardInput::V => "V"@,
            KeyboardInput::W => "W"@,
            KeyboardInput::X => "X"@,
            KeyboardInput::Y => "Y"@,
            KeyboardInput::Z => "Z"@,
            KeyboardInput::TopRow1Exclamation => "TopRow1Exclamation"@,
            KeyboardInput::TopRow2At => "TopRow2At"@,
            KeyboardInput::TopRow3Hash => "TopRow3Hash"@,
            KeyboardInput::TopRow4Dollar => "TopRow4Dollar"@,
            KeyboardInput::TopRow5Percent => "TopRow5Percent"@,
            KeyboardInput::TopRow6Caret => "TopRow6Caret"@,
            KeyboardInput::TopRow7Ampersand => "TopRow7Ampersand"@,
            KeyboardInput::TopRow8Asterisk => "TopRow8Asterisk"@,
            KeyboardInput::TopRow9OpenParens => "TopRow9OpenParens"@,
            KeyboardInput::TopRow0CloseParens => "TopRow0CloseParens"@,
            KeyboardInput::Enter => "Enter"@,
            KeyboardInput::Escape => "Escape"@,
            KeyboardInput::Backspace => "Backspace"@,
            KeyboardInput::Tab => "Tab"@,
            KeyboardInput::Spacebar => "Spacebar"@,
            KeyboardInput::DashUnderscore => "DashUnderscore"@,
            KeyboardInput::EqualPlus => "EqualPlus"@,
            KeyboardInput::OpenBracketBrace => "OpenBracketBrace"@,
            KeyboardInput::CloseBracketBrace => "CloseBracketBrace"@,
            KeyboardInput::BackslashBar => "BackslashBar"@,
            KeyboardInput::NonUSHash => "NonUSHash"@,
            KeyboardInput::SemiColon => "SemiColon"@,
            KeyboardInput::SingleDoubleQuote => "SingleDoubleQuote"@,
            KeyboardInput::BacktickTilde => "BacktickTilde"@,
            KeyboardInput::CommaLessThan => "CommaLessThan"@,
            KeyboardInput::PeriodGreaterThan => "PeriodGreaterThan"@,
            KeyboardInput::SlashQuestion => "SlashQuestion"@,
            KeyboardInput::CapsLock => "CapsLock"@,
            KeyboardInput::F1 => "F1"@,
            KeyboardInput::F2 => "F2"@,
            KeyboardInput::F3 => "F3"@,
            KeyboardInput::F4 => "F4"@,
            KeyboardInput::F5 => "F5"@,
            KeyboardInput::F6 => "F6"@,
            KeyboardInput::F7 => "F7"@,
            KeyboardInput::F8 => "F8"@,
            KeyboardInput::F9 => "F9"@,
            KeyboardInput::F10 => "F10"@,
            KeyboardInput::F11 => "F11"@,
            KeyboardInput::F12 => "F12"@,
            KeyboardInput::PrintScreen => "PrintScreen"@,
            KeyboardInput::ScrollLock => "ScrollLock"@,
            KeyboardInput::Pause => "Pause"@,
            KeyboardInput::Insert => "Insert"@,
            KeyboardInput::Home => "Home"@,
            KeyboardInput::PageUp => "PageUp"@,
            KeyboardInput::Delete => "Delete"@,
            KeyboardInput::End => "End"@,
            KeyboardInput::PageDown => "PageDown"@,
            KeyboardInput::RightArrow => "RightArrow"@,
            KeyboardInput::LeftArrow => "LeftArrow"@,
            KeyboardInput::DownArrow => "DownArrow"@,
            KeyboardInput::UpArrow => "UpArrow"@,
            KeyboardInput::KeypadNumLock => "KeypadNumLock"@,
            KeyboardInput::KeypadDivide => "KeypadDivide"@,
            KeyboardInput::KeypadMultiply => "KeypadMultiply"@,
            KeyboardInput::KeypadMinus => "KeypadMinus"@,
            KeyboardInput::KeypadPlus => "KeypadPlus"@,
            KeyboardInput::KeypadEnter => "KeypadEnter"@,
            KeyboardInput::Keypad1End => "Keypad1End"@,
            KeyboardInput::Keypad2DownArrow => "Keypad2DownArrow"@,
            KeyboardInput::Keypad3PageDown => "Keypad3PageDown"@,
            KeyboardInput::Keypad4LeftArrow => "Keypad4LeftArrow"@,
            KeyboardInput::Keypad5 => "Keypad5"@,
            KeyboardInput::Keypad6RightArrow => "Keypad6RightArrow"@,
            KeyboardInput::Keypad7Home => "Keypad7Home"@,
            KeyboardInput::Keypad8UpArrow => "Keypad8UpArrow"@,
            KeyboardInput::Keypad9PageUp => "Keypad9PageUp"@,
            KeyboardInput::Keypad0Insert => "Keypad0Insert"@,
            KeyboardInput::KeypadPeriodDelete => "KeypadPeriodDelete"@,
            KeyboardInput::NonUSSlash => "NonUSSlash"@,
            KeyboardInput::Application => "Application"@,
            KeyboardInput::Power => "Power"@,
            KeyboardInput::KeypadEqual => "KeypadEqual"@,
            KeyboardInput::F13 => "F13"@,
            KeyboardInput::F14 => "F14"@,
            KeyboardInput::F15 => "F15"@,
            KeyboardInput::F16 => "F16"@,
            KeyboardInput::F17 => "F17"@,
            KeyboardInput::F18 => "F18"@,
            KeyboardInput::F19 => "F19"@,
            KeyboardInput::F20 => "F20"@,
            KeyboardInput::F21 => "F21"@,
            KeyboardInput::F22 => "F22"@,
            KeyboardInput::F23 => "F23"@,
            KeyboardInput::F24 => "F24"@,
            KeyboardInput::Execute => "Execute"@,
            KeyboardInput::Help => "Help"@,
            KeyboardInput::Menu => "Menu"@,
            KeyboardInput::Select => "Select"@,
            KeyboardInput::Stop => "Stop"@,
            KeyboardInput::Again => "Again"@,
            KeyboardInput::Undo => "Undo"@,
            KeyboardInput::Cut => "Cut"@,
            KeyboardInput::Copy => "Copy"@,
            KeyboardInput::Paste => "Paste"@,
            KeyboardInput::Find => "Find"@,
            KeyboardInput::Mute => "Mute"@,
            KeyboardInput::VolumeUp => "VolumeUp"@,
            KeyboardInput::VolumeDown => "VolumeDown"@,
            KeyboardInput::LockingCapsLock => "LockingCapsLock"@,
            KeyboardInput::LockingNumLock => "LockingNumLock"@,
            KeyboardInput::LockingScrollLock => "LockingScrollLock"@,
            KeyboardInput::KeypadComma => "KeypadComma"@,
            KeyboardInput::KeypadEqualSign => "KeypadEqualSign"@,
            KeyboardInput::International1 => "International1"@,
            KeyboardInput::International2 => "International2"@,
            KeyboardInput::International3 => "International3"@,
            KeyboardInput::International4 => "International4"@,
            KeyboardInput::International5 => "International5"@,
            KeyboardInput::International6 => "International6"@,
            KeyboardInput::International7 => "International7"@,
            KeyboardInput::International8 => "International8"@,
            KeyboardInput::International9 => "International9"@,
            KeyboardInput::LANG1 => "LANG1"@,
            KeyboardInput::LANG2 => "LANG2"@,
            KeyboardInput::LANG3 => "LANG3"@,
            KeyboardInput::LANG4 => "LANG4"@,
            KeyboardInput::LANG5 => "LANG5"@,
            KeyboardInput::LANG6 => "LANG6"@,
            KeyboardInput::LANG7 => "LANG7"@,
            KeyboardInput::LANG8 => "LANG8"@,
            KeyboardInput::LANG9 => "LANG9"@,
            KeyboardInput::AlternateErase => "AlternateErase"@,
            KeyboardInput::SysReqAttention => "SysReqAttention"@,
            KeyboardInput::Cancel => "Cancel"@,
            KeyboardInput::Clear => "Clear"@,
            KeyboardInput::Prior => "Prior"@,
            KeyboardInput::Return => "Return"@,
            KeyboardInput::Separator => "Separator"@,
            KeyboardInput::Out => "Out"@,
            KeyboardInput::Oper => "Oper"@,
            KeyboardInput::ClearAgain => "ClearAgain"@,
            KeyboardInput::CrSelProps => "CrSelProps"@,
            KeyboardInput::ExSel => "ExSel"@,
            KeyboardInput::Keypad00 => "Keypad00"@,
            KeyboardInput::Keypad000 => "Keypad000"@,
            KeyboardInput::ThousandsSeparator => "ThousandsSeparator"@,
            KeyboardInput::DecimalSeparator => "DecimalSeparator"@,
            KeyboardInput::CurrencyUnit => "CurrencyUnit"@,
            KeyboardInput::CurrencySubunit => "CurrencySubunit"@,
            KeyboardInput::KeypadOpenParens => "KeypadOpenParens"@,
            KeyboardInput::KeypadCloseParens => "KeypadCloseParens"@,
            KeyboardInput::KeypadOpenBrace => "KeypadOpenBrace"@,
            KeyboardInput::KeypadCloseBrace => "KeypadCloseBrace"@,
            KeyboardInput::KeypadTab => "KeypadTab"@,
            KeyboardInput::KeypadBackspace => "KeypadBackspace"@,
            KeyboardInput::KeypadA => "KeypadA"@,
            KeyboardInput::KeypadB => "KeypadB"@,
            KeyboardInput::KeypadC => "KeypadC"@,
            KeyboardInput::KeypadD => "KeypadD"@,
            KeyboardInput::KeypadE => "KeypadE"@,
            KeyboardInput::KeypadF => "KeypadF"@,
            KeyboardInput::KeypadBitwiseXor => "KeypadBitwiseXor"@,
            KeyboardInput::KeypadLogicalXor => "KeypadLogicalXor"@,
            KeyboardInput::KeypadModulo => "KeypadModulo"@,
            KeyboardInput::KeypadLeftShift => "KeypadLeftShift"@,
            KeyboardInput::KeypadRightShift => "KeypadRightShift"@,
            KeyboardInput::KeypadBitwiseAnd => "KeypadBitwiseAnd"@,
            KeyboardInput::KeypadLogicalAnd => "KeypadLogicalAnd"@,
            KeyboardInput::KeypadBitwiseOr => "KeypadBitwiseOr"@,
            KeyboardInput::KeypadLogicalOr => "KeypadLogicalOr"@,
            KeyboardInput::KeypadColon => "KeypadColon"@,
            KeyboardInput::KeypadHash => "KeypadHash"@,
            KeyboardInput::KeypadSpace => "KeypadSpace"@,
            KeyboardInput::KeypadAt => "KeypadAt"@,
            KeyboardInput::KeypadExclamation => "KeypadExclamation"@,
            KeyboardInput::KeypadMemoryStore => "KeypadMemoryStore"@,
            KeyboardInput::KeypadMemoryRecall => "KeypadMemoryRecall"@,
            KeyboardInput::KeypadMemoryClear => "KeypadMemoryClear"@,
            KeyboardInput::KeypadMemoryAdd => "KeypadMemoryAdd"@,
            KeyboardInput::KeypadMemorySubtract => "KeypadMemorySubtract"@,
            KeyboardInput::KeypadMemoryMultiply => "KeypadMemoryMultiply"@,
            KeyboardInput::KeypadMemoryDivide => "KeypadMemoryDivide"@,
            KeyboardInput::KeypadPositiveNegative => "KeypadPositiveNegative"@,
            KeyboardInput::KeypadClear => "KeypadClear"@,
            KeyboardInput::KeypadClearEntry => "KeypadClearEntry"@,
            KeyboardInput::KeypadBinary => "KeypadBinary"@,
            KeyboardInput::KeypadOctal => "KeypadOctal"@,
            KeyboardInput::KeypadDecimal => "KeypadDecimal"@,
            KeyboardInput::KeypadHexadecimal => "KeypadHexadecimal"@,
            KeyboardInput::LeftControl => "LeftControl"@,
            KeyboardInput::LeftShift => "LeftShift"@,
            KeyboardInput::LeftAlt => "LeftAlt"@,
            KeyboardInput::LeftWindows => "LeftWindows"@,
            KeyboardInput::RightControl => "RightControl"@,
            KeyboardInput::RightShift => "RightShift"@,
            KeyboardInput::RightAlt => "RightAlt"@,
            KeyboardInput::RightWindows => "RightWindows"@,
        }
    }
}

/// Every key, in the order of the usage table.
pub open spec fn all_keys() -> Seq<KeyboardInput> {
    seq![
        KeyboardInput::A,
        KeyboardInput::B,
        KeyboardInput::C,
        KeyboardInput::D,
        KeyboardInput::E,
        KeyboardInput::F,
        KeyboardInput::G,
        KeyboardInput::H,
        KeyboardInput::I,
        KeyboardInput::J,
        KeyboardInput::K,
        KeyboardInput::L,
        KeyboardInput::M,
        KeyboardInput::N,
        KeyboardInput::O,
        KeyboardInput::P,
        KeyboardInput::Q,
        KeyboardInput::R,
        KeyboardInput::S,
        KeyboardInput::T,
        KeyboardInput::U,
        KeyboardInput::V,
        KeyboardInput::W,
        KeyboardInput::X,
        KeyboardInput::Y,
        KeyboardInput::Z,
        KeyboardInput::TopRow1Exclamation,
        KeyboardInput::TopRow2At,
        KeyboardInput::TopRow3Hash,
        KeyboardInput::TopRow4Dollar,
        KeyboardInput::TopRow5Percent,
        KeyboardInput::TopRow6Caret,
        KeyboardInput::TopRow7Ampersand,
        KeyboardInput::TopRow8Asterisk,
        KeyboardInput::TopRow9OpenParens,
        KeyboardInput::TopRow0CloseParens,
        KeyboardInput::Enter,
        KeyboardInput::Escape,
        KeyboardInput::Backspace,
        KeyboardInput::Tab,
        KeyboardInput::Spacebar,
        KeyboardInput::DashUnderscore,
        KeyboardInput::EqualPlus,
        KeyboardInput::OpenBracketBrace,
        KeyboardInput::CloseBracketBrace,
        KeyboardInput::BackslashBar,
        KeyboardInput::NonUSHash,
        KeyboardInput::SemiColon,
        KeyboardInput::SingleDoubleQuote,
        KeyboardInput::BacktickTilde,
        KeyboardInput::CommaLessThan,
        KeyboardInput::PeriodGreaterThan,
        KeyboardInput::SlashQuestion,
        KeyboardInput::CapsLock,
        KeyboardInput::F1,
        KeyboardInput::F2,
        KeyboardInput::F3,
        KeyboardInput::F4,
        KeyboardInput::F5,
        KeyboardInput::F6,
        KeyboardInput::F7,
        KeyboardInput::F8,
        KeyboardInput::F9,
        KeyboardInput::F10,
        KeyboardInput::F11,
        KeyboardInput::F12,
        KeyboardInput::PrintScreen,
        KeyboardInput::ScrollLock,
        KeyboardInput::Pause,
        KeyboardInput::Insert,
        KeyboardInput::Home,
        KeyboardInput::PageUp,
        KeyboardInput::Delete,
        KeyboardInput::End,
        KeyboardInput::PageDown,
        KeyboardInput::RightArrow,
        KeyboardInput::LeftArrow,
        KeyboardInput::DownArrow,
        KeyboardInput::UpArrow,
        KeyboardInput::KeypadNumLock,
        KeyboardInput::KeypadDivide,
        KeyboardInput::KeypadMultiply,
        KeyboardInput::KeypadMinus,
        KeyboardInput::KeypadPlus,
        KeyboardInput::KeypadEnter,
        KeyboardInput::Keypad1End,
        KeyboardInput::Keypad2DownArrow,
        KeyboardInput::Keypad3PageDown,
        KeyboardInput::Keypad4LeftArrow,
        KeyboardInput::Keypad5,
        KeyboardInput::Keypad6RightArrow,
        KeyboardInput::Keypad7Home,
        KeyboardInput::Keypad8UpArrow,
        KeyboardInput::Keypad9PageUp,
        KeyboardInput::Keypad0Insert,
        KeyboardInput::KeypadPeriodDelete,
        KeyboardInput::NonUSSlash,
        KeyboardInput::Application,
        KeyboardInput::Power,
        KeyboardInput::KeypadEqual,
        KeyboardInput::F13,
        KeyboardInput::F14,
        KeyboardInput::F15,
        KeyboardInput::F16,
        KeyboardInput::F17,
        KeyboardInput::F18,
        KeyboardInput::F19,
        KeyboardInput::F20,
        KeyboardInput::F21,
        KeyboardInput::F22,
        KeyboardInput::F23,
        KeyboardInput::F24,
        KeyboardInput::Execute,
        KeyboardInput::Help,
        KeyboardInput::Menu,
        KeyboardInput::Select,
        KeyboardInput::Stop,
        KeyboardInput::Again,
        KeyboardInput::Undo,
        KeyboardInput::Cut,
        KeyboardInput::Copy,
        KeyboardInput::Paste,
        KeyboardInput::Find,
        KeyboardInput::Mute,
        KeyboardInput::VolumeUp,
        KeyboardInput::VolumeDown,
        KeyboardInput::LockingCapsLock,
        KeyboardInput::LockingNumLock,
        KeyboardInput::LockingScrollLock,
        KeyboardInput::KeypadComma,
        KeyboardInput::KeypadEqualSign,
        KeyboardInput::International1,
        KeyboardInput::International2,
        KeyboardInput::International3,
        KeyboardInput::International4,
        KeyboardInput::International5,
        KeyboardInput::International6,
        KeyboardInput::International7,
        KeyboardInput::International8,
        KeyboardInput::International9,
        KeyboardInput::LANG1,
        KeyboardInput::LANG2,
        KeyboardInput::LANG3,
        KeyboardInput::LANG4,
        KeyboardInput::LANG5,
        KeyboardInput::LANG6,
        KeyboardInput::LANG7,
        KeyboardInput::LANG8,
        KeyboardInput::LANG9,
        KeyboardInput::AlternateErase,
        KeyboardInput::SysReqAttention,
        KeyboardInput::Cancel,
        KeyboardInput::Clear,
        KeyboardInput::Prior,
        KeyboardInput::Return,
        KeyboardInput::Separator,
        KeyboardInput::Out,
        KeyboardInput::Oper,
        KeyboardInput::ClearAgain,
        KeyboardInput::CrSelProps,
        KeyboardInput::ExSel,
        KeyboardInput::Keypad00,
        KeyboardInput::Keypad000,
        KeyboardInput::ThousandsSeparator,
        KeyboardInput::DecimalSeparator,
        KeyboardInput::CurrencyUnit,
        KeyboardInput::CurrencySubunit,
        KeyboardInput::KeypadOpenParens,
        KeyboardInput::KeypadCloseParens,
        KeyboardInput::KeypadOpenBrace,
        KeyboardInput::KeypadCloseBrace,
        KeyboardInput::KeypadTab,
        KeyboardInput::KeypadBackspace,
        KeyboardInput::KeypadA,
        KeyboardInput::KeypadB,
        KeyboardInput::KeypadC,
        KeyboardInput::KeypadD,
        KeyboardInput::KeypadE,
        KeyboardInput::KeypadF,
        KeyboardInput::KeypadBitwiseXor,
        KeyboardInput::KeypadLogicalXor,
        KeyboardInput::KeypadModulo,
        KeyboardInput::KeypadLeftShift,
        KeyboardInput::KeypadRightShift,
        KeyboardInput::KeypadBitwiseAnd,
        KeyboardInput::KeypadLogicalAnd,
        KeyboardInput::KeypadBitwiseOr,
        KeyboardInput::KeypadLogicalOr,
        KeyboardInput::KeypadColon,
        KeyboardInput::KeypadHash,
        KeyboardInput::KeypadSpace,
        KeyboardInput::KeypadAt,
        KeyboardInput::KeypadExclamation,
        KeyboardInput::KeypadMemoryStore,
        KeyboardInput::KeypadMemoryRecall,
        KeyboardInput::KeypadMemoryClear,
        KeyboardInput::KeypadMemoryAdd,
        KeyboardInput::KeypadMemorySubtract,
        KeyboardInput::KeypadMemoryMultiply,
        KeyboardInput::KeypadMemoryDivide,
        KeyboardInput::KeypadPositiveNegative,
        KeyboardInput::KeypadClear,
        KeyboardInput::KeypadClearEntry,
        KeyboardInput::KeypadBinary,
        KeyboardInput::KeypadOctal,
        KeyboardInput::KeypadDecimal,
        KeyboardInput::KeypadHexadecimal,
        KeyboardInput::LeftControl,
        KeyboardInput::LeftShift,
        KeyboardInput::LeftAlt,
        KeyboardInput::LeftWindows,
        KeyboardInput::RightControl,
        KeyboardInput::RightShift,
        KeyboardInput::RightAlt,
        KeyboardInput::RightWindows,
    ]
}

/// The keys that a configuration form offers first.
pub open spec fn common_keys() -> Seq<KeyboardInput> {
    seq![
        KeyboardInput::RightArrow,
        KeyboardInput::LeftArrow,
        KeyboardInput::DownArrow,
        KeyboardInput::UpArrow,
        KeyboardInput::PageUp,
        KeyboardInput::PageDown,
        KeyboardInput::Tab,
        KeyboardInput::Escape,
        KeyboardInput::A,
        KeyboardInput::B,
        KeyboardInput::C,
        KeyboardInput::D,
        KeyboardInput::E,
        KeyboardInput::F,
        KeyboardInput::G,
        KeyboardInput::H,
        KeyboardInput::I,
        KeyboardInput::J,
        KeyboardInput::K,
        KeyboardInput::L,
        KeyboardInput::M,
        KeyboardInput::N,
        KeyboardInput::O,
        KeyboardInput::P,
        KeyboardInput::Q,
        KeyboardInput::R,
        KeyboardInput::S,
        KeyboardInput::T,
        KeyboardInput::U,
        KeyboardInput::V,
        KeyboardInput::W,
        KeyboardInput::X,
        KeyboardInput::Y,
        KeyboardInput::Z,
        KeyboardInput::TopRow1Exclamation,
        KeyboardInput::TopRow2At,
        KeyboardInput::TopRow3Hash,
        KeyboardInput::TopRow4Dollar,
        KeyboardInput::TopRow5Percent,
        KeyboardInput::TopRow6Caret,
        KeyboardInput::TopRow7Ampersand,
        KeyboardInput::TopRow8Asterisk,
        KeyboardInput::TopRow9OpenParens,
        KeyboardInput::TopRow0CloseParens,
        KeyboardInput::Enter,
        KeyboardInput::Backspace,
        KeyboardInput::Delete,
        KeyboardInput::Spacebar,
        KeyboardInput::DashUnderscore,
        KeyboardInput::EqualPlus,
        KeyboardInput::OpenBracketBrace,
        KeyboardInput::CloseBracketBrace,
        KeyboardInput::BackslashBar,
        KeyboardInput::NonUSHash,
        KeyboardInput::SemiColon,
        KeyboardInput::SingleDoubleQuote,
        KeyboardInput::BacktickTilde,
        KeyboardInput::CommaLessThan,
        KeyboardInput::PeriodGreaterThan,
        KeyboardInput::SlashQuestion,
        KeyboardInput::F1,
        KeyboardInput::F2,
        KeyboardInput::F3,
        KeyboardInput::F4,
        KeyboardInput::F5,
        KeyboardInput::F6,
        KeyboardInput::F7,
        KeyboardInput::F8,
        KeyboardInput::F9,
        KeyboardInput::F10,
        KeyboardInput::F11,
        KeyboardInput::F12,
        KeyboardInput::LeftControl,
        KeyboardInput::LeftShift,
        KeyboardInput::LeftAlt,
        KeyboardInput::LeftWindows,
        KeyboardInput::RightControl,
        KeyboardInput::RightShift,
        KeyboardInput::RightAlt,
        KeyboardInput::RightWindows,
        KeyboardInput::PrintScreen,
        KeyboardInput::Pause,
        KeyboardInput::Insert,
        KeyboardInput::Home,
        KeyboardInput::End,
        KeyboardInput::Power,
        KeyboardInput::Cut,
        KeyboardInput::Copy,
        KeyboardInput::Paste,
        KeyboardInput::Find,
        KeyboardInput::Mute,
        KeyboardInput::VolumeUp,
        KeyboardInput::VolumeDown,
    ]
}

/// Every key, in the order of the usage table.
pub fn all_keys_vec() -> (r: Vec<KeyboardInput>)
    ensures
        r@ == all_keys(),
{
    let r = vec![
        KeyboardInput::A,
        KeyboardInput::B,
        KeyboardInput::C,
        KeyboardInput::D,
        KeyboardInput::E,
        KeyboardInput::F,
        KeyboardInput::G,
        KeyboardInput::H,
        KeyboardInput::I,
        KeyboardInput::J,
        KeyboardInput::K,
        KeyboardInput::L,
        KeyboardInput::M,
        KeyboardInput::N,
        KeyboardInput::O,
        KeyboardInput::P,
        KeyboardInput::Q,
        KeyboardInput::R,
        KeyboardInput::S,
        KeyboardInput::T,
        KeyboardInput::U,
        KeyboardInput::V,
        KeyboardInput::W,
        KeyboardInput::X,
        KeyboardInput::Y,
        KeyboardInput::Z,
        KeyboardInput::TopRow1Exclamation,
        KeyboardInput::TopRow2At,
        KeyboardInput::TopRow3Hash,
        KeyboardInput::TopRow4Dollar,
        KeyboardInput::TopRow5Percent,
        KeyboardInput::TopRow6Caret,
        KeyboardInput::TopRow7Ampersand,
        KeyboardInput::TopRow8Asterisk,
        KeyboardInput::TopRow9OpenParens,
        KeyboardInput::TopRow0CloseParens,
        KeyboardInput::Enter,
        KeyboardInput::Escape,
        KeyboardInput::Backspace,
        KeyboardInput::Tab,
        KeyboardInput::Spacebar,
        KeyboardInput::DashUnderscore,
        KeyboardInput::EqualPlus,
        KeyboardInput::OpenBracketBrace,
        KeyboardInput::CloseBracketBrace,
        KeyboardInput::BackslashBar,
        KeyboardInput::NonUSHash,
        KeyboardInput::SemiColon,
        KeyboardInput::SingleDoubleQuote,
        KeyboardInput::BacktickTilde,
        KeyboardInput::CommaLessThan,
        KeyboardInput::PeriodGreaterThan,
        KeyboardInput::SlashQuestion,
        KeyboardInput::CapsLock,
        KeyboardInput::F1,
        KeyboardInput::F2,
        KeyboardInput::F3,
        KeyboardInput::F4,
        KeyboardInput::F5,
        KeyboardInput::F6,
        KeyboardInput::F7,
        KeyboardInput::F8,
        KeyboardInput::F9,
        KeyboardInput::F10,
        KeyboardInput::F11,
        KeyboardInput::F12,
        KeyboardInput::PrintScreen,
        KeyboardInput::ScrollLock,
        KeyboardInput::Pause,
        KeyboardInput::Insert,
        KeyboardInput::Home,
        KeyboardInput::PageUp,
        KeyboardInput::Delete,
        KeyboardInput::End,
        KeyboardInput::PageDown,
        KeyboardInput::RightArrow,
        KeyboardInput::LeftArrow,
        KeyboardInput::DownArrow,
        KeyboardInput::UpArrow,
        KeyboardInput::KeypadNumLock,
        KeyboardInput::KeypadDivide,
        KeyboardInput::KeypadMultiply,
        KeyboardInput::KeypadMinus,
        KeyboardInput::KeypadPlus,
        KeyboardInput::KeypadEnter,
        KeyboardInput::Keypad1End,
        KeyboardInput::Keypad2DownArrow,
        KeyboardInput::Keypad3PageDown,
        KeyboardInput::Keypad4LeftArrow,
        KeyboardInput::Keypad5,
        KeyboardInput::Keypad6RightArrow,
        KeyboardInput::Keypad7Home,
        KeyboardInput::Keypad8UpArrow,
        KeyboardInput::Keypad9PageUp,
        KeyboardInput::Keypad0Insert,
        KeyboardInput::KeypadPeriodDelete,
        KeyboardInput::NonUSSlash,
        KeyboardInput::Application,
        KeyboardInput::Power,
        KeyboardInput::KeypadEqual,
        KeyboardInput::F13,
        KeyboardInput::F14,
        KeyboardInput::F15,
        KeyboardInput::F16,
        KeyboardInput::F17,
        KeyboardInput::F18,
        KeyboardInput::F19,
        KeyboardInput::F20,
        KeyboardInput::F21,
        KeyboardInput::F22,
        KeyboardInput::F23,
        KeyboardInput::F24,
        KeyboardInput::Execute,
        KeyboardInput::Help,
        KeyboardInput::Menu,
        KeyboardInput::Select,
        KeyboardInput::Stop,
        KeyboardInput::Again,
        KeyboardInput::Undo,
        KeyboardInput::Cut,
        KeyboardInput::Copy,
        KeyboardInput::Paste,
        KeyboardInput::Find,
        KeyboardInput::Mute,
        KeyboardInput::VolumeUp,
        KeyboardInput::VolumeDown,
        KeyboardInput::LockingCapsLock,
        KeyboardInput::LockingNumLock,
        KeyboardInput::LockingScrollLock,
        KeyboardInput::KeypadComma,
        KeyboardInput::KeypadEqualSign,
        KeyboardInput::International1,
        KeyboardInput::International2,
        KeyboardInput::International3,
        KeyboardInput::International4,
        KeyboardInput::International5,
        KeyboardInput::International6,
        KeyboardInput::International7,
        KeyboardInput::International8,
        KeyboardInput::International9,
        KeyboardInput::LANG1,
        KeyboardInput::LANG2,
        KeyboardInput::LANG3,
        KeyboardInput::LANG4,
        KeyboardInput::LANG5,
        KeyboardInput::LANG6,
        KeyboardInput::LANG7,
        KeyboardInput::LANG8,
        KeyboardInput::LANG9,
        KeyboardInput::AlternateErase,
        KeyboardInput::SysReqAttention,
        KeyboardInput::Cancel,
        KeyboardInput::Clear,
        KeyboardInput::Prior,
        KeyboardInput::Return,
        KeyboardInput::Separator,
        KeyboardInput::Out,
        KeyboardInput::Oper,
        KeyboardInput::ClearAgain,
        KeyboardInput::CrSelProps,
        KeyboardInput::ExSel,
        KeyboardInput::Keypad00,
        KeyboardInput::Keypad000,
        KeyboardInput::ThousandsSeparator,
        KeyboardInput::DecimalSeparator,
        KeyboardInput::CurrencyUnit,
        KeyboardInput::CurrencySubunit,
        KeyboardInput::KeypadOpenParens,
        KeyboardInput::KeypadCloseParens,
        KeyboardInput::KeypadOpenBrace,
        KeyboardInput::KeypadCloseBrace,
        KeyboardInput::KeypadTab,
        KeyboardInput::KeypadBackspace,
        KeyboardInput::KeypadA,
        KeyboardInput::KeypadB,
        KeyboardInput::KeypadC,
        KeyboardInput::KeypadD,
        KeyboardInput::KeypadE,
        KeyboardInput::KeypadF,
        KeyboardInput::KeypadBitwiseXor,
        KeyboardInput::KeypadLogicalXor,
        KeyboardInput::KeypadModulo,
        KeyboardInput::KeypadLeftShift,
        KeyboardInput::KeypadRightShift,
        KeyboardInput::KeypadBitwiseAnd,
        KeyboardInput::KeypadLogicalAnd,
        KeyboardInput::KeypadBitwiseOr,
        KeyboardInput::KeypadLogicalOr,
        KeyboardInput::KeypadColon,
        KeyboardInput::KeypadHash,
        KeyboardInput::KeypadSpace,
        KeyboardInput::KeypadAt,
        KeyboardInput::KeypadExclamation,
        KeyboardInput::KeypadMemoryStore,
        KeyboardInput::KeypadMemoryRecall,
        KeyboardInput::KeypadMemoryClear,
        KeyboardInput::KeypadMemoryAdd,
        KeyboardInput::KeypadMemorySubtract,
        KeyboardInput::KeypadMemoryMultiply,
        KeyboardInput::KeypadMemoryDivide,
        KeyboardInput::KeypadPositiveNegative,
        KeyboardInput::KeypadClear,
        KeyboardInput::KeypadClearEntry,
        KeyboardInput::KeypadBinary,
        KeyboardInput::KeypadOctal,
        KeyboardInput::KeypadDecimal,
        KeyboardInput::KeypadHexadecimal,
        KeyboardInput::LeftControl,
        KeyboardInput::LeftShift,
        KeyboardInput::LeftAlt,
        KeyboardInput::LeftWindows,
        KeyboardInput::RightControl,
        KeyboardInput::RightShift,
        KeyboardInput::RightAlt,
        KeyboardInput::RightWindows,
    ];
    assert(r@ == all_keys());
    r
}

/// The keys that a configuration form offers first.
pub fn common_keys_vec() -> (r: Vec<KeyboardInput>)
    ensures
        r@ == common_keys(),
{
    let r = vec![
        KeyboardInput::RightArrow,
        KeyboardInput::LeftArrow,
        KeyboardInput::DownArrow,
        KeyboardInput::UpArrow,
        KeyboardInput::PageUp,
        KeyboardInput::PageDown,
        KeyboardInput::Tab,
        KeyboardInput::Escape,
        KeyboardInput::A,
        KeyboardInput::B,
        KeyboardInput::C,
        KeyboardInput::D,
        KeyboardInput::E,
        KeyboardInput::F,
        KeyboardInput::G,
        KeyboardInput::H,
        KeyboardInput::I,
        KeyboardInput::J,
        KeyboardInput::K,
        KeyboardInput::L,
        KeyboardInput::M,
        KeyboardInput::N,
        KeyboardInput::O,
        KeyboardInput::P,
        KeyboardInput::Q,
        KeyboardInput::R,
        KeyboardInput::S,
        KeyboardInput::T,
        KeyboardInput::U,
        KeyboardInput::V,
        KeyboardInput::W,
        KeyboardInput::X,
        KeyboardInput::Y,
        KeyboardInput::Z,
        KeyboardInput::TopRow1Exclamation,
        KeyboardInput::TopRow2At,
        KeyboardInput::TopRow3Hash,
        KeyboardInput::TopRow4Dollar,
        KeyboardInput::TopRow5Percent,
        KeyboardInput::TopRow6Caret,
        KeyboardInput::TopRow7Ampersand,
        KeyboardInput::TopRow8Asterisk,
        KeyboardInput::TopRow9OpenParens,
        KeyboardInput::TopRow0CloseParens,
        KeyboardInput::Enter,
        KeyboardInput::Backspace,
        KeyboardInput::Delete,
        KeyboardInput::Spacebar,
        KeyboardInput::DashUnderscore,
        KeyboardInput::EqualPlus,
        KeyboardInput::OpenBracketBrace,
        KeyboardInput::CloseBracketBrace,
        KeyboardInput::BackslashBar,
        KeyboardInput::NonUSHash,
        KeyboardInput::SemiColon,
        KeyboardInput::SingleDoubleQuote,
        KeyboardInput::BacktickTilde,
        KeyboardInput::CommaLessThan,
        KeyboardInput::PeriodGreaterThan,
        KeyboardInput::SlashQuestion,
        KeyboardInput::F1,
        KeyboardInput::F2,
        KeyboardInput::F3,
        KeyboardInput::F4,
        KeyboardInput::F5,
        KeyboardInput::F6,
        KeyboardInput::F7,
        KeyboardInput::F8,
        KeyboardInput::F9,
        KeyboardInput::F10,
        KeyboardInput::F11,
        KeyboardInput::F12,
        KeyboardInput::LeftControl,
        KeyboardInput::LeftShift,
        KeyboardInput::LeftAlt,
        KeyboardInput::LeftWindows,
        KeyboardInput::RightControl,
        KeyboardInput::RightShift,
        KeyboardInput::RightAlt,
        KeyboardInput::RightWindows,
        KeyboardInput::PrintScreen,
        KeyboardInput::Pause,
        KeyboardInput::Insert,
        KeyboardInput::Home,
        KeyboardInput::End,
        KeyboardInput::Power,
        KeyboardInput::Cut,
        KeyboardInput::Copy,
        KeyboardInput::Paste,
        KeyboardInput::Find,
        KeyboardInput::Mute,
        KeyboardInput::VolumeUp,
        KeyboardInput::VolumeDown,
    ];
    assert(r@ == common_keys());
    r
}
/// The first key of `keys` whose name is `name`.
pub open spec fn first_named(keys: Seq<KeyboardInput>, name: Seq<char>) -> Option<KeyboardInput>
    decreases keys.len(),
{
    if keys.len() == 0 {
        None
    } else if keys[0].spec_name() == name {
        Some(keys[0])
    } else {
        first_named(keys.drop_first(), name)
    }
}

/// Whether a key is not among the common keys.
pub open spec fn is_obscure(k: KeyboardInput) -> bool {
    !common_keys().contains(k)
}

impl KeyboardInput {
    /// The key whose name is `s`, if any.
    pub open spec fn spec_from_str(s: Seq<char>) -> Option<KeyboardInput> {
        first_named(all_keys(), s)
    }

    /// The key whose name is exactly `s` (case-sensitive), or `None`.
    pub fn from_str(s: &str) -> (r: Option<KeyboardInput>)
        ensures
            r == Self::spec_from_str(s@),
    {
        let keys = all_keys_vec();
        let mut i: usize = 0;
        assert(keys@.skip(0) == keys@);
        while i < keys.len()
            invariant
                keys@ == all_keys(),
                i <= keys@.len(),
                first_named(all_keys(), s@) == first_named(keys@.skip(i as int), s@),
            decreases keys.len() - i,
        {
            let k = keys[i];
            assert(keys@.skip(i as int)[0] == k);
            assert(keys@.skip(i as int).drop_first() == keys@.skip(i + 1));
            if str_eq(k.name(), s) {
                return Some(k);
            }
            i = i + 1;
        }
        None
    }

    /// The key whose name is exactly the characters `s`, or `None`.
    pub fn from_chars(s: &[char]) -> (r: Option<KeyboardInput>)
        ensures
            r == Self::spec_from_str(s@),
    {
        let keys = all_keys_vec();
        let mut i: usize = 0;
        assert(keys@.skip(0) == keys@);
        while i < keys.len()
            invariant
                keys@ == all_keys(),
                i <= keys@.len(),
                first_named(all_keys(), s@) == first_named(keys@.skip(i as int), s@),
            decreases keys.len() - i,
        {
            let k = keys[i];
            assert(keys@.skip(i as int)[0] == k);
            assert(keys@.skip(i as int).drop_first() == keys@.skip(i + 1));
            if chars_eq(s, k.name()) {
                return Some(k);
            }
            i = i + 1;
        }
        None
    }

    /// The common keys, in the order a configuration form lists them.
    pub fn common_iter() -> (r: Vec<KeyboardInput>)
        ensures
            r@ == common_keys(),
    {
        common_keys_vec()
    }

    /// Every key that is not common, in the order of the usage table.
    pub fn obscure_iter() -> (r: Vec<KeyboardInput>)
        ensures
            r@ == all_keys().filter(|k: KeyboardInput| is_obscure(k)),
    {
        let keys = all_keys_vec();
        let common = common_keys_vec();
        let mut r: Vec<KeyboardInput> = Vec::new();
        let mut i: usize = 0;
        while i < keys.len()
            invariant
                keys@ == all_keys(),
                common@ == common_keys(),
                i <= keys@.len(),
                r@ == keys@.take(i as int).filter(|k: KeyboardInput| is_obscure(k)),
            decreases keys.len() - i,
        {
            let k = keys[i];
            let c = contains_key(&common, k);
            assert(keys@.take(i + 1) == keys@.take(i as int).push(k));
            reveal(Seq::filter);
            assert(keys@.take(i + 1).drop_last() == keys@.take(i as int));
            if !c {
                r.push(k);
            }
            i = i + 1;
        }
        assert(keys@.take(keys@.len() as int) == keys@);
        r
    }
}

/// Whether `keys` holds `k`.
fn contains_key(keys: &Vec<KeyboardInput>, k: KeyboardInput) -> (r: bool)
    ensures
        r == keys@.contains(k),
{
    let mut i: usize = 0;
    while i < keys.len()
        invariant
            i <= keys@.len(),
            forall|j: int| 0 <= j < i ==> keys@[j] != k,
        decreases keys.len() - i,
    {
        if keys[i] == k {
            assert(keys@[i as int] == k);
            return true;
        }
        i = i + 1;
    }
    false
}

impl Default for KeyboardInput {
    fn default() -> (r: KeyboardInput)
        ensures
            r == KeyboardInput::A,
    {
        KeyboardInput::A
    }
}

} // verus!
