use vstd::prelude::*;

verus! {

/// Virtual key codes of the host keyboard input facility.
#[derive(Debug, Clone, Copy, PartialEq, Eq, Structural)]
pub enum VirtualKey {
    /// Left mouse button
    LMouseButton,
    /// Right mouse button
    RMouseButton,
    /// Control-break processing
    Cancel,
    /// Middle mouse button (three-button mouse)
    MiddleMouseButton,
    /// X1 mouse button
    XMouseButton1,
    /// X2 mouse button
    XMouseButton2,
    /// BACKSPACE key
    Backspace,
    /// TAB key
    Tab,
    /// CLEAR key
    Clear,
    /// ENTER key
    Enter,
    /// SHIFT key
    Shift,
    /// CTRL key
    Control,
    /// ALT key
    Alt,
    /// PAUSE key
    Pause,
    /// CAPS LOCK key
    CapsLock,
    /// IME Kana mode or HANGUL/HANGUEL mode
    KanaHangulHanguel,
    /// IME Junja mode
    Junja,
    /// IME final mode
    Final,
    /// IME Hanja or Kanji mode
    HanjaKanji,
    /// ESC key
    Escape,
    /// IME convert
    Convert,
    /// IME nonconvert
    NonConvert,
    /// IME accept
    Accept,
    /// IME mode change request
    ModeChange,
    /// SPACEBAR
    Space,
    /// PAGE UP key
    PageUp,
    /// PAGE DOWN key
    PageDown,
    /// END key
    End,
    /// HOME key
    Home,
    /// LEFT ARROW key
    Left,
    /// UP ARROW key
    Up,
    /// RIGHT ARROW key
    Right,
    /// DOWN ARROW key
    Down,
    /// SELECT key
    Select,
    /// PRINT key
    Print,
    /// EXECUTE key
    Execute,
    /// PRINT SCREEN key
    PrintScreen,
    /// INS key
    Insert,
    /// DEL key
    Delete,
    /// HELP key
    Help,
    /// 0 key
    N0,
    /// 1 key
    N1,
    /// 2 key
    N2,
    /// 3 key
    N3,
    /// 4 key
    N4,
    /// 5 key
    N5,
    /// 6 key
    N6,
    /// 7 key
    N7,
    /// 8 key
    N8,
    /// 9 key
    N9,
    /// A key
    A,
    /// B key
    B,
    /// C key
    C,
    /// D key
    D,
    /// E key
    E,
    /// F key
    F,
    /// G key
    G,
    /// H key
    H,
    /// I key
    I,
    /// J key
    J,
    /// K key
    K,
    /// L key
    L,
    /// M key
    M,
    /// N key
    N,
    /// O key
    O,
    /// P key
    P,
    /// Q key
    Q,
    /// R key
    R,
    /// S key
    S,
    /// T key
    T,
    /// U key
    U,
    /// V key
    V,
    /// W key
    W,
    /// X key
    X,
    /// Y key
    Y,
    /// Z key
    Z,
    /// Left Windows key (Natural keyboard)
    LWin,
    /// Right Windows key (Natural keyboard)
    RWin,
    /// Applications key (Natural keyboard)
    Apps,
    /// Computer Sleep key
    Sleep,
    /// Numeric keypad 0 key
    Numpad0,
    /// Numeric keypad 1 key
    Numpad1,
    /// Numeric keypad 2 key
    Numpad2,
    /// Numeric keypad 3 key
    Numpad3,
    /// Numeric keypad 4 key
    Numpad4,
    /// Numeric keypad 5 key
    Numpad5,
    /// Numeric keypad 6 key
    Numpad6,
    /// Numeric keypad 7 key
    Numpad7,
    /// Numeric keypad 8 key
    Numpad8,
    /// Numeric keypad 9 key
    Numpad9,
    /// Multiply key
    Multiply,
    /// Add key
    Add,
    /// Separator key
    Seperator,
    /// Subtract key
    Subtract,
    /// Decimal key
    Decimal,
    /// Divide key
    Divide,
    /// F1 key
    F1,
    /// F2 key
    F2,
    /// F3 key
    F3,
    /// F4 key
    F4,
    /// F5 key
    F5,
    /// F6 key
    F6,
    /// F7 key
    F7,
    /// F8 key
    F8,
    /// F9 key
    F9,
    /// F10 key
    F10,
    /// F11 key
    F11,
    /// F12 key
    F12,
    /// F13 key
    F13,
    /// F14 key
    F14,
    /// F15 key
    F15,
    /// F16 key
    F16,
    /// F17 key
    F17,
    /// F18 key
    F18,
    /// F19 key
    F19,
    /// F20 key
    F20,
    /// F21 key
    F21,
    /// F22 key
    F22,
    /// F23 key
    F23,
    /// F24 key
    F24,
    /// NUM LOCK key
    Numlock,
    /// SCROLL LOCK key
    Scroll,
    /// Left SHIFT key
    LShift,
    /// Right SHIFT key
    RShift,
    /// Left CONTROL key
    LControl,
    /// Right CONTROL key
    RControl,
    /// Left MENU key
    LMenu,
    /// Right MENU key
    RMenu,
    /// Browser Back key
    BrowserBack,
    /// Browser Forward key
    BrowserForward,
    /// Browser Refresh key
    BrowserRefresh,
    /// Browser Stop key
    BrowserStop,
    /// Browser Search key
    BrowserSearch,
    /// Browser Favorites key
    BrowserFavorites,
    /// Browser Start and Home key
    BrowserHome,
    /// Volume Mute key
    VolumeMute,
    /// Volume Down key
    VolumeDown,
    /// Volume Up key
    VolumeUp,
    /// Next Track key
    MediaNextTrack,
    /// Previous Track key
    MediaPrevTrack,
    /// Stop Media key
    MediaStop,
    /// Play/Pause Media key
    MediaPlayPause,
    /// Start Mail key
    LaunchMail,
    /// Select Media key
    LaunchMediaSelect,
    /// Start Application 1 key
    LaunchApp1,
    /// Start Application 2 key
    LaunchApp2,
    /// Used for miscellaneous characters, it can vary by keyboard.
    Oem1,
    /// For any country/region, the '+' key
    OemPlus,
    /// For any country/region, the ',' key
    OemComma,
    /// For any country/region, the '-' key
    OemMinus,
    /// For any country/region, the '.' key
    OemPeriod,
    /// Used for miscellaneous characters, it can vary by keyboard.
    Oem2,
    /// Used for miscellaneous characters, it can vary by keyboard.
    Oem3,
    /// Used for miscellaneous characters, it can vary by keyboard.
    Oem4,
    /// Used for miscellaneous characters, it can vary by keyboard.
    Oem5,
    /// Used for miscellaneous characters, it can vary by keyboard.
    Oem6,
    /// Used for miscellaneous characters, it can vary by keyboard.
    Oem7,
    /// Used for miscellaneous characters, it can vary by keyboard.
    Oem8,
    /// Either the angle bracket key or the backslash key on the RT 102-key keyboard
    Oem102,
    /// IME PROCESS key
    ProcessKey,
    /// Used to pass Unicode characters as if they were keystrokes.
    Packet,
    /// Attn key
    Attn,
    /// CrSel key
    CrSel,
    /// ExSel key
    ExSel,
    /// Erase EOF key
    ErEOF,
    /// Play key
    Play,
    /// Zoom key
    Zoom,
    /// PA1 key
    Pa1,
    /// Clear key
    OemClear,
}

impl VirtualKey {
    /// The numeric code of the key.
    pub open spec fn spec_code(self) -> u16 {
        match self {
            VirtualKey::LMouseButton => 0x01,
            VirtualKey::RMouseButton => 0x02,
            VirtualKey::Cancel => 0x03,
            VirtualKey::MiddleMouseButton => 0x04,
            VirtualKey::XMouseButton1 => 0x05,
            VirtualKey::XMouseButton2 => 0x06,
            VirtualKey::Backspace => 0x08,
            VirtualKey::Tab => 0x09,
            VirtualKey::Clear => 0x0C,
            VirtualKey::Enter => 0x0D,
            VirtualKey::Shift => 0x10,
            VirtualKey::Control => 0x11,
            VirtualKey::Alt => 0x12,
            VirtualKey::Pause => 0x13,
            VirtualKey::CapsLock => 0x14,
            VirtualKey::KanaHangulHanguel => 0x15,
            VirtualKey::Junja => 0x17,
            VirtualKey::Final => 0x18,
            VirtualKey::HanjaKanji => 0x19,
            VirtualKey::Escape => 0x1B,
            VirtualKey::Convert => 0x1C,
            VirtualKey::NonConvert => 0x1D,
            VirtualKey::Accept => 0x1E,
            VirtualKey::ModeChange => 0x1F,
            VirtualKey::Space => 0x20,
            VirtualKey::PageUp => 0x21,
            VirtualKey::PageDown => 0x22,
            VirtualKey::End => 0x23,
            VirtualKey::Home => 0x24,
            VirtualKey::Left => 0x25,
            VirtualKey::Up => 0x26,
            VirtualKey::Right => 0x27,
            VirtualKey::Down => 0x28,
            VirtualKey::Select => 0x29,
            VirtualKey::Print => 0x2A,
            VirtualKey::Execute => 0x2B,
            VirtualKey::PrintScreen => 0x2C,
            VirtualKey::Insert => 0x2D,
            VirtualKey::Delete => 0x2E,
            VirtualKey::Help => 0x2F,
            VirtualKey::N0 => 0x30,
            VirtualKey::N1 => 0x31,
            VirtualKey::N2 => 0x32,
            VirtualKey::N3 => 0x33,
            VirtualKey::N4 => 0x34,
            VirtualKey::N5 => 0x35,
            VirtualKey::N6 => 0x36,
            VirtualKey::N7 => 0x37,
            VirtualKey::N8 => 0x38,
            VirtualKey::N9 => 0x39,
            VirtualKey::A => 0x41,
            VirtualKey::B => 0x42,
            VirtualKey::C => 0x43,
            VirtualKey::D => 0x44,
            VirtualKey::E => 0x45,
            VirtualKey::F => 0x46,
            VirtualKey::G => 0x47,
            VirtualKey::H => 0x48,
            VirtualKey::I => 0x49,
            VirtualKey::J => 0x4A,
            VirtualKey::K => 0x4B,
            VirtualKey::L => 0x4C,
            VirtualKey::M => 0x4D,
            VirtualKey::N => 0x4E,
            VirtualKey::O => 0x4F,
            VirtualKey::P => 0x50,
            VirtualKey::Q => 0x51,
            VirtualKey::R => 0x52,
            VirtualKey::S => 0x53,
            VirtualKey::T => 0x54,
            VirtualKey::U => 0x55,
            VirtualKey::V => 0x56,
            VirtualKey::W => 0x57,
            VirtualKey::X => 0x58,
            VirtualKey::Y => 0x59,
            VirtualKey::Z => 0x5A,
            VirtualKey::LWin => 0x5B,
            VirtualKey::RWin => 0x5C,
            VirtualKey::Apps => 0x5D,
            VirtualKey::Sleep => 0x5F,
            VirtualKey::Numpad0 => 0x60,
            VirtualKey::Numpad1 => 0x61,
            VirtualKey::Numpad2 => 0x62,
            VirtualKey::Numpad3 => 0x63,
            VirtualKey::Numpad4 => 0x64,
            VirtualKey::Numpad5 => 0x65,
            VirtualKey::Numpad6 => 0x66,
            VirtualKey::Numpad7 => 0x67,
            VirtualKey::Numpad8 => 0x68,
            VirtualKey::Numpad9 => 0x69,
            VirtualKey::Multiply => 0x6A,
            VirtualKey::Add => 0x6B,
            VirtualKey::Seperator => 0x6C,
            VirtualKey::Subtract => 0x6D,
            VirtualKey::Decimal => 0x6E,
            VirtualKey::Divide => 0x6F,
            VirtualKey::F1 => 0x70,
            VirtualKey::F2 => 0x71,
            VirtualKey::F3 => 0x72,
            VirtualKey::F4 => 0x73,
            VirtualKey::F5 => 0x74,
            VirtualKey::F6 => 0x75,
            VirtualKey::F7 => 0x76,
            VirtualKey::F8 => 0x77,
            VirtualKey::F9 => 0x78,
            VirtualKey::F10 => 0x79,
            VirtualKey::F11 => 0x7A,
            VirtualKey::F12 => 0x7B,
            VirtualKey::F13 => 0x7C,
            VirtualKey::F14 => 0x7D,
            VirtualKey::F15 => 0x7E,
            VirtualKey::F16 => 0x7F,
            VirtualKey::F17 => 0x80,
            VirtualKey::F18 => 0x81,
            VirtualKey::F19 => 0x82,
            VirtualKey::F20 => 0x83,
            VirtualKey::F21 => 0x84,
            VirtualKey::F22 => 0x85,
            VirtualKey::F23 => 0x86,
            VirtualKey::F24 => 0x87,
            VirtualKey::Numlock => 0x90,
            VirtualKey::Scroll => 0x91,
            VirtualKey::LShift => 0xA0,
            VirtualKey::RShift => 0xA1,
            VirtualKey::LControl => 0xA2,
            VirtualKey::RControl => 0xA3,
            VirtualKey::LMenu => 0xA4,
            VirtualKey::RMenu => 0xA5,
            VirtualKey::BrowserBack => 0xA6,
            VirtualKey::BrowserForward => 0xA7,
            VirtualKey::BrowserRefresh => 0xA8,
            VirtualKey::BrowserStop => 0xA9,
            VirtualKey::BrowserSearch => 0xAA,
            VirtualKey::BrowserFavorites => 0xAB,
            VirtualKey::BrowserHome => 0xAC,
            VirtualKey::VolumeMute => 0xAD,
            VirtualKey::VolumeDown => 0xAE,
            VirtualKey::VolumeUp => 0xAF,
            VirtualKey::MediaNextTrack => 0xB0,
            VirtualKey::MediaPrevTrack => 0xB1,
            VirtualKey::MediaStop => 0xB2,
            VirtualKey::MediaPlayPause => 0xB3,
            VirtualKey::LaunchMail => 0xB4,
            VirtualKey::LaunchMediaSelect => 0xB5,
            VirtualKey::LaunchApp1 => 0xB6,
            VirtualKey::LaunchApp2 => 0xB7,
            VirtualKey::Oem1 => 0xBA,
            VirtualKey::OemPlus => 0xBB,
            VirtualKey::OemComma => 0xBC,
            VirtualKey::OemMinus => 0xBD,
            VirtualKey::OemPeriod => 0xBE,
            VirtualKey::Oem2 => 0xBF,
            VirtualKey::Oem3 => 0xC0,
            VirtualKey::Oem4 => 0xDB,
            VirtualKey::Oem5 => 0xDC,
            VirtualKey::Oem6 => 0xDD,
            VirtualKey::Oem7 => 0xDE,
            VirtualKey::Oem8 => 0xDF,
            VirtualKey::Oem102 => 0xE2,
            VirtualKey::ProcessKey => 0xE5,
            VirtualKey::Packet => 0xE7,
            VirtualKey::Attn => 0xF6,
            VirtualKey::CrSel => 0xF7,
            VirtualKey::ExSel => 0xF8,
            VirtualKey::ErEOF => 0xF9,
            VirtualKey::Play => 0xFA,
            VirtualKey::Zoom => 0xFB,
            VirtualKey::Pa1 => 0xFD,
            VirtualKey::OemClear => 0xFE,
        }
    }

    /// The numeric code that the input facility expects for this key.
    pub fn code(self) -> (r: u16)
        ensures
            r == self.spec_code(),
    {
        match self {
            VirtualKey::LMouseButton => 0x01,
            VirtualKey::RMouseButton => 0x02,
            VirtualKey::Cancel => 0x03,
            VirtualKey::MiddleMouseButton => 0x04,
            VirtualKey::XMouseButton1 => 0x05,
            VirtualKey::XMouseButton2 => 0x06,
            VirtualKey::Backspace => 0x08,
            VirtualKey::Tab => 0x09,
            VirtualKey::Clear => 0x0C,
            VirtualKey::Enter => 0x0D,
            VirtualKey::Shift => 0x10,
            VirtualKey::Control => 0x11,
            VirtualKey::Alt => 0x12,
            VirtualKey::Pause => 0x13,
            VirtualKey::CapsLock => 0x14,
            VirtualKey::KanaHangulHanguel => 0x15,
            VirtualKey::Junja => 0x17,
            VirtualKey::Final => 0x18,
            VirtualKey::HanjaKanji => 0x19,
            VirtualKey::Escape => 0x1B,
            VirtualKey::Convert => 0x1C,
            VirtualKey::NonConvert => 0x1D,
            VirtualKey::Accept => 0x1E,
            VirtualKey::ModeChange => 0x1F,
            VirtualKey::Space => 0x20,
            VirtualKey::PageUp => 0x21,
            VirtualKey::PageDown => 0x22,
            VirtualKey::End => 0x23,
            VirtualKey::Home => 0x24,
            VirtualKey::Left => 0x25,
            VirtualKey::Up => 0x26,
            VirtualKey::Right => 0x27,
            VirtualKey::Down => 0x28,
            VirtualKey::Select => 0x29,
            VirtualKey::Print => 0x2A,
            VirtualKey::Execute => 0x2B,
            VirtualKey::PrintScreen => 0x2C,
            VirtualKey::Insert => 0x2D,
            VirtualKey::Delete => 0x2E,
            VirtualKey::Help => 0x2F,
            VirtualKey::N0 => 0x30,
            VirtualKey::N1 => 0x31,
            VirtualKey::N2 => 0x32,
            VirtualKey::N3 => 0x33,
            VirtualKey::N4 => 0x34,
            VirtualKey::N5 => 0x35,
            VirtualKey::N6 => 0x36,
            VirtualKey::N7 => 0x37,
            VirtualKey::N8 => 0x38,
            VirtualKey::N9 => 0x39,
            VirtualKey::A => 0x41,
            VirtualKey::B => 0x42,
            VirtualKey::C => 0x43,
            VirtualKey::D => 0x44,
            VirtualKey::E => 0x45,
            VirtualKey::F => 0x46,
            VirtualKey::G => 0x47,
            VirtualKey::H => 0x48,
            VirtualKey::I => 0x49,
            VirtualKey::J => 0x4A,
            VirtualKey::K => 0x4B,
            VirtualKey::L => 0x4C,
            VirtualKey::M => 0x4D,
            VirtualKey::N => 0x4E,
            VirtualKey::O => 0x4F,
            VirtualKey::P => 0x50,
            VirtualKey::Q => 0x51,
            VirtualKey::R => 0x52,
            VirtualKey::S => 0x53,
            VirtualKey::T => 0x54,
            VirtualKey::U => 0x55,
            VirtualKey::V => 0x56,
            VirtualKey::W => 0x57,
            VirtualKey::X => 0x58,
            VirtualKey::Y => 0x59,
            VirtualKey::Z => 0x5A,
            VirtualKey::LWin => 0x5B,
            VirtualKey::RWin => 0x5C,
            VirtualKey::Apps => 0x5D,
            VirtualKey::Sleep => 0x5F,
            VirtualKey::Numpad0 => 0x60,
            VirtualKey::Numpad1 => 0x61,
            VirtualKey::Numpad2 => 0x62,
            VirtualKey::Numpad3 => 0x63,
            VirtualKey::Numpad4 => 0x64,
            VirtualKey::Numpad5 => 0x65,
            VirtualKey::Numpad6 => 0x66,
            VirtualKey::Numpad7 => 0x67,
            VirtualKey::Numpad8 => 0x68,
            VirtualKey::Numpad9 => 0x69,
            VirtualKey::Multiply => 0x6A,
            VirtualKey::Add => 0x6B,
            VirtualKey::Seperator => 0x6C,
            VirtualKey::Subtract => 0x6D,
            VirtualKey::Decimal => 0x6E,
            VirtualKey::Divide => 0x6F,
            VirtualKey::F1 => 0x70,
            VirtualKey::F2 => 0x71,
            VirtualKey::F3 => 0x72,
            VirtualKey::F4 => 0x73,
            VirtualKey::F5 => 0x74,
            VirtualKey::F6 => 0x75,
            VirtualKey::F7 => 0x76,
            VirtualKey::F8 => 0x77,
            VirtualKey::F9 => 0x78,
            VirtualKey::F10 => 0x79,
            VirtualKey::F11 => 0x7A,
            VirtualKey::F12 => 0x7B,
            VirtualKey::F13 => 0x7C,
            VirtualKey::F14 => 0x7D,
            VirtualKey::F15 => 0x7E,
            VirtualKey::F16 => 0x7F,
            VirtualKey::F17 => 0x80,
            VirtualKey::F18 => 0x81,
            VirtualKey::F19 => 0x82,
            VirtualKey::F20 => 0x83,
            VirtualKey::F21 => 0x84,
            VirtualKey::F22 => 0x85,
            VirtualKey::F23 => 0x86,
            VirtualKey::F24 => 0x87,
            VirtualKey::Numlock => 0x90,
            VirtualKey::Scroll => 0x91,
            VirtualKey::LShift => 0xA0,
            VirtualKey::RShift => 0xA1,
            VirtualKey::LControl => 0xA2,
            VirtualKey::RControl => 0xA3,
            VirtualKey::LMenu => 0xA4,
            VirtualKey::RMenu => 0xA5,
            VirtualKey::BrowserBack => 0xA6,
            VirtualKey::BrowserForward => 0xA7,
            VirtualKey::BrowserRefresh => 0xA8,
            VirtualKey::BrowserStop => 0xA9,
            VirtualKey::BrowserSearch => 0xAA,
            VirtualKey::BrowserFavorites => 0xAB,
            VirtualKey::BrowserHome => 0xAC,
            VirtualKey::VolumeMute => 0xAD,
            VirtualKey::VolumeDown => 0xAE,
            VirtualKey::VolumeUp => 0xAF,
            VirtualKey::MediaNextTrack => 0xB0,
            VirtualKey::MediaPrevTrack => 0xB1,
            VirtualKey::MediaStop => 0xB2,
            VirtualKey::MediaPlayPause => 0xB3,
            VirtualKey::LaunchMail => 0xB4,
            VirtualKey::LaunchMediaSelect => 0xB5,
            VirtualKey::LaunchApp1 => 0xB6,
            VirtualKey::LaunchApp2 => 0xB7,
            VirtualKey::Oem1 => 0xBA,
            VirtualKey::OemPlus => 0xBB,
            VirtualKey::OemComma => 0xBC,
            VirtualKey::OemMinus => 0xBD,
            VirtualKey::OemPeriod => 0xBE,
            VirtualKey::Oem2 => 0xBF,
            VirtualKey::Oem3 => 0xC0,
            VirtualKey::Oem4 => 0xDB,
            VirtualKey::Oem5 => 0xDC,
            VirtualKey::Oem6 => 0xDD,
            VirtualKey::Oem7 => 0xDE,
            VirtualKey::Oem8 => 0xDF,
            VirtualKey::Oem102 => 0xE2,
            VirtualKey::ProcessKey => 0xE5,
            VirtualKey::Packet => 0xE7,
            VirtualKey::Attn => 0xF6,
            VirtualKey::CrSel => 0xF7,
            VirtualKey::ExSel => 0xF8,
            VirtualKey::ErEOF => 0xF9,
            VirtualKey::Play => 0xFA,
            VirtualKey::Zoom => 0xFB,
            VirtualKey::Pa1 => 0xFD,
            VirtualKey::OemClear => 0xFE,
        }
    }
}

} // verus!
