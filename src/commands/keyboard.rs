//! Key events for Android devices.
use vstd::prelude::*;

verus! {

/// Android key codes, in code order: `Unknown` is 0, `Paste` is 279.
#[derive(Debug, Clone, Copy, PartialEq, Eq, Hash, Structural)]
pub enum AndroidKey {
    Unknown,
    SoftLeft,
    SoftRight,
    Home,
    Back,
    Call,
    EndCall,
    Digit0,
    Digit1,
    Digit2,
    Digit3,
    Digit4,
    Digit5,
    Digit6,
    Digit7,
    Digit8,
    Digit9,
    Asterisk,
    Pound,
    DPadUp,
    DPadDown,
    DPadLeft,
    DpadRight,
    DPadCenter,
    VolumeUp,
    VolumeDown,
    Power,
    Camera,
    Clear,
    A,
    B,
    C,
    D,
    E,
    F,
    G,
    H,
    I,
    J,
    K,
    L,
    M,
    N,
    O,
    P,
    Q,
    R,
    S,
    T,
    U,
    V,
    W,
    X,
    Y,
    Z,
    Comma,
    Period,
    AltLeft,
    AltRight,
    ShiftLeft,
    ShiftRight,
    Tab,
    Space,
    SYM,
    Explorer,
    Envelope,
    Enter,
    DEL,
    Grave,
    Minus,
    Equals,
    LeftBracket,
    RightBracket,
    Backslash,
    Semicolon,
    Apostrophe,
    Slash,
    At,
    NUM,
    HeadsetHook,
    Focus,
    Plus,
    Menu,
    Notification,
    Search,
    MediaPlayPause,
    MediaStop,
    MediaNext,
    MediaPrevious,
    MediaRewind,
    MediaFastForward,
    Mute,
    PageUp,
    PageDown,
    PictSymbols,
    SwitchCharset,
    ButtonA,
    ButtonB,
    ButtonC,
    ButtonX,
    ButtonY,
    ButtonZ,
    ButtonL1,
    ButtonR1,
    ButtonL2,
    ButtonR2,
    ButtonThumbL,
    ButtonThumbR,
    ButtonStart,
    ButtonSelect,
    ButtonMode,
    Escape,
    ForwardDel,
    CtrlLeft,
    CtrlRight,
    CapsLock,
    ScrollLock,
    MetaLeft,
    MetaRight,
    Function,
    SYSRQ,
    Break,
    MoveHome,
    MoveEnd,
    Insert,
    Forward,
    MediaPlay,
    MediaPause,
    MediaClose,
    MediaEject,
    MediaRecord,
    F1,
    F2,
    F3,
    F4,
    F5,
    F6,
    F7,
    F8,
    F9,
    F10,
    F11,
    F12,
    NumLock,
    Numpad0,
    Numpad1,
    Numpad2,
    Numpad3,
    Numpad4,
    Numpad5,
    Numpad6,
    Numpad7,
    Numpad8,
    Numpad9,
    NumpadDivide,
    NumpadMultiply,
    NumpadSubtract,
    NumpadAdd,
    NumpadDot,
    NumpadComma,
    NumpadEnter,
    NumpadEquals,
    NumpadLeftParen,
    NumpadRightParen,
    VolumeMute,
    Info,
    ChannelUp,
    ChannelDown,
    KeycodeZoomIn,
    KeycodeZoomOut,
    TV,
    Window,
    Guide,
    DVR,
    Bookmark,
    Captions,
    Settings,
    TVPower,
    TVInput,
    STBPower,
    STBInput,
    AVRPower,
    AVRInput,
    ProgRed,
    ProgGreen,
    ProgYellow,
    ProgBlue,
    AppSwitch,
    Button1,
    Button2,
    Button3,
    Button4,
    Button5,
    Button6,
    Button7,
    Button8,
    Button9,
    Button10,
    Button11,
    Button12,
    Button13,
    Button14,
    Button15,
    Button16,
    LanguageSwitch,
    MannerMode,
    Mode3D,
    Contacts,
    Calendar,
    Music,
    Calculator,
    ZenkakuHankaku,
    Eisu,
    Muhenkan,
    Henkan,
    KatakanaHiragana,
    Yen,
    Ro,
    Kana,
    Assist,
    BrightnessDown,
    BrightnessUp,
    MediaAudioTrack,
    Sleep,
    WakeUp,
    Pairing,
    MediaTopMenu,
    Key11,
    Key12,
    LastChannel,
    TVDataService,
    VoiceAssist,
    TVRadioService,
    TVTeletext,
    TVNumberEntry,
    TVTerrestrialAnalog,
    TVTerrestrialDigital,
    TVSatellite,
    TVSatelliteBS,
    TVSatelliteCS,
    TVSatelliteService,
    TVNetwork,
    TVAntennaCable,
    TVInputHdmi1,
    TVInputHdmi2,
    TVInputHdmi3,
    TVInputHdmi4,
    TVInputComposite1,
    TVInputComposite2,
    TVInputComponent1,
    TVInputComponent2,
    TVInputVga1,
    TVAudioDescription,
    TVAudioDescriptionMixUp,
    TVAudioDescriptionMixDown,
    TVZoomMode,
    TVContentsMenu,
    TVMediaContextMenu,
    TVTimerProgramming,
    Help,
    NavigatePrevious,
    NavigateNext,
    NavigateIn,
    NavigateOut,
    StemPrimary,
    Stem1,
    Stem2,
    Stem3,
    DpadUpLeft,
    DpadDownLeft,
    DpadUpRight,
    DpadDownRight,
    MediaSkipForward,
    MediaSkipBackward,
    MediaStepForward,
    MediaStepBackward,
    SoftSleep,
    Cut,
    Copy,
    Paste,
}

/// The Android key code of `k`.
pub open spec fn key_code(k: AndroidKey) -> u16 {
    match k {
        AndroidKey::Unknown => 0,
        AndroidKey::SoftLeft => 1,
        AndroidKey::SoftRight => 2,
        AndroidKey::Home => 3,
        AndroidKey::Back => 4,
        AndroidKey::Call => 5,
        AndroidKey::EndCall => 6,
        AndroidKey::Digit0 => 7,
        AndroidKey::Digit1 => 8,
        AndroidKey::Digit2 => 9,
        AndroidKey::Digit3 => 10,
        AndroidKey::Digit4 => 11,
        AndroidKey::Digit5 => 12,
        AndroidKey::Digit6 => 13,
        AndroidKey::Digit7 => 14,
        AndroidKey::Digit8 => 15,
        AndroidKey::Digit9 => 16,
        AndroidKey::Asterisk => 17,
        AndroidKey::Pound => 18,
        AndroidKey::DPadUp => 19,
        AndroidKey::DPadDown => 20,
        AndroidKey::DPadLeft => 21,
        AndroidKey::DpadRight => 22,
        AndroidKey::DPadCenter => 23,
        AndroidKey::VolumeUp => 24,
        AndroidKey::VolumeDown => 25,
        AndroidKey::Power => 26,
        AndroidKey::Camera => 27,
        AndroidKey::Clear => 28,
        AndroidKey::A => 29,
        AndroidKey::B => 30,
        AndroidKey::C => 31,
        AndroidKey::D => 32,
        AndroidKey::E => 33,
        AndroidKey::F => 34,
        AndroidKey::G => 35,
        AndroidKey::H => 36,
        AndroidKey::I => 37,
        AndroidKey::J => 38,
        AndroidKey::K => 39,
        AndroidKey::L => 40,
        AndroidKey::M => 41,
        AndroidKey::N => 42,
        AndroidKey::O => 43,
        AndroidKey::P => 44,
        AndroidKey::Q => 45,
        AndroidKey::R => 46,
        AndroidKey::S => 47,
        AndroidKey::T => 48,
        AndroidKey::U => 49,
        AndroidKey::V => 50,
        AndroidKey::W => 51,
        AndroidKey::X => 52,
        AndroidKey::Y => 53,
        AndroidKey::Z => 54,
        AndroidKey::Comma => 55,
        AndroidKey::Period => 56,
        AndroidKey::AltLeft => 57,
        AndroidKey::AltRight => 58,
        AndroidKey::ShiftLeft => 59,
        AndroidKey::ShiftRight => 60,
        AndroidKey::Tab => 61,
        AndroidKey::Space => 62,
        AndroidKey::SYM => 63,
        AndroidKey::Explorer => 64,
        AndroidKey::Envelope => 65,
        AndroidKey::Enter => 66,
        AndroidKey::DEL => 67,
        AndroidKey::Grave => 68,
        AndroidKey::Minus => 69,
        AndroidKey::Equals => 70,
        AndroidKey::LeftBracket => 71,
        AndroidKey::RightBracket => 72,
        AndroidKey::Backslash => 73,
        AndroidKey::Semicolon => 74,
        AndroidKey::Apostrophe => 75,
        AndroidKey::Slash => 76,
        AndroidKey::At => 77,
        AndroidKey::NUM => 78,
        AndroidKey::HeadsetHook => 79,
        AndroidKey::Focus => 80,
        AndroidKey::Plus => 81,
        AndroidKey::Menu => 82,
        AndroidKey::Notification => 83,
        AndroidKey::Search => 84,
        AndroidKey::MediaPlayPause => 85,
        AndroidKey::MediaStop => 86,
        AndroidKey::MediaNext => 87,
        AndroidKey::MediaPrevious => 88,
        AndroidKey::MediaRewind => 89,
        AndroidKey::MediaFastForward => 90,
        AndroidKey::Mute => 91,
        AndroidKey::PageUp => 92,
        AndroidKey::PageDown => 93,
        AndroidKey::PictSymbols => 94,
        AndroidKey::SwitchCharset => 95,
        AndroidKey::ButtonA => 96,
        AndroidKey::ButtonB => 97,
        AndroidKey::ButtonC => 98,
        AndroidKey::ButtonX => 99,
        AndroidKey::ButtonY => 100,
        AndroidKey::ButtonZ => 101,
        AndroidKey::ButtonL1 => 102,
        AndroidKey::ButtonR1 => 103,
        AndroidKey::ButtonL2 => 104,
        AndroidKey::ButtonR2 => 105,
        AndroidKey::ButtonThumbL => 106,
        AndroidKey::ButtonThumbR => 107,
        AndroidKey::ButtonStart => 108,
        AndroidKey::ButtonSelect => 109,
        AndroidKey::ButtonMode => 110,
        AndroidKey::Escape => 111,
        AndroidKey::ForwardDel => 112,
        AndroidKey::CtrlLeft => 113,
        AndroidKey::CtrlRight => 114,
        AndroidKey::CapsLock => 115,
        AndroidKey::ScrollLock => 116,
        AndroidKey::MetaLeft => 117,
        AndroidKey::MetaRight => 118,
        AndroidKey::Function => 119,
        AndroidKey::SYSRQ => 120,
        AndroidKey::Break => 121,
        AndroidKey::MoveHome => 122,
        AndroidKey::MoveEnd => 123,
        AndroidKey::Insert => 124,
        AndroidKey::Forward => 125,
        AndroidKey::MediaPlay => 126,
        AndroidKey::MediaPause => 127,
        AndroidKey::MediaClose => 128,
        AndroidKey::MediaEject => 129,
        AndroidKey::MediaRecord => 130,
        AndroidKey::F1 => 131,
        AndroidKey::F2 => 132,
        AndroidKey::F3 => 133,
        AndroidKey::F4 => 134,
        AndroidKey::F5 => 135,
        AndroidKey::F6 => 136,
        AndroidKey::F7 => 137,
        AndroidKey::F8 => 138,
        AndroidKey::F9 => 139,
        AndroidKey::F10 => 140,
        AndroidKey::F11 => 141,
        AndroidKey::F12 => 142,
        AndroidKey::NumLock => 143,
        AndroidKey::Numpad0 => 144,
        AndroidKey::Numpad1 => 145,
        AndroidKey::Numpad2 => 146,
        AndroidKey::Numpad3 => 147,
        AndroidKey::Numpad4 => 148,
        AndroidKey::Numpad5 => 149,
        AndroidKey::Numpad6 => 150,
        AndroidKey::Numpad7 => 151,
        AndroidKey::Numpad8 => 152,
        AndroidKey::Numpad9 => 153,
        AndroidKey::NumpadDivide => 154,
        AndroidKey::NumpadMultiply => 155,
        AndroidKey::NumpadSubtract => 156,
        AndroidKey::NumpadAdd => 157,
        AndroidKey::NumpadDot => 158,
        AndroidKey::NumpadComma => 159,
        AndroidKey::NumpadEnter => 160,
        AndroidKey::NumpadEquals => 161,
        AndroidKey::NumpadLeftParen => 162,
        AndroidKey::NumpadRightParen => 163,
        AndroidKey::VolumeMute => 164,
        AndroidKey::Info => 165,
        AndroidKey::ChannelUp => 166,
        AndroidKey::ChannelDown => 167,
        AndroidKey::KeycodeZoomIn => 168,
        AndroidKey::KeycodeZoomOut => 169,
        AndroidKey::TV => 170,
        AndroidKey::Window => 171,
        AndroidKey::Guide => 172,
        AndroidKey::DVR => 173,
        AndroidKey::Bookmark => 174,
        AndroidKey::Captions => 175,
        AndroidKey::Settings => 176,
        AndroidKey::TVPower => 177,
        AndroidKey::TVInput => 178,
        AndroidKey::STBPower => 179,
        AndroidKey::STBInput => 180,
        AndroidKey::AVRPower => 181,
        AndroidKey::AVRInput => 182,
        AndroidKey::ProgRed => 183,
        AndroidKey::ProgGreen => 184,
        AndroidKey::ProgYellow => 185,
        AndroidKey::ProgBlue => 186,
        AndroidKey::AppSwitch => 187,
        AndroidKey::Button1 => 188,
        AndroidKey::Button2 => 189,
        AndroidKey::Button3 => 190,
        AndroidKey::Button4 => 191,
        AndroidKey::Button5 => 192,
        AndroidKey::Button6 => 193,
        AndroidKey::Button7 => 194,
        AndroidKey::Button8 => 195,
        AndroidKey::Button9 => 196,
        AndroidKey::Button10 => 197,
        AndroidKey::Button11 => 198,
        AndroidKey::Button12 => 199,
        AndroidKey::Button13 => 200,
        AndroidKey::Button14 => 201,
        AndroidKey::Button15 => 202,
        AndroidKey::Button16 => 203,
        AndroidKey::LanguageSwitch => 204,
        AndroidKey::MannerMode => 205,
        AndroidKey::Mode3D => 206,
        AndroidKey::Contacts => 207,
        AndroidKey::Calendar => 208,
        AndroidKey::Music => 209,
        AndroidKey::Calculator => 210,
        AndroidKey::ZenkakuHankaku => 211,
        AndroidKey::Eisu => 212,
        AndroidKey::Muhenkan => 213,
        AndroidKey::Henkan => 214,
        AndroidKey::KatakanaHiragana => 215,
        AndroidKey::Yen => 216,
        AndroidKey::Ro => 217,
        AndroidKey::Kana => 218,
        AndroidKey::Assist => 219,
        AndroidKey::BrightnessDown => 220,
        AndroidKey::BrightnessUp => 221,
        AndroidKey::MediaAudioTrack => 222,
        AndroidKey::Sleep => 223,
        AndroidKey::WakeUp => 224,
        AndroidKey::Pairing => 225,
        AndroidKey::MediaTopMenu => 226,
        AndroidKey::Key11 => 227,
        AndroidKey::Key12 => 228,
        AndroidKey::LastChannel => 229,
        AndroidKey::TVDataService => 230,
        AndroidKey::VoiceAssist => 231,
        AndroidKey::TVRadioService => 232,
        AndroidKey::TVTeletext => 233,
        AndroidKey::TVNumberEntry => 234,
        AndroidKey::TVTerrestrialAnalog => 235,
        AndroidKey::TVTerrestrialDigital => 236,
        AndroidKey::TVSatellite => 237,
        AndroidKey::TVSatelliteBS => 238,
        AndroidKey::TVSatelliteCS => 239,
        AndroidKey::TVSatelliteService => 240,
        AndroidKey::TVNetwork => 241,
        AndroidKey::TVAntennaCable => 242,
        AndroidKey::TVInputHdmi1 => 243,
        AndroidKey::TVInputHdmi2 => 244,
        AndroidKey::TVInputHdmi3 => 245,
        AndroidKey::TVInputHdmi4 => 246,
        AndroidKey::TVInputComposite1 => 247,
        AndroidKey::TVInputComposite2 => 248,
        AndroidKey::TVInputComponent1 => 249,
        AndroidKey::TVInputComponent2 => 250,
        AndroidKey::TVInputVga1 => 251,
        AndroidKey::TVAudioDescription => 252,
        AndroidKey::TVAudioDescriptionMixUp => 253,
        AndroidKey::TVAudioDescriptionMixDown => 254,
        AndroidKey::TVZoomMode => 255,
        AndroidKey::TVContentsMenu => 256,
        AndroidKey::TVMediaContextMenu => 257,
        AndroidKey::TVTimerProgramming => 258,
        AndroidKey::Help => 259,
        AndroidKey::NavigatePrevious => 260,
        AndroidKey::NavigateNext => 261,
        AndroidKey::NavigateIn => 262,
        AndroidKey::NavigateOut => 263,
        AndroidKey::StemPrimary => 264,
        AndroidKey::Stem1 => 265,
        AndroidKey::Stem2 => 266,
        AndroidKey::Stem3 => 267,
        AndroidKey::DpadUpLeft => 268,
        AndroidKey::DpadDownLeft => 269,
        AndroidKey::DpadUpRight => 270,
        AndroidKey::DpadDownRight => 271,
        AndroidKey::MediaSkipForward => 272,
        AndroidKey::MediaSkipBackward => 273,
        AndroidKey::MediaStepForward => 274,
        AndroidKey::MediaStepBackward => 275,
        AndroidKey::SoftSleep => 276,
        AndroidKey::Cut => 277,
        AndroidKey::Copy => 278,
        AndroidKey::Paste => 279,
    }
}

impl AndroidKey {
    /// The Android key code of this key.
    pub fn code(&self) -> (r: u16)
        ensures
            r == key_code(*self),
    {
        match self {
            AndroidKey::Unknown => 0,
            AndroidKey::SoftLeft => 1,
            AndroidKey::SoftRight => 2,
            AndroidKey::Home => 3,
            AndroidKey::Back => 4,
            AndroidKey::Call => 5,
            AndroidKey::EndCall => 6,
            AndroidKey::Digit0 => 7,
            AndroidKey::Digit1 => 8,
            AndroidKey::Digit2 => 9,
            AndroidKey::Digit3 => 10,
            AndroidKey::Digit4 => 11,
            AndroidKey::Digit5 => 12,
            AndroidKey::Digit6 => 13,
            AndroidKey::Digit7 => 14,
            AndroidKey::Digit8 => 15,
            AndroidKey::Digit9 => 16,
            AndroidKey::Asterisk => 17,
            AndroidKey::Pound => 18,
            AndroidKey::DPadUp => 19,
            AndroidKey::DPadDown => 20,
            AndroidKey::DPadLeft => 21,
            AndroidKey::DpadRight => 22,
            AndroidKey::DPadCenter => 23,
            AndroidKey::VolumeUp => 24,
            AndroidKey::VolumeDown => 25,
            AndroidKey::Power => 26,
            AndroidKey::Camera => 27,
            AndroidKey::Clear => 28,
            AndroidKey::A => 29,
            AndroidKey::B => 30,
            AndroidKey::C => 31,
            AndroidKey::D => 32,
            AndroidKey::E => 33,
            AndroidKey::F => 34,
            AndroidKey::G => 35,
            AndroidKey::H => 36,
            AndroidKey::I => 37,
            AndroidKey::J => 38,
            AndroidKey::K => 39,
            AndroidKey::L => 40,
            AndroidKey::M => 41,
            AndroidKey::N => 42,
            AndroidKey::O => 43,
            AndroidKey::P => 44,
            AndroidKey::Q => 45,
            AndroidKey::R => 46,
            AndroidKey::S => 47,
            AndroidKey::T => 48,
            AndroidKey::U => 49,
            AndroidKey::V => 50,
            AndroidKey::W => 51,
            AndroidKey::X => 52,
            AndroidKey::Y => 53,
            AndroidKey::Z => 54,
            AndroidKey::Comma => 55,
            AndroidKey::Period => 56,
            AndroidKey::AltLeft => 57,
            AndroidKey::AltRight => 58,
            AndroidKey::ShiftLeft => 59,
            AndroidKey::ShiftRight => 60,
            AndroidKey::Tab => 61,
            AndroidKey::Space => 62,
            AndroidKey::SYM => 63,
            AndroidKey::Explorer => 64,
            AndroidKey::Envelope => 65,
            AndroidKey::Enter => 66,
            AndroidKey::DEL => 67,
            AndroidKey::Grave => 68,
            AndroidKey::Minus => 69,
            AndroidKey::Equals => 70,
            AndroidKey::LeftBracket => 71,
            AndroidKey::RightBracket => 72,
            AndroidKey::Backslash => 73,
            AndroidKey::Semicolon => 74,
            AndroidKey::Apostrophe => 75,
            AndroidKey::Slash => 76,
            AndroidKey::At => 77,
            AndroidKey::NUM => 78,
            AndroidKey::HeadsetHook => 79,
            AndroidKey::Focus => 80,
            AndroidKey::Plus => 81,
            AndroidKey::Menu => 82,
            AndroidKey::Notification => 83,
            AndroidKey::Search => 84,
            AndroidKey::MediaPlayPause => 85,
            AndroidKey::MediaStop => 86,
            AndroidKey::MediaNext => 87,
            AndroidKey::MediaPrevious => 88,
            AndroidKey::MediaRewind => 89,
            AndroidKey::MediaFastForward => 90,
            AndroidKey::Mute => 91,
            AndroidKey::PageUp => 92,
            AndroidKey::PageDown => 93,
            AndroidKey::PictSymbols => 94,
            AndroidKey::SwitchCharset => 95,
            AndroidKey::ButtonA => 96,
            AndroidKey::ButtonB => 97,
            AndroidKey::ButtonC => 98,
            AndroidKey::ButtonX => 99,
            AndroidKey::ButtonY => 100,
            AndroidKey::ButtonZ => 101,
            AndroidKey::ButtonL1 => 102,
            AndroidKey::ButtonR1 => 103,
            AndroidKey::ButtonL2 => 104,
            AndroidKey::ButtonR2 => 105,
            AndroidKey::ButtonThumbL => 106,
            AndroidKey::ButtonThumbR => 107,
            AndroidKey::ButtonStart => 108,
            AndroidKey::ButtonSelect => 109,
            AndroidKey::ButtonMode => 110,
            AndroidKey::Escape => 111,
            AndroidKey::ForwardDel => 112,
            AndroidKey::CtrlLeft => 113,
            AndroidKey::CtrlRight => 114,
            AndroidKey::CapsLock => 115,
            AndroidKey::ScrollLock => 116,
            AndroidKey::MetaLeft => 117,
            AndroidKey::MetaRight => 118,
            AndroidKey::Function => 119,
            AndroidKey::SYSRQ => 120,
            AndroidKey::Break => 121,
            AndroidKey::MoveHome => 122,
            AndroidKey::MoveEnd => 123,
            AndroidKey::Insert => 124,
            AndroidKey::Forward => 125,
            AndroidKey::MediaPlay => 126,
            AndroidKey::MediaPause => 127,
            AndroidKey::MediaClose => 128,
            AndroidKey::MediaEject => 129,
            AndroidKey::MediaRecord => 130,
            AndroidKey::F1 => 131,
            AndroidKey::F2 => 132,
            AndroidKey::F3 => 133,
            AndroidKey::F4 => 134,
            AndroidKey::F5 => 135,
            AndroidKey::F6 => 136,
            AndroidKey::F7 => 137,
            AndroidKey::F8 => 138,
            AndroidKey::F9 => 139,
            AndroidKey::F10 => 140,
            AndroidKey::F11 => 141,
            AndroidKey::F12 => 142,
            AndroidKey::NumLock => 143,
            AndroidKey::Numpad0 => 144,
            AndroidKey::Numpad1 => 145,
            AndroidKey::Numpad2 => 146,
            AndroidKey::Numpad3 => 147,
            AndroidKey::Numpad4 => 148,
            AndroidKey::Numpad5 => 149,
            AndroidKey::Numpad6 => 150,
            AndroidKey::Numpad7 => 151,
            AndroidKey::Numpad8 => 152,
            AndroidKey::Numpad9 => 153,
            AndroidKey::NumpadDivide => 154,
            AndroidKey::NumpadMultiply => 155,
            AndroidKey::NumpadSubtract => 156,
            AndroidKey::NumpadAdd => 157,
            AndroidKey::NumpadDot => 158,
            AndroidKey::NumpadComma => 159,
            AndroidKey::NumpadEnter => 160,
            AndroidKey::NumpadEquals => 161,
            AndroidKey::NumpadLeftParen => 162,
            AndroidKey::NumpadRightParen => 163,
            AndroidKey::VolumeMute => 164,
            AndroidKey::Info => 165,
            AndroidKey::ChannelUp => 166,
            AndroidKey::ChannelDown => 167,
            AndroidKey::KeycodeZoomIn => 168,
            AndroidKey::KeycodeZoomOut => 169,
            AndroidKey::TV => 170,
            AndroidKey::Window => 171,
            AndroidKey::Guide => 172,
            AndroidKey::DVR => 173,
            AndroidKey::Bookmark => 174,
            AndroidKey::Captions => 175,
            AndroidKey::Settings => 176,
            AndroidKey::TVPower => 177,
            AndroidKey::TVInput => 178,
            AndroidKey::STBPower => 179,
            AndroidKey::STBInput => 180,
            AndroidKey::AVRPower => 181,
            AndroidKey::AVRInput => 182,
            AndroidKey::ProgRed => 183,
            AndroidKey::ProgGreen => 184,
            AndroidKey::ProgYellow => 185,
            AndroidKey::ProgBlue => 186,
            AndroidKey::AppSwitch => 187,
            AndroidKey::Button1 => 188,
            AndroidKey::Button2 => 189,
            AndroidKey::Button3 => 190,
            AndroidKey::Button4 => 191,
            AndroidKey::Button5 => 192,
            AndroidKey::Button6 => 193,
            AndroidKey::Button7 => 194,
            AndroidKey::Button8 => 195,
            AndroidKey::Button9 => 196,
            AndroidKey::Button10 => 197,
            AndroidKey::Button11 => 198,
            AndroidKey::Button12 => 199,
            AndroidKey::Button13 => 200,
            AndroidKey::Button14 => 201,
            AndroidKey::Button15 => 202,
            AndroidKey::Button16 => 203,
            AndroidKey::LanguageSwitch => 204,
            AndroidKey::MannerMode => 205,
            AndroidKey::Mode3D => 206,
            AndroidKey::Contacts => 207,
            AndroidKey::Calendar => 208,
            AndroidKey::Music => 209,
            AndroidKey::Calculator => 210,
            AndroidKey::ZenkakuHankaku => 211,
            AndroidKey::Eisu => 212,
            AndroidKey::Muhenkan => 213,
            AndroidKey::Henkan => 214,
            AndroidKey::KatakanaHiragana => 215,
            AndroidKey::Yen => 216,
            AndroidKey::Ro => 217,
            AndroidKey::Kana => 218,
            AndroidKey::Assist => 219,
            AndroidKey::BrightnessDown => 220,
            AndroidKey::BrightnessUp => 221,
            AndroidKey::MediaAudioTrack => 222,
            AndroidKey::Sleep => 223,
            AndroidKey::WakeUp => 224,
            AndroidKey::Pairing => 225,
            AndroidKey::MediaTopMenu => 226,
            AndroidKey::Key11 => 227,
            AndroidKey::Key12 => 228,
            AndroidKey::LastChannel => 229,
            AndroidKey::TVDataService => 230,
            AndroidKey::VoiceAssist => 231,
            AndroidKey::TVRadioService => 232,
            AndroidKey::TVTeletext => 233,
            AndroidKey::TVNumberEntry => 234,
            AndroidKey::TVTerrestrialAnalog => 235,
            AndroidKey::TVTerrestrialDigital => 236,
            AndroidKey::TVSatellite => 237,
            AndroidKey::TVSatelliteBS => 238,
            AndroidKey::TVSatelliteCS => 239,
            AndroidKey::TVSatelliteService => 240,
            AndroidKey::TVNetwork => 241,
            AndroidKey::TVAntennaCable => 242,
            AndroidKey::TVInputHdmi1 => 243,
            AndroidKey::TVInputHdmi2 => 244,
            AndroidKey::TVInputHdmi3 => 245,
            AndroidKey::TVInputHdmi4 => 246,
            AndroidKey::TVInputComposite1 => 247,
            AndroidKey::TVInputComposite2 => 248,
            AndroidKey::TVInputComponent1 => 249,
            AndroidKey::TVInputComponent2 => 250,
            AndroidKey::TVInputVga1 => 251,
            AndroidKey::TVAudioDescription => 252,
            AndroidKey::TVAudioDescriptionMixUp => 253,
            AndroidKey::TVAudioDescriptionMixDown => 254,
            AndroidKey::TVZoomMode => 255,
            AndroidKey::TVContentsMenu => 256,
            AndroidKey::TVMediaContextMenu => 257,
            AndroidKey::TVTimerProgramming => 258,
            AndroidKey::Help => 259,
            AndroidKey::NavigatePrevious => 260,
            AndroidKey::NavigateNext => 261,
            AndroidKey::NavigateIn => 262,
            AndroidKey::NavigateOut => 263,
            AndroidKey::StemPrimary => 264,
            AndroidKey::Stem1 => 265,
            AndroidKey::Stem2 => 266,
            AndroidKey::Stem3 => 267,
            AndroidKey::DpadUpLeft => 268,
            AndroidKey::DpadDownLeft => 269,
            AndroidKey::DpadUpRight => 270,
            AndroidKey::DpadDownRight => 271,
            AndroidKey::MediaSkipForward => 272,
            AndroidKey::MediaSkipBackward => 273,
            AndroidKey::MediaStepForward => 274,
            AndroidKey::MediaStepBackward => 275,
            AndroidKey::SoftSleep => 276,
            AndroidKey::Cut => 277,
            AndroidKey::Copy => 278,
            AndroidKey::Paste => 279,
        }
    }
}

/// A set of Android meta-key state bits (shift, alt, ctrl, locks...).
#[derive(Debug, Clone, Copy, PartialEq, Eq, Hash, Structural)]
pub struct AndroidKeyMetaModifier {
    pub bits: u32,
}

impl AndroidKeyMetaModifier {
    /// The set of exactly these bits; the constants below name the known ones.
    pub fn from_bits_retain(bits: u32) -> (r: AndroidKeyMetaModifier)
        ensures
            r.bits == bits,
    {
        AndroidKeyMetaModifier { bits }
    }

    pub const CAP_LOCKED: u32 = 0x100;
    pub const ALT_LOCKED: u32 = 0x200;
    pub const SYM_LOCKED: u32 = 0x400;
    pub const SELECTING: u32 = 0x800;
    pub const ALT_ON: u32 = 0x02;
    pub const ALT_LEFT_ON: u32 = 0x10;
    pub const ALT_RIGHT_ON: u32 = 0x20;
    pub const SHIFT_ON: u32 = 0x1;
    pub const SHIFT_LEFT_ON: u32 = 0x40;
    pub const SHIFT_RIGHT_ON: u32 = 0x80;
    pub const SYM_ON: u32 = 0x4;
    pub const FUNCTION_ON: u32 = 0x8;
    pub const CTRL_ON: u32 = 0x1000;
    pub const CTRL_LEFT_ON: u32 = 0x2000;
    pub const CTRL_RIGHT_ON: u32 = 0x4000;
    pub const META_ON: u32 = 0x10000;
    pub const META_LEFT_ON: u32 = 0x20000;
    pub const META_RIGHT_ON: u32 = 0x40000;
    pub const CAPS_LOCK_ON: u32 = 0x100000;
    pub const NUM_LOCK_ON: u32 = 0x200000;
    pub const SCROLL_LOCK_ON: u32 = 0x400000;

    /// The bits of this set.
    pub fn bits(&self) -> (r: u32)
        ensures
            r == self.bits,
    {
        self.bits
    }
}

/// A set of Android key event flag bits.
#[derive(Debug, Clone, Copy, PartialEq, Eq, Hash, Structural)]
pub struct AndroidKeyFlag {
    pub bits: u32,
}

impl AndroidKeyFlag {
    /// The set of exactly these bits; the constants below name the known ones.
    pub fn from_bits_retain(bits: u32) -> (r: AndroidKeyFlag)
        ensures
            r.bits == bits,
    {
        AndroidKeyFlag { bits }
    }

    pub const SOFT_KEYBOARD: u32 = 0x2;
    pub const KEEP_TOUCH_MODE: u32 = 0x4;
    pub const FROM_SYSTEM: u32 = 0x8;
    pub const EDITOR_ACTION: u32 = 0x10;
    pub const CANCELED: u32 = 0x20;
    pub const VIRTUAL_HARD_KEY: u32 = 0x40;
    pub const LONG_PRESS: u32 = 0x80;
    pub const CANCELED_LONG_PRESS: u32 = 0x100;
    pub const TRACKING: u32 = 0x200;
    pub const FALLBACK: u32 = 0x400;
    pub const PREDISPATCH: u32 = 0x20000000;
    pub const START_TRACKING: u32 = 0x40000000;
    pub const TAINTED: u32 = 0x80000000;

    /// The bits of this set.
    pub fn bits(&self) -> (r: u32)
        ensures
            r == self.bits,
    {
        self.bits
    }
}

/// A key press to send to an Android device: the key, its meta state and
/// its flags.
#[derive(Debug, Clone, Copy, PartialEq, Eq, Structural)]
pub struct KeyEvent {
    pub keycode: AndroidKey,
    pub metastate: u32,
    pub flags: u32,
}

impl KeyEvent {
    /// A press of `keycode` with no meta state and no flag.
    pub fn new(keycode: AndroidKey) -> (r: KeyEvent)
        ensures
            r == (KeyEvent { keycode, metastate: 0, flags: 0 }),
    {
        KeyEvent { keycode, metastate: 0, flags: 0 }
    }

    /// This event with the bits of `metamodifier` added to its meta state.
    pub fn with_metamodifier(self, metamodifier: AndroidKeyMetaModifier) -> (r: KeyEvent)
        ensures
            r == (KeyEvent { metastate: self.metastate | metamodifier.bits, ..self }),
    {
        let mut event = self;
        event.metastate = event.metastate | metamodifier.bits();
        event
    }

    /// Adds the bits of `metamodifier` to the meta state.
    pub fn add_metamodifier(&mut self, metamodifier: AndroidKeyMetaModifier)
        ensures
            *final(self) == (KeyEvent { metastate: old(self).metastate | metamodifier.bits, ..*old(self) }),
    {
        self.metastate = self.metastate | metamodifier.bits();
    }

    /// Clears the bits of `metamodifier` from the meta state.
    pub fn remove_metamodifier(&mut self, metamodifier: AndroidKeyMetaModifier)
        ensures
            *final(self) == (KeyEvent { metastate: old(self).metastate & !metamodifier.bits, ..*old(self) }),
    {
        self.metastate = self.metastate & !metamodifier.bits();
    }

    /// This event with the bits of `flag` added to its flags.
    pub fn with_flag(self, flag: AndroidKeyFlag) -> (r: KeyEvent)
        ensures
            r == (KeyEvent { flags: self.flags | flag.bits, ..self }),
    {
        let mut event = self;
        event.flags = event.flags | flag.bits();
        event
    }

    /// Adds the bits of `flag` to the flags.
    pub fn add_flag(&mut self, flag: AndroidKeyFlag)
        ensures
            *final(self) == (KeyEvent { flags: old(self).flags | flag.bits, ..*old(self) }),
    {
        self.flags = self.flags | flag.bits();
    }

    /// Clears the bits of `flag` from the flags.
    pub fn remove_flag(&mut self, flag: AndroidKeyFlag)
        ensures
            *final(self) == (KeyEvent { flags: old(self).flags & !flag.bits, ..*old(self) }),
    {
        self.flags = self.flags & !flag.bits();
    }
}

impl From<AndroidKey> for KeyEvent {
    fn from(value: AndroidKey) -> KeyEvent {
        KeyEvent::new(value)
    }
}

impl vstd::std_specs::convert::FromSpecImpl<AndroidKey> for KeyEvent {
    open spec fn obeys_from_spec() -> bool {
        true
    }

    open spec fn from_spec(v: AndroidKey) -> KeyEvent {
        KeyEvent { keycode: v, metastate: 0, flags: 0 }
    }
}

/// How a device hides its on-screen keyboard.
#[derive(Debug, Clone, Copy, PartialEq, Eq, Structural)]
pub enum HideKeyboardStrategy {
    Press,
    PressKey,
    SwipeDown,
    TapOut,
    TapOutside,
    Default,
}

} // verus!
