//! Small conversions: key numbers to key codes, and the driver's
//! NUL-terminated names to strings.

use vstd::prelude::*;
use crate::native::string_from_utf8;

verus! {

/// The keys of a keyboard.
#[derive(Clone, Copy, Debug, PartialEq, Eq, Hash, Structural)]
pub enum VirtualKeyCode {
    Key1,
    Key2,
    Key3,
    Key4,
    Key5,
    Key6,
    Key7,
    Key8,
    Key9,
    Key0,
    A,
    B,
    C,
    D,
    E,
    F,
    G,
    H,
    I,
    J,
    K,
    L,
    M,
    N,
    O,
    P,
    Q,
    R,
    S,
    T,
    U,
    V,
    W,
    X,
    Y,
    Z,
    Escape,
    F1,
    F2,
    F3,
    F4,
    F5,
    F6,
    F7,
    F8,
    F9,
    F10,
    F11,
    F12,
    F13,
    F14,
    F15,
    Snapshot,
    Scroll,
    Pause,
    Insert,
    Home,
    Delete,
    End,
    PageDown,
    PageUp,
    Left,
    Up,
    Right,
    Down,
    Back,
    Return,
    Space,
    Numlock,
    Numpad0,
    Numpad1,
    Numpad2,
    Numpad3,
    Numpad4,
    Numpad5,
    Numpad6,
    Numpad7,
    Numpad8,
    Numpad9,
    AbntC1,
    AbntC2,
    Add,
    Apostrophe,
    Apps,
    At,
    Ax,
    Backslash,
    Calculator,
    Capital,
    Colon,
    Comma,
    Convert,
    Decimal,
    Divide,
    Equals,
    Grave,
    Kana,
    Kanji,
    LAlt,
    LBracket,
    LControl,
    LShift,
    LWin,
    Mail,
    MediaSelect,
    MediaStop,
    Minus,
    Multiply,
    Mute,
    MyComputer,
    NavigateForward,
    NavigateBackward,
    NextTrack,
    NoConvert,
    NumpadComma,
    NumpadEnter,
    NumpadEquals,
    OEM102,
    Period,
    PlayPause,
    Power,
    PrevTrack,
    RAlt,
    RBracket,
    RControl,
    RShift,
    RWin,
    Semicolon,
    Slash,
    Sleep,
    Stop,
    Subtract,
    Sysrq,
    Tab,
    Underline,
    Unlabeled,
    VolumeDown,
    VolumeUp,
    Wake,
    WebBack,
    WebFavorites,
    WebForward,
    WebHome,
    WebRefresh,
    WebSearch,
    WebStop,
    Yen,
    F16,
    F17,
    F18,
    F19,
    F20,
    F21,
    F22,
    F23,
    F24,
    Compose,
    Caret,
    Copy,
    Paste,
    Cut,
}

/// The key that carries the number `value`, for the numbers that carry one.
pub open spec fn key_numbered(value: u8) -> Option<VirtualKeyCode> {
    match value {
        1 => Some(VirtualKeyCode::Key1),
        2 => Some(VirtualKeyCode::Key2),
        3 => Some(VirtualKeyCode::Key3),
        4 => Some(VirtualKeyCode::Key4),
        5 => Some(VirtualKeyCode::Key5),
        6 => Some(VirtualKeyCode::Key6),
        7 => Some(VirtualKeyCode::Key7),
        8 => Some(VirtualKeyCode::Key8),
        9 => Some(VirtualKeyCode::Key9),
        10 => Some(VirtualKeyCode::Key0),
        11 => Some(VirtualKeyCode::A),
        12 => Some(VirtualKeyCode::B),
        13 => Some(VirtualKeyCode::C),
        14 => Some(VirtualKeyCode::D),
        15 => Some(VirtualKeyCode::E),
        16 => Some(VirtualKeyCode::F),
        17 => Some(VirtualKeyCode::G),
        18 => Some(VirtualKeyCode::H),
        19 => Some(VirtualKeyCode::I),
        20 => Some(VirtualKeyCode::J),
        21 => Some(VirtualKeyCode::K),
        22 => Some(VirtualKeyCode::L),
        23 => Some(VirtualKeyCode::M),
        24 => Some(VirtualKeyCode::N),
        25 => Some(VirtualKeyCode::O),
        26 => Some(VirtualKeyCode::P),
        27 => Some(VirtualKeyCode::Q),
        28 => Some(VirtualKeyCode::R),
        29 => Some(VirtualKeyCode::S),
        30 => Some(VirtualKeyCode::T),
        31 => Some(VirtualKeyCode::U),
        32 => Some(VirtualKeyCode::V),
        33 => Some(VirtualKeyCode::W),
        34 => Some(VirtualKeyCode::X),
        35 => Some(VirtualKeyCode::Y),
        36 => Some(VirtualKeyCode::Z),
        37 => Some(VirtualKeyCode::Escape),
        38 => Some(VirtualKeyCode::F1),
        39 => Some(VirtualKeyCode::F2),
        40 => Some(VirtualKeyCode::F3),
        41 => Some(VirtualKeyCode::F4),
        42 => Some(VirtualKeyCode::F5),
        43 => Some(VirtualKeyCode::F6),
        44 => Some(VirtualKeyCode::F7),
        45 => Some(VirtualKeyCode::F8),
        46 => Some(VirtualKeyCode::F9),
        47 => Some(VirtualKeyCode::F10),
        48 => Some(VirtualKeyCode::F11),
        49 => Some(VirtualKeyCode::F12),
        50 => Some(VirtualKeyCode::F13),
        51 => Some(VirtualKeyCode::F14),
        52 => Some(VirtualKeyCode::F15),
        53 => Some(VirtualKeyCode::Snapshot),
        54 => Some(VirtualKeyCode::Scroll),
        55 => Some(VirtualKeyCode::Pause),
        56 => Some(VirtualKeyCode::Insert),
        57 => Some(VirtualKeyCode::Home),
        58 => Some(VirtualKeyCode::Delete),
        59 => Some(VirtualKeyCode::End),
        60 => Some(VirtualKeyCode::PageDown),
        61 => Some(VirtualKeyCode::PageUp),
        62 => Some(VirtualKeyCode::Left),
        63 => Some(VirtualKeyCode::Up),
        64 => Some(VirtualKeyCode::Right),
        65 => Some(VirtualKeyCode::Down),
        66 => Some(VirtualKeyCode::Back),
        67 => Some(VirtualKeyCode::Return),
        68 => Some(VirtualKeyCode::Space),
        69 => Some(VirtualKeyCode::Numlock),
        70 => Some(VirtualKeyCode::Numpad0),
        71 => Some(VirtualKeyCode::Numpad1),
        72 => Some(VirtualKeyCode::Numpad2),
        73 => Some(VirtualKeyCode::Numpad3),
        74 => Some(VirtualKeyCode::Numpad4),
        75 => Some(VirtualKeyCode::Numpad5),
        76 => Some(VirtualKeyCode::Numpad6),
        77 => Some(VirtualKeyCode::Numpad7),
        78 => Some(VirtualKeyCode::Numpad8),
        79 => Some(VirtualKeyCode::Numpad9),
        80 => Some(VirtualKeyCode::AbntC1),
        81 => Some(VirtualKeyCode::AbntC2),
        82 => Some(VirtualKeyCode::Add),
        83 => Some(VirtualKeyCode::Apostrophe),
        84 => Some(VirtualKeyCode::Apps),
        85 => Some(VirtualKeyCode::At),
        86 => Some(VirtualKeyCode::Ax),
        87 => Some(VirtualKeyCode::Backslash),
        88 => Some(VirtualKeyCode::Calculator),
        89 => Some(VirtualKeyCode::Capital),
        90 => Some(VirtualKeyCode::Colon),
        91 => Some(VirtualKeyCode::Comma),
        92 => Some(VirtualKeyCode::Convert),
        93 => Some(VirtualKeyCode::Decimal),
        94 => Some(VirtualKeyCode::Divide),
        95 => Some(VirtualKeyCode::Equals),
        96 => Some(VirtualKeyCode::Grave),
        97 => Some(VirtualKeyCode::Kana),
        98 => Some(VirtualKeyCode::Kanji),
        99 => Some(VirtualKeyCode::LAlt),
        100 => Some(VirtualKeyCode::LBracket),
        101 => Some(VirtualKeyCode::LControl),
        103 => Some(VirtualKeyCode::LShift),
        104 => Some(VirtualKeyCode::LWin),
        105 => Some(VirtualKeyCode::Mail),
        106 => Some(VirtualKeyCode::MediaSelect),
        107 => Some(VirtualKeyCode::MediaStop),
        108 => Some(VirtualKeyCode::Minus),
        109 => Some(VirtualKeyCode::Multiply),
        110 => Some(VirtualKeyCode::Mute),
        111 => Some(VirtualKeyCode::MyComputer),
        112 => Some(VirtualKeyCode::NavigateForward),
        113 => Some(VirtualKeyCode::NavigateBackward),
        114 => Some(VirtualKeyCode::NextTrack),
        115 => Some(VirtualKeyCode::NoConvert),
        116 => Some(VirtualKeyCode::NumpadComma),
        117 => Some(VirtualKeyCode::NumpadEnter),
        118 => Some(VirtualKeyCode::NumpadEquals),
        119 => Some(VirtualKeyCode::OEM102),
        120 => Some(VirtualKeyCode::Period),
        121 => Some(VirtualKeyCode::PlayPause),
        122 => Some(VirtualKeyCode::Power),
        123 => Some(VirtualKeyCode::PrevTrack),
        124 => Some(VirtualKeyCode::RAlt),
        125 => Some(VirtualKeyCode::RBracket),
        126 => Some(VirtualKeyCode::RControl),
        128 => Some(VirtualKeyCode::RShift),
        129 => Some(VirtualKeyCode::RWin),
        130 => Some(VirtualKeyCode::Semicolon),
        131 => Some(VirtualKeyCode::Slash),
        132 => Some(VirtualKeyCode::Sleep),
        133 => Some(VirtualKeyCode::Stop),
        134 => Some(VirtualKeyCode::Subtract),
        135 => Some(VirtualKeyCode::Sysrq),
        136 => Some(VirtualKeyCode::Tab),
        137 => Some(VirtualKeyCode::Underline),
        138 => Some(VirtualKeyCode::Unlabeled),
        139 => Some(VirtualKeyCode::VolumeDown),
        140 => Some(VirtualKeyCode::VolumeUp),
        141 => Some(VirtualKeyCode::Wake),
        142 => Some(VirtualKeyCode::WebBack),
        143 => Some(VirtualKeyCode::WebFavorites),
        144 => Some(VirtualKeyCode::WebForward),
        145 => Some(VirtualKeyCode::WebHome),
        146 => Some(VirtualKeyCode::WebRefresh),
        147 => Some(VirtualKeyCode::WebSearch),
        148 => Some(VirtualKeyCode::WebStop),
        149 => Some(VirtualKeyCode::Yen),
        _ => None,
    }
}

/// The numbers 1 to 149 carry a key, but for 102 and 127.
pub proof fn lemma_numbers_with_key(value: u8)
    ensures
        key_numbered(value) is Some <==> 1 <= value <= 149 && value != 102 && value != 127,
{
}

/// No key carries two numbers.
pub proof fn lemma_key_numbers_distinct(a: u8, b: u8)
    requires
        key_numbered(a) is Some,
        key_numbered(a) == key_numbered(b),
    ensures
        a == b,
{
}

/// Where `raw` ends as a name: at its first zero byte, or at its end where
/// it has none.
pub open spec fn is_name_end(raw: Seq<u8>, n: int) -> bool {
    &&& 0 <= n <= raw.len()
    &&& n < raw.len() ==> raw[n] == 0
    &&& forall|i: int| 0 <= i < n ==> raw[i] != 0
}

/// The bytes of `raw` before its first zero byte.
pub open spec fn name_bytes(raw: Seq<u8>) -> Seq<u8> {
    raw.take(choose|n: int| is_name_end(raw, n))
}

/// A name ends in one place only.
pub proof fn lemma_name_end_unique(raw: Seq<u8>, n: int, m: int)
    requires
        is_name_end(raw, n),
        is_name_end(raw, m),
    ensures
        n == m,
{
    if n < m {
        assert(raw[n] != 0);
    }
    if m < n {
        assert(raw[m] != 0);
    }
}

/// The key that carries the number `value`.
pub fn keycode_from_i8(value: u8) -> (r: Option<VirtualKeyCode>)
    ensures
        r == key_numbered(value),
{
    match value {
        1 => Some(VirtualKeyCode::Key1),
        2 => Some(VirtualKeyCode::Key2),
        3 => Some(VirtualKeyCode::Key3),
        4 => Some(VirtualKeyCode::Key4),
        5 => Some(VirtualKeyCode::Key5),
        6 => Some(VirtualKeyCode::Key6),
        7 => Some(VirtualKeyCode::Key7),
        8 => Some(VirtualKeyCode::Key8),
        9 => Some(VirtualKeyCode::Key9),
        10 => Some(VirtualKeyCode::Key0),
        11 => Some(VirtualKeyCode::A),
        12 => Some(VirtualKeyCode::B),
        13 => Some(VirtualKeyCode::C),
        14 => Some(VirtualKeyCode::D),
        15 => Some(VirtualKeyCode::E),
        16 => Some(VirtualKeyCode::F),
        17 => Some(VirtualKeyCode::G),
        18 => Some(VirtualKeyCode::H),
        19 => Some(VirtualKeyCode::I),
        20 => Some(VirtualKeyCode::J),
        21 => Some(VirtualKeyCode::K),
        22 => Some(VirtualKeyCode::L),
        23 => Some(VirtualKeyCode::M),
        24 => Some(VirtualKeyCode::N),
        25 => Some(VirtualKeyCode::O),
        26 => Some(VirtualKeyCode::P),
        27 => Some(VirtualKeyCode::Q),
        28 => Some(VirtualKeyCode::R),
        29 => Some(VirtualKeyCode::S),
        30 => Some(VirtualKeyCode::T),
        31 => Some(VirtualKeyCode::U),
        32 => Some(VirtualKeyCode::V),
        33 => Some(VirtualKeyCode::W),
        34 => Some(VirtualKeyCode::X),
        35 => Some(VirtualKeyCode::Y),
        36 => Some(VirtualKeyCode::Z),
        37 => Some(VirtualKeyCode::Escape),
        38 => Some(VirtualKeyCode::F1),
        39 => Some(VirtualKeyCode::F2),
        40 => Some(VirtualKeyCode::F3),
        41 => Some(VirtualKeyCode::F4),
        42 => Some(VirtualKeyCode::F5),
        43 => Some(VirtualKeyCode::F6),
        44 => Some(VirtualKeyCode::F7),
        45 => Some(VirtualKeyCode::F8),
        46 => Some(VirtualKeyCode::F9),
        47 => Some(VirtualKeyCode::F10),
        48 => Some(VirtualKeyCode::F11),
        49 => Some(VirtualKeyCode::F12),
        50 => Some(VirtualKeyCode::F13),
        51 => Some(VirtualKeyCode::F14),
        52 => Some(VirtualKeyCode::F15),
        53 => Some(VirtualKeyCode::Snapshot),
        54 => Some(VirtualKeyCode::Scroll),
        55 => Some(VirtualKeyCode::Pause),
        56 => Some(VirtualKeyCode::Insert),
        57 => Some(VirtualKeyCode::Home),
        58 => Some(VirtualKeyCode::Delete),
        59 => Some(VirtualKeyCode::End),
        60 => Some(VirtualKeyCode::PageDown),
        61 => Some(VirtualKeyCode::PageUp),
        62 => Some(VirtualKeyCode::Left),
        63 => Some(VirtualKeyCode::Up),
        64 => Some(VirtualKeyCode::Right),
        65 => Some(VirtualKeyCode::Down),
        66 => Some(VirtualKeyCode::Back),
        67 => Some(VirtualKeyCode::Return),
        68 => Some(VirtualKeyCode::Space),
        69 => Some(VirtualKeyCode::Numlock),
        70 => Some(VirtualKeyCode::Numpad0),
        71 => Some(VirtualKeyCode::Numpad1),
        72 => Some(VirtualKeyCode::Numpad2),
        73 => Some(VirtualKeyCode::Numpad3),
        74 => Some(VirtualKeyCode::Numpad4),
        75 => Some(VirtualKeyCode::Numpad5),
        76 => Some(VirtualKeyCode::Numpad6),
        77 => Some(VirtualKeyCode::Numpad7),
        78 => Some(VirtualKeyCode::Numpad8),
        79 => Some(VirtualKeyCode::Numpad9),
        80 => Some(VirtualKeyCode::AbntC1),
        81 => Some(VirtualKeyCode::AbntC2),
        82 => Some(VirtualKeyCode::Add),
        83 => Some(VirtualKeyCode::Apostrophe),
        84 => Some(VirtualKeyCode::Apps),
        85 => Some(VirtualKeyCode::At),
        86 => Some(VirtualKeyCode::Ax),
        87 => Some(VirtualKeyCode::Backslash),
        88 => Some(VirtualKeyCode::Calculator),
        89 => Some(VirtualKeyCode::Capital),
        90 => Some(VirtualKeyCode::Colon),
        91 => Some(VirtualKeyCode::Comma),
        92 => Some(VirtualKeyCode::Convert),
        93 => Some(VirtualKeyCode::Decimal),
        94 => Some(VirtualKeyCode::Divide),
        95 => Some(VirtualKeyCode::Equals),
        96 => Some(VirtualKeyCode::Grave),
        97 => Some(VirtualKeyCode::Kana),
        98 => Some(VirtualKeyCode::Kanji),
        99 => Some(VirtualKeyCode::LAlt),
        100 => Some(VirtualKeyCode::LBracket),
        101 => Some(VirtualKeyCode::LControl),
        103 => Some(VirtualKeyCode::LShift),
        104 => Some(VirtualKeyCode::LWin),
        105 => Some(VirtualKeyCode::Mail),
        106 => Some(VirtualKeyCode::MediaSelect),
        107 => Some(VirtualKeyCode::MediaStop),
        108 => Some(VirtualKeyCode::Minus),
        109 => Some(VirtualKeyCode::Multiply),
        110 => Some(VirtualKeyCode::Mute),
        111 => Some(VirtualKeyCode::MyComputer),
        112 => Some(VirtualKeyCode::NavigateForward),
        113 => Some(VirtualKeyCode::NavigateBackward),
        114 => Some(VirtualKeyCode::NextTrack),
        115 => Some(VirtualKeyCode::NoConvert),
        116 => Some(VirtualKeyCode::NumpadComma),
        117 => Some(VirtualKeyCode::NumpadEnter),
        118 => Some(VirtualKeyCode::NumpadEquals),
        119 => Some(VirtualKeyCode::OEM102),
        120 => Some(VirtualKeyCode::Period),
        121 => Some(VirtualKeyCode::PlayPause),
        122 => Some(VirtualKeyCode::Power),
        123 => Some(VirtualKeyCode::PrevTrack),
        124 => Some(VirtualKeyCode::RAlt),
        125 => Some(VirtualKeyCode::RBracket),
        126 => Some(VirtualKeyCode::RControl),
        128 => Some(VirtualKeyCode::RShift),
        129 => Some(VirtualKeyCode::RWin),
        130 => Some(VirtualKeyCode::Semicolon),
        131 => Some(VirtualKeyCode::Slash),
        132 => Some(VirtualKeyCode::Sleep),
        133 => Some(VirtualKeyCode::Stop),
        134 => Some(VirtualKeyCode::Subtract),
        135 => Some(VirtualKeyCode::Sysrq),
        136 => Some(VirtualKeyCode::Tab),
        137 => Some(VirtualKeyCode::Underline),
        138 => Some(VirtualKeyCode::Unlabeled),
        139 => Some(VirtualKeyCode::VolumeDown),
        140 => Some(VirtualKeyCode::VolumeUp),
        141 => Some(VirtualKeyCode::Wake),
        142 => Some(VirtualKeyCode::WebBack),
        143 => Some(VirtualKeyCode::WebFavorites),
        144 => Some(VirtualKeyCode::WebForward),
        145 => Some(VirtualKeyCode::WebHome),
        146 => Some(VirtualKeyCode::WebRefresh),
        147 => Some(VirtualKeyCode::WebSearch),
        148 => Some(VirtualKeyCode::WebStop),
        149 => Some(VirtualKeyCode::Yen),
        _ => None,
    }
}

/// Reads a name as the driver writes it: the bytes before the first zero
/// byte, taken as UTF-8. Returns `None` exactly when those bytes are not
/// valid UTF-8.
pub fn vk_to_string(raw_string_array: &[u8]) -> (r: Option<String>)
    ensures
        r is Some <==> vstd::utf8::valid_utf8(name_bytes(raw_string_array@)),
        r matches Some(name) ==> name@ == vstd::utf8::decode_utf8(name_bytes(raw_string_array@)),
{
    let mut content: Vec<u8> = Vec::new();
    let mut i: usize = 0;
    while i < raw_string_array.len() && raw_string_array[i] != 0
        invariant
            i <= raw_string_array@.len(),
            content@ == raw_string_array@.take(i as int),
            forall|j: int| 0 <= j < i ==> raw_string_array@[j] != 0,
        decreases raw_string_array@.len() - i,
    {
        content.push(raw_string_array[i]);
        assert(content@ =~= raw_string_array@.take(i + 1));
        i = i + 1;
    }
    proof {
        assert(is_name_end(raw_string_array@, i as int));
        let n = choose|n: int| is_name_end(raw_string_array@, n);
        lemma_name_end_unique(raw_string_array@, i as int, n);
    }
    string_from_utf8(content)
}

} // verus!
