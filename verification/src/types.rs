//! C-compatible value types shared with embedding hosts.

use vstd::prelude::*;

verus! {

/// RGBA color with 8-bit components.
#[derive(Debug, Clone, Copy, PartialEq, Eq, Structural)]
pub struct WezTermColorRGBA {
    pub r: u8,
    pub g: u8,
    pub b: u8,
    pub a: u8,
}

impl WezTermColorRGBA {
    /// The color whose four components are given.
    pub open spec fn spec_rgba(r: u8, g: u8, b: u8, a: u8) -> WezTermColorRGBA {
        WezTermColorRGBA { r, g, b, a }
    }
}

impl Default for WezTermColorRGBA {
    /// Fully transparent black.
    fn default() -> (c: Self)
        ensures
            c == WezTermColorRGBA::spec_rgba(0, 0, 0, 0),
    {
        WezTermColorRGBA { r: 0, g: 0, b: 0, a: 0 }
    }
}


/// Cursor shape variants.
#[derive(Debug, Clone, Copy, PartialEq, Eq, Structural)]
pub enum WezTermCursorShape {
    Default,
    BlinkingBlock,
    SteadyBlock,
    BlinkingUnderline,
    SteadyUnderline,
    BlinkingBar,
    SteadyBar,
}

/// Cursor state information.
#[derive(Debug, Clone, Copy, PartialEq, Eq, Structural)]
pub struct WezTermCursorInfo {
    pub x: u32,
    pub y: i32,
    pub shape: WezTermCursorShape,
    pub visible: bool,
}

impl WezTermCursorInfo {
    /// Packs a cursor position reported by the terminal into the C layout.
    ///
    /// The column and the row are narrowed to 32 bits the way an `as` cast
    /// narrows them.
    pub fn from_position(x: usize, y: i64, shape: WezTermCursorShape, visible: bool) -> (info: Self)
        ensures
            info.x == x as u32,
            info.y == y as i32,
            info.shape == shape,
            info.visible == visible,
    {
        WezTermCursorInfo { x: x as u32, y: y as i32, shape, visible }
    }
}

/// Underline style.
#[derive(Debug, Clone, Copy, PartialEq, Eq, Structural)]
pub enum WezTermUnderline {
    NoUnderline,
    Single,
    Double,
    Curly,
    Dotted,
    Dashed,
}

/// Text intensity (normal, bold, or faint).
#[derive(Debug, Clone, Copy, PartialEq, Eq, Structural)]
pub enum WezTermIntensity {
    Normal,
    Bold,
    Faint,
}

/// Largest number of UTF-8 bytes of a cell's text kept in a `WezTermCellInfo`.
pub const CELL_TEXT_MAX: usize = 7;

/// Information about a single cell in a terminal line.
#[derive(Debug, Clone, Copy, PartialEq, Eq)]
pub struct WezTermCellInfo {
    /// UTF-8 encoded text of this cell's grapheme cluster.
    /// Up to 7 bytes (most graphemes fit). NUL-padded.
    pub text: [u8; 8],
    /// Length of valid UTF-8 bytes in `text`.
    pub text_len: u8,
    /// Display width of this cell (1 for normal, 2 for wide characters).
    pub width: u8,
    /// Foreground color (resolved from palette).
    pub fg: WezTermColorRGBA,
    /// Background color (resolved from palette).
    pub bg: WezTermColorRGBA,
    /// Whether the cell is bold.
    pub bold: bool,
    /// Whether the cell is italic.
    pub italic: bool,
    /// Underline style.
    pub underline: WezTermUnderline,
    /// Whether the cell has strikethrough.
    pub strikethrough: bool,
    /// Whether the cell's colors are reversed.
    pub reverse: bool,
    /// Whether the cell is invisible.
    pub invisible: bool,
}

/// The text buffer of a cell holding the bytes `bytes`: their first seven
/// bytes (or all of them, if fewer), padded with NUL bytes to eight.
pub open spec fn cell_text_buffer(bytes: Seq<u8>) -> Seq<u8> {
    let n = if bytes.len() < CELL_TEXT_MAX { bytes.len() as int } else { CELL_TEXT_MAX as int };
    Seq::new(8, |i: int| if i < n { bytes[i] } else { 0u8 })
}

/// The cell shown where the terminal has nothing: one space, width one,
/// transparent colors and no attributes.
pub open spec fn is_blank_cell(c: WezTermCellInfo) -> bool {
    &&& c.text@ == cell_text_buffer(seq![32u8])
    &&& c.text_len == 1
    &&& c.width == 1
    &&& c.fg == WezTermColorRGBA::spec_rgba(0, 0, 0, 0)
    &&& c.bg == WezTermColorRGBA::spec_rgba(0, 0, 0, 0)
    &&& !c.bold
    &&& !c.italic
    &&& c.underline == WezTermUnderline::NoUnderline
    &&& !c.strikethrough
    &&& !c.reverse
    &&& !c.invisible
}

impl WezTermCellInfo {
    pub fn blank() -> (c: Self)
        ensures
            is_blank_cell(c),
    {
        let c = Self {
            text: [32u8, 0u8, 0u8, 0u8, 0u8, 0u8, 0u8, 0u8],
            text_len: 1,
            width: 1,
            fg: WezTermColorRGBA::default(),
            bg: WezTermColorRGBA::default(),
            bold: false,
            italic: false,
            underline: WezTermUnderline::NoUnderline,
            strikethrough: false,
            reverse: false,
            invisible: false,
        };
        assert(c.text@ =~= cell_text_buffer(seq![32u8]));
        c
    }

    /// Packs one screen cell into the C layout.
    ///
    /// At most seven bytes of the cell's UTF-8 text are kept (a longer
    /// grapheme is cut, byte-wise); the width is narrowed to a byte as an
    /// `as` cast narrows it; the cell is bold exactly when its intensity is
    /// `Bold`.
    pub fn from_parts(
        text: &[u8],
        width: usize,
        fg: WezTermColorRGBA,
        bg: WezTermColorRGBA,
        intensity: WezTermIntensity,
        italic: bool,
        underline: WezTermUnderline,
        strikethrough: bool,
        reverse: bool,
        invisible: bool,
    ) -> (c: Self)
        ensures
            c.text@ == cell_text_buffer(text@),
            c.text_len as int == (if text@.len() < CELL_TEXT_MAX { text@.len() as int } else { CELL_TEXT_MAX as int }),
            c.width == width as u8,
            c.fg == fg,
            c.bg == bg,
            c.bold == (intensity == WezTermIntensity::Bold),
            c.italic == italic,
            c.underline == underline,
            c.strikethrough == strikethrough,
            c.reverse == reverse,
            c.invisible == invisible,
    {
        let copy_len: usize = if text.len() < CELL_TEXT_MAX { text.len() } else { CELL_TEXT_MAX };
        let mut buf: [u8; 8] = [0u8, 0u8, 0u8, 0u8, 0u8, 0u8, 0u8, 0u8];
        let mut i: usize = 0;
        while i < copy_len
            invariant
                copy_len <= CELL_TEXT_MAX,
                copy_len <= text@.len(),
                i <= copy_len,
                buf@.len() == 8,
                forall|j: int| 0 <= j < 8 ==> #[trigger] buf@[j] == (if j < i { text@[j] } else { 0u8 }),
            decreases copy_len - i,
        {
            buf[i] = text[i];
            i = i + 1;
        }
        assert(buf@ =~= cell_text_buffer(text@));
        let bold = match intensity {
            WezTermIntensity::Bold => true,
            _ => false,
        };
        Self {
            text: buf,
            text_len: copy_len as u8,
            width: width as u8,
            fg,
            bg,
            bold,
            italic,
            underline,
            strikethrough,
            reverse,
            invisible,
        }
    }
}

/// Information about a line (row) in the terminal.
#[derive(Debug, Clone, Copy, PartialEq, Eq, Structural)]
pub struct WezTermLineInfo {
    /// Whether this line was wrapped from the previous line.
    pub wrapped: bool,
    /// The sequence number when this line was last changed.
    pub seqno: u64,
}


/// Configuration for creating a new terminal instance.
///
/// The palette entries that the host hands over are carried as a vector:
/// an empty vector stands for a missing (NULL) palette.
#[derive(Debug, Clone)]
pub struct WezTermConfig {
    /// Scrollback buffer size in lines. 0 = use default (3500).
    pub scrollback_size: u32,
    /// Default foreground color.
    pub foreground: WezTermColorRGBA,
    /// Default background color.
    pub background: WezTermColorRGBA,
    /// Cursor foreground color.
    pub cursor_fg: WezTermColorRGBA,
    /// Cursor background color.
    pub cursor_bg: WezTermColorRGBA,
    /// ANSI color palette entries. Empty = use defaults.
    pub ansi_colors: Vec<WezTermColorRGBA>,
    /// Number of entries of `ansi_colors` to use (max 256).
    pub ansi_color_count: u32,
    /// Enable Kitty graphics protocol.
    pub enable_kitty_graphics: bool,
    /// Enable Kitty keyboard protocol.
    pub enable_kitty_keyboard: bool,
}

impl Default for WezTermConfig {
    /// 3500 lines of scrollback, light grey on black, a dark grey cursor
    /// block, the built-in ANSI palette and both Kitty protocols off.
    fn default() -> (c: Self)
        ensures
            c.scrollback_size == 3500,
            c.foreground == WezTermColorRGBA::spec_rgba(204, 204, 204, 255),
            c.background == WezTermColorRGBA::spec_rgba(0, 0, 0, 255),
            c.cursor_fg == WezTermColorRGBA::spec_rgba(0, 0, 0, 255),
            c.cursor_bg == WezTermColorRGBA::spec_rgba(82, 82, 82, 255),
            c.ansi_colors@.len() == 0,
            c.ansi_color_count == 0,
            !c.enable_kitty_graphics,
            !c.enable_kitty_keyboard,
    {
        WezTermConfig {
            scrollback_size: 3500,
            foreground: WezTermColorRGBA { r: 204, g: 204, b: 204, a: 255 },
            background: WezTermColorRGBA { r: 0, g: 0, b: 0, a: 255 },
            cursor_fg: WezTermColorRGBA { r: 0, g: 0, b: 0, a: 255 },
            cursor_bg: WezTermColorRGBA { r: 82, g: 82, b: 82, a: 255 },
            ansi_colors: Vec::new(),
            ansi_color_count: 0,
            enable_kitty_graphics: false,
            enable_kitty_keyboard: false,
        }
    }
}

/// Key code for keyboard input.
/// Matches a subset of termwiz::input::KeyCode.
#[derive(Debug, Clone, Copy, PartialEq, Eq, Structural)]
pub enum WezTermKeyCode {
    /// A unicode character.
    Char,
    Backspace,
    Tab,
    Enter,
    Escape,
    PageUp,
    PageDown,
    End,
    Home,
    LeftArrow,
    RightArrow,
    UpArrow,
    DownArrow,
    Insert,
    Delete,
    F1,
    F2,
    F3,
    F4,
    F5,
    F6,
    F7,
    F8,
    F9,
    F10,
    F11,
    F12,
}

impl WezTermKeyCode {
    /// The number of a function key: `F1` to `F12` give 1 to 12, every other
    /// key gives `None`.
    pub fn function_key_number(self) -> (n: Option<u8>)
        ensures
            n is Some <==> (self == WezTermKeyCode::F1 || self == WezTermKeyCode::F2
                || self == WezTermKeyCode::F3 || self == WezTermKeyCode::F4
                || self == WezTermKeyCode::F5 || self == WezTermKeyCode::F6
                || self == WezTermKeyCode::F7 || self == WezTermKeyCode::F8
                || self == WezTermKeyCode::F9 || self == WezTermKeyCode::F10
                || self == WezTermKeyCode::F11 || self == WezTermKeyCode::F12),
            self == WezTermKeyCode::F1 ==> n == Some(1u8),
            self == WezTermKeyCode::F2 ==> n == Some(2u8),
            self == WezTermKeyCode::F3 ==> n == Some(3u8),
            self == WezTermKeyCode::F4 ==> n == Some(4u8),
            self == WezTermKeyCode::F5 ==> n == Some(5u8),
            self == WezTermKeyCode::F6 ==> n == Some(6u8),
            self == WezTermKeyCode::F7 ==> n == Some(7u8),
            self == WezTermKeyCode::F8 ==> n == Some(8u8),
            self == WezTermKeyCode::F9 ==> n == Some(9u8),
            self == WezTermKeyCode::F10 ==> n == Some(10u8),
            self == WezTermKeyCode::F11 ==> n == Some(11u8),
            self == WezTermKeyCode::F12 ==> n == Some(12u8),
    {
        match self {
            WezTermKeyCode::F1 => Some(1),
            WezTermKeyCode::F2 => Some(2),
            WezTermKeyCode::F3 => Some(3),
            WezTermKeyCode::F4 => Some(4),
            WezTermKeyCode::F5 => Some(5),
            WezTermKeyCode::F6 => Some(6),
            WezTermKeyCode::F7 => Some(7),
            WezTermKeyCode::F8 => Some(8),
            WezTermKeyCode::F9 => Some(9),
            WezTermKeyCode::F10 => Some(10),
            WezTermKeyCode::F11 => Some(11),
            WezTermKeyCode::F12 => Some(12),
            _ => None,
        }
    }
}

/// Key code with an associated character value (for Char variant).
#[derive(Debug, Clone, Copy, PartialEq, Eq, Structural)]
pub struct WezTermKeyEvent {
    pub code: WezTermKeyCode,
    /// The unicode character, if code == Char.
    pub char_value: u32,
    /// Modifier flags (bitmask of WEZTERM_MOD_*).
    pub modifiers: u32,
}

// Modifier flags matching termwiz::input::Modifiers
pub const WEZTERM_MOD_NONE: u32 = 0;

pub const WEZTERM_MOD_SHIFT: u32 = 1;

pub const WEZTERM_MOD_ALT: u32 = 2;

pub const WEZTERM_MOD_CTRL: u32 = 4;

pub const WEZTERM_MOD_SUPER: u32 = 8;

/// Mouse button for mouse events.
#[derive(Debug, Clone, Copy, PartialEq, Eq, Structural)]
pub enum WezTermMouseButton {
    Left,
    Middle,
    Right,
    WheelUp,
    WheelDown,
    NoButton,
}

/// Mouse event kind.
#[derive(Debug, Clone, Copy, PartialEq, Eq, Structural)]
pub enum WezTermMouseEventKind {
    Press,
    Release,
    Move,
}

} // verus!
