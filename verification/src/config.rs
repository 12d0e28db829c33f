//! Terminal configuration derived from what the host hands over.

use vstd::prelude::*;
use crate::types::{WezTermColorRGBA, WezTermConfig};

verus! {

/// Scrollback length used when the host asks for none.
pub const DEFAULT_SCROLLBACK: usize = 3500;

/// Most palette entries a host can set.
pub const PALETTE_SIZE: usize = 256;

/// The colors a host sets over the terminal's built-in palette. Colors
/// left `None`, and palette entries past the end of `ansi`, keep their
/// built-in value.
#[derive(Debug, Clone, PartialEq, Eq)]
pub struct PaletteOverrides {
    pub foreground: Option<WezTermColorRGBA>,
    pub background: Option<WezTermColorRGBA>,
    pub cursor_fg: Option<WezTermColorRGBA>,
    pub cursor_bg: Option<WezTermColorRGBA>,
    /// Entries 0, 1, ... of the 256-color palette.
    pub ansi: Vec<WezTermColorRGBA>,
}

/// How many palette entries a host's palette array supplies: `count`, at
/// most 256, and none where the array is missing.
pub open spec fn palette_entry_count(present: bool, count: u32) -> int {
    if !present {
        0
    } else if count as int > PALETTE_SIZE as int {
        PALETTE_SIZE as int
    } else {
        count as int
    }
}

/// The palette entries to set from a host's palette array: its first
/// `min(count, 256)` colors; an empty array stands for a missing one.
pub fn palette_entries(colors: &Vec<WezTermColorRGBA>, count: u32) -> (entries: Vec<WezTermColorRGBA>)
    requires
        colors@.len() > 0 ==> colors@.len() >= palette_entry_count(true, count),
    ensures
        entries@ == colors@.take(palette_entry_count(colors@.len() > 0, count)),
{
    let n: usize = if colors.len() == 0 {
        0
    } else if (count as usize) > PALETTE_SIZE {
        PALETTE_SIZE
    } else {
        count as usize
    };
    let mut entries: Vec<WezTermColorRGBA> = Vec::new();
    let mut i: usize = 0;
    while i < n
        invariant
            n <= colors@.len(),
            i <= n,
            entries@ =~= colors@.take(i as int),
        decreases n - i,
    {
        entries.push(colors[i]);
        i = i + 1;
    }
    entries
}

/// The palette a host sets through the palette-update call: the four
/// default colors and the first `min(ansi_count, 256)` entries of
/// `ansi_colors` (none where the array is missing, that is empty).
pub fn palette_update(
    fg: WezTermColorRGBA,
    bg: WezTermColorRGBA,
    cursor_fg: WezTermColorRGBA,
    cursor_bg: WezTermColorRGBA,
    ansi_colors: &Vec<WezTermColorRGBA>,
    ansi_count: u32,
) -> (p: PaletteOverrides)
    requires
        ansi_colors@.len() > 0 ==> ansi_colors@.len() >= palette_entry_count(true, ansi_count),
    ensures
        p.foreground == Some(fg),
        p.background == Some(bg),
        p.cursor_fg == Some(cursor_fg),
        p.cursor_bg == Some(cursor_bg),
        p.ansi@ == ansi_colors@.take(palette_entry_count(ansi_colors@.len() > 0, ansi_count)),
{
    PaletteOverrides {
        foreground: Some(fg),
        background: Some(bg),
        cursor_fg: Some(cursor_fg),
        cursor_bg: Some(cursor_bg),
        ansi: palette_entries(ansi_colors, ansi_count),
    }
}

/// Terminal configuration backed by FFI-provided values.
#[derive(Debug, Clone)]
pub struct FFITerminalConfig {
    scrollback_size: usize,
    palette: PaletteOverrides,
    enable_kitty_graphics: bool,
    enable_kitty_keyboard: bool,
}

impl FFITerminalConfig {
    pub closed spec fn spec_scrollback_size(&self) -> usize {
        self.scrollback_size
    }

    pub closed spec fn spec_palette(&self) -> PaletteOverrides {
        self.palette
    }

    pub closed spec fn spec_kitty_graphics(&self) -> bool {
        self.enable_kitty_graphics
    }

    pub closed spec fn spec_kitty_keyboard(&self) -> bool {
        self.enable_kitty_keyboard
    }

    /// Create a config from the host's configuration struct.
    ///
    /// The four default colors are set from `cfg`; so are the first
    /// `min(ansi_color_count, 256)` palette entries, where `cfg` has a
    /// palette array. A scrollback size of zero means 3500 lines.
    pub fn from_ffi(cfg: &WezTermConfig) -> (c: Self)
        requires
            cfg.ansi_colors@.len() > 0 ==> cfg.ansi_colors@.len() >= palette_entry_count(
                true,
                cfg.ansi_color_count,
            ),
        ensures
            c.spec_scrollback_size() == (if cfg.scrollback_size == 0 {
                DEFAULT_SCROLLBACK
            } else {
                cfg.scrollback_size as usize
            }),
            c.spec_palette().foreground == Some(cfg.foreground),
            c.spec_palette().background == Some(cfg.background),
            c.spec_palette().cursor_fg == Some(cfg.cursor_fg),
            c.spec_palette().cursor_bg == Some(cfg.cursor_bg),
            c.spec_palette().ansi@ == cfg.ansi_colors@.take(
                palette_entry_count(cfg.ansi_colors@.len() > 0, cfg.ansi_color_count),
            ),
            c.spec_kitty_graphics() == cfg.enable_kitty_graphics,
            c.spec_kitty_keyboard() == cfg.enable_kitty_keyboard,
    {
        let palette = palette_update(
            cfg.foreground,
            cfg.background,
            cfg.cursor_fg,
            cfg.cursor_bg,
            &cfg.ansi_colors,
            cfg.ansi_color_count,
        );
        let scrollback: usize = if cfg.scrollback_size == 0 {
            DEFAULT_SCROLLBACK
        } else {
            cfg.scrollback_size as usize
        };
        FFITerminalConfig {
            scrollback_size: scrollback,
            palette,
            enable_kitty_graphics: cfg.enable_kitty_graphics,
            enable_kitty_keyboard: cfg.enable_kitty_keyboard,
        }
    }

    pub fn scrollback_size(&self) -> (n: usize)
        ensures
            n == self.spec_scrollback_size(),
    {
        self.scrollback_size
    }

    pub fn palette(&self) -> (p: &PaletteOverrides)
        ensures
            *p == self.spec_palette(),
    {
        &self.palette
    }

    pub fn enable_kitty_graphics(&self) -> (b: bool)
        ensures
            b == self.spec_kitty_graphics(),
    {
        self.enable_kitty_graphics
    }

    pub fn enable_kitty_keyboard(&self) -> (b: bool)
        ensures
            b == self.spec_kitty_keyboard(),
    {
        self.enable_kitty_keyboard
    }

    /// Title reporting is never enabled for embedded terminals.
    pub fn enable_title_reporting(&self) -> (b: bool)
        ensures
            !b,
    {
        false
    }
}

impl Default for FFITerminalConfig {
    /// The configuration used when the host gives none: 3500 lines of
    /// scrollback, the built-in palette, Kitty graphics off and the Kitty
    /// keyboard protocol on.
    fn default() -> (c: Self)
        ensures
            c.spec_scrollback_size() == DEFAULT_SCROLLBACK,
            c.spec_palette().foreground is None,
            c.spec_palette().background is None,
            c.spec_palette().cursor_fg is None,
            c.spec_palette().cursor_bg is None,
            c.spec_palette().ansi@.len() == 0,
            !c.spec_kitty_graphics(),
            c.spec_kitty_keyboard(),
    {
        FFITerminalConfig {
            scrollback_size: DEFAULT_SCROLLBACK,
            palette: PaletteOverrides {
                foreground: None,
                background: None,
                cursor_fg: None,
                cursor_bg: None,
                ansi: Vec::new(),
            },
            enable_kitty_graphics: false,
            enable_kitty_keyboard: true,
        }
    }

}

/// A host's palette array supplies `count` entries, capped at the 256 of
/// the palette: a full 256-color palette sets every entry, a shorter one
/// sets exactly its `count` first entries, and a missing one sets none.
pub proof fn lemma_palette_takes_count_up_to_256(count: u32)
    ensures
        palette_entry_count(true, count) == (if count <= 256 { count as int } else { 256 }),
        palette_entry_count(true, 256) == 256,
        palette_entry_count(false, count) == 0,
{
}

} // verus!
