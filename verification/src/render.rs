//! Frame decisions of the GPU renderer: when a frame must be drawn, which
//! rows and cells it covers, and how cluster colors are chosen.

use vstd::prelude::*;
use crate::session::chars_of;

verus! {

/// What the renderer remembers of the last frame it drew, to skip frames
/// when nothing changed. Colors and the palette are compared by the caller.
#[derive(Debug, Clone, Copy, PartialEq, Eq, Structural)]
pub struct RenderTracker {
    /// Current surface size in pixels.
    pub width: u32,
    pub height: u32,
    /// Terminal sequence number, surface size and viewport offset of the
    /// last frame drawn.
    pub last_rendered_seqno: u64,
    pub last_width: u32,
    pub last_height: u32,
    pub last_viewport_offset: isize,
}

/// Whether a tracker's surface has a size (it never has a zero one).
pub open spec fn tracker_wf(t: RenderTracker) -> bool {
    t.width > 0 && t.height > 0
}

/// Whether a frame must be drawn: the terminal changed, the surface was
/// resized, the colors or the palette changed, or the viewport moved.
pub open spec fn spec_needs_render(
    t: RenderTracker,
    seqno: u64,
    viewport_offset: isize,
    colors_changed: bool,
    palette_changed: bool,
) -> bool {
    ||| seqno != t.last_rendered_seqno
    ||| t.width != t.last_width || t.height != t.last_height
    ||| colors_changed
    ||| viewport_offset != t.last_viewport_offset
    ||| palette_changed
}

impl RenderTracker {
    /// A tracker for a new surface, set up so that the first frame is drawn.
    pub fn new(width: u32, height: u32) -> (t: Self)
        requires
            width > 0,
            height > 0,
        ensures
            tracker_wf(t),
            t.width == width,
            t.height == height,
            t.last_rendered_seqno == u64::MAX,
            t.last_width == 0,
            t.last_height == 0,
            t.last_viewport_offset == isize::MAX,
    {
        RenderTracker {
            width,
            height,
            last_rendered_seqno: u64::MAX,
            last_width: 0,
            last_height: 0,
            last_viewport_offset: isize::MAX,
        }
    }

    /// Whether the frame must be drawn (see `spec_needs_render`).
    pub fn needs_render(
        &self,
        seqno: u64,
        viewport_offset: isize,
        colors_changed: bool,
        palette_changed: bool,
    ) -> (b: bool)
        ensures
            b == spec_needs_render(*self, seqno, viewport_offset, colors_changed, palette_changed),
    {
        let seqno_changed = seqno != self.last_rendered_seqno;
        let size_changed = self.width != self.last_width || self.height != self.last_height;
        let viewport_changed = viewport_offset != self.last_viewport_offset;
        seqno_changed || size_changed || colors_changed || viewport_changed || palette_changed
    }

    /// Records a frame drawn for `seqno` at `viewport_offset`.
    pub fn mark_rendered(&mut self, seqno: u64, viewport_offset: isize)
        ensures
            final(self).width == old(self).width,
            final(self).height == old(self).height,
            final(self).last_rendered_seqno == seqno,
            final(self).last_width == old(self).width,
            final(self).last_height == old(self).height,
            final(self).last_viewport_offset == viewport_offset,
    {
        self.last_rendered_seqno = seqno;
        self.last_width = self.width;
        self.last_height = self.height;
        self.last_viewport_offset = viewport_offset;
    }

    /// A resize of the surface: ignored (returns false) where a side is
    /// zero; otherwise the new size is taken and the next frame is forced.
    pub fn resize(&mut self, width: u32, height: u32) -> (applied: bool)
        ensures
            applied == (width != 0 && height != 0),
            !applied ==> *final(self) == *old(self),
            applied ==> final(self).width == width && final(self).height == height
                && final(self).last_width == 0 && final(self).last_height == 0
                && final(self).last_rendered_seqno == old(self).last_rendered_seqno
                && final(self).last_viewport_offset == old(self).last_viewport_offset,
    {
        if width == 0 || height == 0 {
            return false;
        }
        self.width = width;
        self.height = height;
        self.last_width = 0;
        self.last_height = 0;
        true
    }

    /// A change of font: the next frame is forced.
    pub fn font_changed(&mut self)
        ensures
            final(self).width == old(self).width,
            final(self).height == old(self).height,
            final(self).last_rendered_seqno == u64::MAX,
            final(self).last_width == 0,
            final(self).last_height == 0,
            final(self).last_viewport_offset == old(self).last_viewport_offset,
    {
        self.last_rendered_seqno = u64::MAX;
        self.last_width = 0;
        self.last_height = 0;
    }
}

/// Idle frames are skipped: right after a frame is drawn for `seqno` at
/// `viewport_offset`, the same terminal state with unchanged colors and
/// palette needs no new frame.
pub proof fn lemma_idle_frame_skipped(t: RenderTracker, seqno: u64, viewport_offset: isize)
    ensures
        !spec_needs_render(
            RenderTracker {
                last_rendered_seqno: seqno,
                last_width: t.width,
                last_height: t.height,
                last_viewport_offset: viewport_offset,
                ..t
            },
            seqno,
            viewport_offset,
            false,
            false,
        ),
{
}

/// After a resize to a non-empty size, or after a font change on a
/// surface that has a size, the next frame is drawn whatever the terminal
/// shows.
pub proof fn lemma_resize_forces_frame(
    t: RenderTracker,
    seqno: u64,
    viewport_offset: isize,
    colors_changed: bool,
    palette_changed: bool,
)
    requires
        tracker_wf(t),
        t.last_width == 0,
    ensures
        spec_needs_render(t, seqno, viewport_offset, colors_changed, palette_changed),
{
}

/// `a - b`, or zero where `b` is larger.
pub open spec fn sat_sub(a: int, b: int) -> int {
    if a > b { a - b } else { 0 }
}

/// The first line of the screen (counting scrollback) shown at the top of
/// the viewport, and how many lines are shown: the viewport ends at the
/// bottom of the screen when the offset is zero and `viewport_offset` lines
/// higher otherwise (as an unsigned count), and only lines that exist are
/// shown.
pub fn visible_row_span(total_rows: usize, visible_rows: usize, viewport_offset: isize) -> (r: (
    usize,
    usize,
))
    ensures
        r.0 as int == sat_sub(sat_sub(total_rows as int, visible_rows as int), (viewport_offset as usize) as int),
        r.1 as int == (if visible_rows < total_rows - r.0 { visible_rows as int } else { total_rows - r.0 }),
{
    let bottom_first = total_rows.saturating_sub(visible_rows);
    let first = if viewport_offset == 0 {
        bottom_first
    } else {
        bottom_first.saturating_sub(viewport_offset as usize)
    };
    let available = total_rows - first;
    let count = if visible_rows < available { visible_rows } else { available };
    (first, count)
}

/// What the renderer does with a run of cells (a cluster) that starts at
/// column `first_cell_idx` and is `width` columns wide.
#[derive(Debug, Clone, Copy, PartialEq, Eq, Structural)]
pub enum ClusterSpan {
    /// The cluster starts past the right edge: the row is done.
    Stop,
    /// The cluster covers no column on screen: go on with the next one.
    Skip,
    /// Draw the cluster over this many columns.
    Draw(usize),
}

/// The columns of a cluster that fall on a screen `cols` columns wide.
pub fn cluster_span(first_cell_idx: usize, width: usize, cols: usize) -> (s: ClusterSpan)
    ensures
        first_cell_idx >= cols ==> s == ClusterSpan::Stop,
        first_cell_idx < cols ==> {
            let w = if width < cols - first_cell_idx { width as int } else { cols - first_cell_idx };
            if w == 0 { s == ClusterSpan::Skip } else { s == ClusterSpan::Draw(w as usize) }
        },
{
    if first_cell_idx >= cols {
        return ClusterSpan::Stop;
    }
    let room = cols - first_cell_idx;
    let w = if width < room { width } else { room };
    if w == 0 {
        ClusterSpan::Skip
    } else {
        ClusterSpan::Draw(w)
    }
}

/// Whether the cursor is drawn: only on the live output (offset zero), when
/// it is visible, and when its row (as an unsigned index) is on screen.
pub fn cursor_drawn(viewport_offset: isize, cursor_visible: bool, cursor_y: i64, visible_rows: usize) -> (b:
    bool)
    ensures
        b == (viewport_offset == 0 && cursor_visible && ((cursor_y as usize) as int) < visible_rows as int),
{
    viewport_offset == 0 && cursor_visible && (cursor_y as usize) < visible_rows
}

/// The palette index used for a cluster's foreground given as palette index
/// `idx`: one of the eight basic colors of a bold cluster is brightened to
/// its bright twin (`idx + 8`) where bold brightening is on.
pub fn bold_brightened_index(idx: u8, bold: bool, brightening: bool) -> (r: u8)
    ensures
        r == (if idx < 8 && brightening && bold { (idx + 8) as u8 } else { idx }),
{
    if idx < 8 && brightening && bold {
        idx + 8
    } else {
        idx
    }
}

/// How a cluster's colors are laid out.
#[derive(Debug, Clone, Copy, PartialEq, Eq, Structural)]
pub struct ColorLayout {
    /// Foreground and background trade places.
    pub swap: bool,
    /// The background is the default one (no background quad is drawn).
    pub bg_is_default: bool,
}

/// The cell's own reverse attribute combined with the terminal-wide
/// reverse video: colors are swapped where exactly one of them is set, and a
/// swapped background is never the default one.
pub fn cluster_color_layout(bg_attr_is_default: bool, cell_reverse: bool, reverse_video: bool) -> (l:
    ColorLayout)
    ensures
        l.swap == (cell_reverse != reverse_video),
        l.bg_is_default == (bg_attr_is_default && cell_reverse == reverse_video),
{
    let swap = cell_reverse == !reverse_video;
    ColorLayout { swap, bg_is_default: bg_attr_is_default && !swap }
}

/// Whether a cluster gets glyphs drawn: it is visible and its text has a
/// character other than a space (an empty text has none).
pub open spec fn spec_cluster_has_glyphs(invisible: bool, text: Seq<char>) -> bool {
    !invisible && exists|i: int| 0 <= i < text.len() && #[trigger] text[i] != ' '
}

/// Whether glyphs are drawn for a cluster (see `spec_cluster_has_glyphs`).
pub fn cluster_has_glyphs(invisible: bool, text: &str) -> (b: bool)
    ensures
        b == spec_cluster_has_glyphs(invisible, text@),
{
    if invisible {
        return false;
    }
    let chars = chars_of(text);
    let mut i: usize = 0;
    while i < chars.len()
        invariant
            !invisible,
            chars@ == text@,
            i <= chars@.len(),
            forall|j: int| 0 <= j < i ==> chars@[j] == ' ',
        decreases chars@.len() - i,
    {
        if chars[i] != ' ' {
            proof {
                assert(text@[i as int] != ' ');
            }
            return true;
        }
        i = i + 1;
    }
    false
}

/// Whether a shaping result may be cached: it has glyphs, and none of them
/// is the missing glyph (glyph index 0), so a later font fallback cannot
/// improve it.
pub fn shape_cacheable(glyph_indices: &Vec<u32>) -> (b: bool)
    ensures
        b == (glyph_indices@.len() > 0 && forall|i: int|
            0 <= i < glyph_indices@.len() ==> #[trigger] glyph_indices@[i] != 0),
{
    if glyph_indices.len() == 0 {
        return false;
    }
    let mut i: usize = 0;
    while i < glyph_indices.len()
        invariant
            i <= glyph_indices@.len(),
            forall|j: int| 0 <= j < i ==> #[trigger] glyph_indices@[j] != 0,
        decreases glyph_indices@.len() - i,
    {
        if glyph_indices[i] == 0 {
            return false;
        }
        i = i + 1;
    }
    true
}

/// What follows a paint pass over the quad buffers.
#[derive(Debug, Clone, Copy, PartialEq, Eq, Structural)]
pub enum PassStep {
    /// The buffers were large enough: draw the frame.
    Done,
    /// The buffers grew: paint again.
    Repeat,
    /// The buffers kept growing for four passes: give up on the frame.
    GiveUp,
}

/// The step after paint pass number `pass` (counting from zero).
pub fn after_paint_pass(pass: u32, allocated_more: bool) -> (s: PassStep)
    ensures
        !allocated_more ==> s == PassStep::Done,
        allocated_more && pass >= 3 ==> s == PassStep::GiveUp,
        allocated_more && pass < 3 ==> s == PassStep::Repeat,
{
    if !allocated_more {
        PassStep::Done
    } else if pass >= 3 {
        PassStep::GiveUp
    } else {
        PassStep::Repeat
    }
}

} // verus!
