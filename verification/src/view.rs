//! The per-terminal view state kept beside the terminal engine: the
//! scrollback viewport and the mouse-driven text selection.

use vstd::prelude::*;
use crate::selection::{point_le, SelectionPoint, SelectionRange};
use crate::types::{WezTermMouseButton, WezTermMouseEventKind};

verus! {

/// Viewport and selection state of one terminal instance.
#[derive(Debug, Clone, Copy, PartialEq, Eq, Structural)]
pub struct ViewState {
    /// Viewport offset for scrollback viewing. 0 means showing the live
    /// terminal output, positive values scroll back into history.
    pub viewport_offset: isize,
    /// Current text selection, if any.
    pub selection: Option<SelectionRange>,
    /// Whether a mouse drag selection is in progress.
    pub selecting: bool,
}

/// The greatest viewport offset for a screen with `total_rows` lines of
/// which `visible_rows` are visible: the number of lines above the visible
/// area, or zero.
pub open spec fn max_viewport_offset(total_rows: int, visible_rows: int) -> int {
    if total_rows - visible_rows > 0 { total_rows - visible_rows } else { 0 }
}

/// `v` clamped to `[lo, hi]`.
pub open spec fn clamp(v: int, lo: int, hi: int) -> int {
    if v < lo { lo } else if v > hi { hi } else { v }
}

/// Whether a selection is shown: there is one and its ends differ.
pub open spec fn spec_has_selection(sel: Option<SelectionRange>) -> bool {
    match sel {
        Some(s) => s.start != s.end,
        None => false,
    }
}

/// The ends of a shown selection in reading order, or `None` where no
/// selection is shown.
pub open spec fn spec_selection_bounds(sel: Option<SelectionRange>) -> Option<(SelectionPoint, SelectionPoint)> {
    match sel {
        Some(s) => if s.start != s.end {
            Some(if point_le(s.start, s.end) { (s.start, s.end) } else { (s.end, s.start) })
        } else {
            None
        },
        None => None,
    }
}

/// The selection point of a mouse position, given the viewport offset.
pub open spec fn mouse_point(x: u32, y: i32, viewport_offset: isize) -> SelectionPoint {
    SelectionPoint { x: x as usize, y: (y - viewport_offset) as isize }
}

/// The view state after a mouse event at column `x`, visible row `y`:
/// only the left button selects. Pressing it starts a new, empty selection
/// at the pointer and begins a drag; moving during a drag moves the
/// selection's end to the pointer; releasing it ends the drag.
pub open spec fn spec_mouse_event(
    v: ViewState,
    kind: WezTermMouseEventKind,
    button: WezTermMouseButton,
    x: u32,
    y: i32,
) -> ViewState {
    if button != WezTermMouseButton::Left {
        v
    } else {
        let p = mouse_point(x, y, v.viewport_offset);
        match kind {
            WezTermMouseEventKind::Press => ViewState {
                selection: Some(SelectionRange { start: p, end: p }),
                selecting: true,
                ..v
            },
            WezTermMouseEventKind::Move => match v.selection {
                Some(s) if v.selecting => ViewState {
                    selection: Some(SelectionRange { start: s.start, end: p }),
                    ..v
                },
                _ => v,
            },
            WezTermMouseEventKind::Release => ViewState { selecting: false, ..v },
        }
    }
}

impl ViewState {
    /// Live output, no selection, no drag.
    pub fn new() -> (v: Self)
        ensures
            v.viewport_offset == 0,
            v.selection is None,
            !v.selecting,
    {
        ViewState { viewport_offset: 0, selection: None, selecting: false }
    }

    /// Scroll the viewport by the given number of lines.
    /// Positive delta scrolls up (into scrollback history).
    /// Negative delta scrolls down (towards live output).
    /// The offset stays between 0 (the live output) and the number of lines
    /// above the visible area.
    pub fn scroll_viewport(&mut self, delta: isize, total_rows: usize, visible_rows: usize)
        requires
            total_rows <= isize::MAX,
            visible_rows <= isize::MAX,
            isize::MIN <= old(self).viewport_offset + delta <= isize::MAX,
        ensures
            final(self).viewport_offset as int == clamp(
                old(self).viewport_offset + delta,
                0,
                max_viewport_offset(total_rows as int, visible_rows as int),
            ),
            final(self).selection == old(self).selection,
            final(self).selecting == old(self).selecting,
    {
        let total = total_rows as isize;
        let visible = visible_rows as isize;
        let diff = total - visible;
        let max_offset: isize = if diff > 0 { diff } else { 0 };
        let wanted = self.viewport_offset + delta;
        let new_offset = if wanted < 0 {
            0
        } else if wanted > max_offset {
            max_offset
        } else {
            wanted
        };
        self.viewport_offset = new_offset;
    }

    /// Reset viewport to bottom (live terminal output).
    pub fn scroll_to_bottom(&mut self)
        ensures
            final(self).viewport_offset == 0,
            final(self).selection == old(self).selection,
            final(self).selecting == old(self).selecting,
    {
        self.viewport_offset = 0;
    }

    /// The current viewport offset (0 when showing live terminal output).
    pub fn viewport_offset(&self) -> (o: isize)
        ensures
            o == self.viewport_offset,
    {
        self.viewport_offset
    }

    /// Tracks the selection for a mouse event at column `x`, visible row `y`.
    ///
    /// Only the left button selects: pressing it starts a new, empty
    /// selection at the pointer and begins a drag; moving during a drag moves
    /// the selection's end to the pointer; releasing it ends the drag. Points
    /// are taken relative to the viewport, so a selection made while scrolled
    /// back refers to scrollback rows. Other events change nothing.
    pub fn on_mouse_event(&mut self, kind: WezTermMouseEventKind, button: WezTermMouseButton, x: u32, y: i32)
        requires
            isize::MIN <= y - old(self).viewport_offset <= isize::MAX,
        ensures
            *final(self) == spec_mouse_event(*old(self), kind, button, x, y),
    {
        match button {
            WezTermMouseButton::Left => {
                let point = SelectionPoint { x: x as usize, y: (y as isize) - self.viewport_offset };
                match kind {
                    WezTermMouseEventKind::Press => {
                        self.selection = Some(SelectionRange { start: point, end: point });
                        self.selecting = true;
                    },
                    WezTermMouseEventKind::Move => {
                        if self.selecting {
                            match self.selection {
                                Some(sel) => {
                                    self.selection = Some(SelectionRange { start: sel.start, end: point });
                                },
                                None => {},
                            }
                        }
                    },
                    WezTermMouseEventKind::Release => {
                        self.selecting = false;
                    },
                }
            },
            _ => {},
        }
    }

    /// Check whether there is an active text selection: one whose ends
    /// differ.
    pub fn has_selection(&self) -> (b: bool)
        ensures
            b == spec_has_selection(self.selection),
    {
        match self.selection {
            Some(sel) => sel.start != sel.end,
            None => false,
        }
    }

    /// The ends of the active selection in reading order, or `None` where no
    /// selection is shown.
    pub fn selection_bounds(&self) -> (r: Option<(SelectionPoint, SelectionPoint)>)
        ensures
            r == spec_selection_bounds(self.selection),
            r is Some <==> spec_has_selection(self.selection),
            r matches Some(p) ==> {
                let s = self.selection.unwrap();
                &&& p == (if point_le(s.start, s.end) { (s.start, s.end) } else { (s.end, s.start) })
                &&& point_le(p.0, p.1)
            },
    {
        match self.selection {
            Some(sel) => {
                if sel.start != sel.end {
                    Some(sel.normalized())
                } else {
                    None
                }
            },
            None => None,
        }
    }

    /// Clear the current selection.
    pub fn clear_selection(&mut self)
        ensures
            final(self).selection is None,
            !final(self).selecting,
            final(self).viewport_offset == old(self).viewport_offset,
    {
        self.selection = None;
        self.selecting = false;
    }
}

/// The viewport never leaves the screen: after any scroll the offset lies
/// between 0 (live output) and the number of lines above the visible area,
/// and scrolling down past the live output lands exactly on it.
pub proof fn lemma_scroll_stays_on_screen(offset: int, delta: int, total_rows: int, visible_rows: int)
    ensures
        0 <= clamp(offset + delta, 0, max_viewport_offset(total_rows, visible_rows)) <= max_viewport_offset(
            total_rows,
            visible_rows,
        ),
        offset + delta <= 0 ==> clamp(offset + delta, 0, max_viewport_offset(total_rows, visible_rows))
            == 0,
{
}

/// Clearing the selection leaves nothing to copy, whatever the selection
/// or the drag was: the view after `clear_selection` reports no selection.
pub proof fn lemma_cleared_view_has_no_selection(v: ViewState)
    ensures
        !spec_has_selection(ViewState { selection: None, selecting: false, ..v }.selection),
{
}

/// A click is not a selection: pressing and releasing the left button,
/// without a drag in between, leaves no selection to copy.
pub proof fn lemma_click_selects_nothing(v: ViewState, x: u32, y: i32, x2: u32, y2: i32)
    ensures
        !spec_has_selection(
            spec_mouse_event(
                spec_mouse_event(v, WezTermMouseEventKind::Press, WezTermMouseButton::Left, x, y),
                WezTermMouseEventKind::Release,
                WezTermMouseButton::Left,
                x2,
                y2,
            ).selection,
        ),
{
}

/// A drag selects: pressing the left button and moving the pointer to
/// another point selects from the press point to the pointer, and releasing
/// keeps that selection.
pub proof fn lemma_drag_selects(v: ViewState, x: u32, y: i32, x2: u32, y2: i32)
    requires
        mouse_point(x, y, v.viewport_offset) != mouse_point(x2, y2, v.viewport_offset),
    ensures
        ({
            let pressed = spec_mouse_event(v, WezTermMouseEventKind::Press, WezTermMouseButton::Left, x, y);
            let moved = spec_mouse_event(pressed, WezTermMouseEventKind::Move, WezTermMouseButton::Left, x2, y2);
            let released = spec_mouse_event(moved, WezTermMouseEventKind::Release, WezTermMouseButton::Left, x2, y2);
            &&& released.selection == Some(SelectionRange {
                start: mouse_point(x, y, v.viewport_offset),
                end: mouse_point(x2, y2, v.viewport_offset),
            })
            &&& spec_has_selection(released.selection)
            &&& !released.selecting
        }),
{
}

/// A press starts an empty selection, and a drag makes one exactly when the
/// pointer has left the press point: right after a left press nothing is
/// selected, and after a following left move something is selected exactly
/// when the move point differs from the press point.
pub proof fn lemma_press_then_move(v: ViewState, x: u32, y: i32, x2: u32, y2: i32)
    ensures
        ({
            let pressed = spec_mouse_event(v, WezTermMouseEventKind::Press, WezTermMouseButton::Left, x, y);
            let moved = spec_mouse_event(pressed, WezTermMouseEventKind::Move, WezTermMouseButton::Left, x2, y2);
            &&& !spec_has_selection(pressed.selection)
            &&& spec_selection_bounds(pressed.selection) is None
            &&& spec_has_selection(moved.selection) == (mouse_point(x2, y2, v.viewport_offset) != mouse_point(
                x,
                y,
                v.viewport_offset,
            ))
        }),
{
}

/// Once no drag is in progress (after a release, or after the selection
/// was cleared), left-button moves and releases change nothing: the
/// selection is neither extended nor created until the next left press.
pub proof fn lemma_no_drag_no_change(v: ViewState, kind: WezTermMouseEventKind, x: u32, y: i32)
    requires
        !v.selecting,
        kind != WezTermMouseEventKind::Press,
    ensures
        spec_mouse_event(v, kind, WezTermMouseButton::Left, x, y) == v,
{
}

/// A cleared view stays without a selection across any left-button moves
/// and releases until the next left press.
pub proof fn lemma_cleared_stays_clear(v: ViewState, kind: WezTermMouseEventKind, x: u32, y: i32)
    requires
        kind != WezTermMouseEventKind::Press,
    ensures
        ({
            let cleared = ViewState { selection: None, selecting: false, ..v };
            let after = spec_mouse_event(cleared, kind, WezTermMouseButton::Left, x, y);
            &&& after == cleared
            &&& !spec_has_selection(after.selection)
            &&& spec_selection_bounds(after.selection) is None
        }),
{
}

/// The selected span does not depend on the drag direction: dragging from
/// `p` to `q` and dragging from `q` to `p` give the same ends in reading
/// order, and so the same selected text.
pub proof fn lemma_drag_direction_irrelevant(v: ViewState, x: u32, y: i32, x2: u32, y2: i32)
    ensures
        ({
            let fwd = spec_mouse_event(
                spec_mouse_event(v, WezTermMouseEventKind::Press, WezTermMouseButton::Left, x, y),
                WezTermMouseEventKind::Move,
                WezTermMouseButton::Left,
                x2,
                y2,
            );
            let back = spec_mouse_event(
                spec_mouse_event(v, WezTermMouseEventKind::Press, WezTermMouseButton::Left, x2, y2),
                WezTermMouseEventKind::Move,
                WezTermMouseButton::Left,
                x,
                y,
            );
            spec_selection_bounds(fwd.selection) == spec_selection_bounds(back.selection)
        }),
{
    let p = mouse_point(x, y, v.viewport_offset);
    let q = mouse_point(x2, y2, v.viewport_offset);
    if p != q {
        assert(!(point_le(p, q) && point_le(q, p)));
    }
}

/// The view after a drag through the given pointer positions: one
/// left-button move per position, in order.
pub open spec fn drag_through(v: ViewState, points: Seq<(u32, i32)>) -> ViewState
    decreases points.len(),
{
    if points.len() == 0 {
        v
    } else {
        let last = points.last();
        spec_mouse_event(drag_through(v, points.drop_last()), WezTermMouseEventKind::Move, WezTermMouseButton::Left, last.0, last.1)
    }
}

proof fn lemma_drag_keeps_start(v: ViewState, start: SelectionPoint, end: SelectionPoint, points: Seq<(u32, i32)>)
    requires
        v.selecting,
        v.selection == Some(SelectionRange { start, end }),
    ensures
        ({
            let after = drag_through(v, points);
            &&& after.selecting
            &&& after.viewport_offset == v.viewport_offset
            &&& after.selection == Some(SelectionRange {
                start,
                end: if points.len() == 0 {
                    end
                } else {
                    mouse_point(points.last().0, points.last().1, v.viewport_offset)
                },
            })
        }),
    decreases points.len(),
{
    if points.len() > 0 {
        lemma_drag_keeps_start(v, start, end, points.drop_last());
    }
}

/// A drag anchors the selection at the press point: after a left press at
/// (`x`, `y`) and any number of left moves, the selection starts at the
/// press point and ends at the last move's point (at the press point where
/// there was no move), and the drag is still in progress.
pub proof fn lemma_drag_anchored_at_press(v: ViewState, x: u32, y: i32, points: Seq<(u32, i32)>)
    ensures
        ({
            let press = mouse_point(x, y, v.viewport_offset);
            let after = drag_through(
                spec_mouse_event(v, WezTermMouseEventKind::Press, WezTermMouseButton::Left, x, y),
                points,
            );
            &&& after.selecting
            &&& after.viewport_offset == v.viewport_offset
            &&& after.selection matches Some(s) && s.start == press
            &&& points.len() == 0 ==> after.selection.unwrap().end == press
            &&& points.len() > 0 ==> after.selection.unwrap().end == mouse_point(
                points.last().0,
                points.last().1,
                v.viewport_offset,
            )
        }),
{
    let p = mouse_point(x, y, v.viewport_offset);
    lemma_drag_keeps_start(
        spec_mouse_event(v, WezTermMouseEventKind::Press, WezTermMouseButton::Left, x, y),
        p,
        p,
        points,
    );
}

} // verus!
