use libwezterm::alert::{alert_call, AlertCall, TerminalAlert};
use libwezterm::cells::{fill_row_cells, scrollback_row_index, IndexedCell};
use libwezterm::config::{palette_entries, palette_update, FFITerminalConfig};
use libwezterm::input::{key_char, modifiers_to_termwiz};
use libwezterm::output::OutputBuffer;
use libwezterm::selection::{selected_text, SelectionCell, SelectionPoint, SelectionRange};
use libwezterm::text::{is_white_space_char, trim_line_ends_of, trimmed_end};
use libwezterm::types::{
    WezTermColorRGBA, WezTermConfig, WezTermCellInfo, WezTermCursorInfo, WezTermCursorShape,
    WezTermIntensity, WezTermKeyCode, WezTermMouseButton, WezTermMouseEventKind,
    WezTermUnderline, WEZTERM_MOD_ALT, WEZTERM_MOD_CTRL, WEZTERM_MOD_SHIFT, WEZTERM_MOD_SUPER,
};
use libwezterm::view::ViewState;

fn rgba(r: u8, g: u8, b: u8, a: u8) -> WezTermColorRGBA {
    WezTermColorRGBA { r, g, b, a }
}

fn cell(text: &str) -> WezTermCellInfo {
    WezTermCellInfo::from_parts(
        text.as_bytes(),
        1,
        rgba(1, 2, 3, 4),
        rgba(5, 6, 7, 8),
        WezTermIntensity::Normal,
        false,
        WezTermUnderline::NoUnderline,
        false,
        false,
        false,
    )
}

fn chars(s: &str) -> Vec<char> {
    s.chars().collect()
}

#[test]
fn blank_cell_is_one_space() {
    let b = WezTermCellInfo::blank();
    assert_eq!(b.text, [b' ', 0, 0, 0, 0, 0, 0, 0]);
    assert_eq!(b.text_len, 1);
    assert_eq!(b.width, 1);
    assert_eq!(b.fg, WezTermColorRGBA::default());
    assert_eq!(b.bg, rgba(0, 0, 0, 0));
    assert!(!b.bold && !b.italic && !b.strikethrough && !b.reverse && !b.invisible);
    assert_eq!(b.underline, WezTermUnderline::NoUnderline);
}

#[test]
fn cell_text_is_cut_to_seven_bytes() {
    let c = WezTermCellInfo::from_parts(
        "abcdefghij".as_bytes(),
        300,
        rgba(1, 1, 1, 1),
        rgba(2, 2, 2, 2),
        WezTermIntensity::Bold,
        true,
        WezTermUnderline::Curly,
        true,
        false,
        true,
    );
    assert_eq!(c.text, [b'a', b'b', b'c', b'd', b'e', b'f', b'g', 0]);
    assert_eq!(c.text_len, 7);
    assert_eq!(c.width, 44);
    assert!(c.bold && c.italic && c.strikethrough && !c.reverse && c.invisible);
    assert_eq!(c.underline, WezTermUnderline::Curly);
    let short = cell("é");
    assert_eq!(short.text_len, 2);
    assert_eq!(&short.text[..3], &[0xc3, 0xa9, 0]);
    assert!(!short.bold);
}

#[test]
fn faint_cell_is_not_bold() {
    let c = WezTermCellInfo::from_parts(
        b"x",
        2,
        rgba(0, 0, 0, 0),
        rgba(0, 0, 0, 0),
        WezTermIntensity::Faint,
        false,
        WezTermUnderline::Double,
        false,
        true,
        false,
    );
    assert!(!c.bold);
    assert!(c.reverse);
    assert_eq!(c.width, 2);
}

#[test]
fn cursor_position_is_narrowed() {
    let c = WezTermCursorInfo::from_position(5, 2, WezTermCursorShape::SteadyBar, true);
    assert_eq!(c.x, 5);
    assert_eq!(c.y, 2);
    assert_eq!(c.shape, WezTermCursorShape::SteadyBar);
    assert!(c.visible);
    let wrapped = WezTermCursorInfo::from_position(1usize << 32 | 3, -1, WezTermCursorShape::Default, false);
    assert_eq!(wrapped.x, 3);
    assert_eq!(wrapped.y, -1);
}

#[test]
fn default_config_values() {
    let c = WezTermConfig::default();
    assert_eq!(c.scrollback_size, 3500);
    assert_eq!(c.foreground, rgba(204, 204, 204, 255));
    assert_eq!(c.background, rgba(0, 0, 0, 255));
    assert_eq!(c.cursor_fg, rgba(0, 0, 0, 255));
    assert_eq!(c.cursor_bg, rgba(82, 82, 82, 255));
    assert!(c.ansi_colors.is_empty());
    assert_eq!(c.ansi_color_count, 0);
    assert!(!c.enable_kitty_graphics && !c.enable_kitty_keyboard);
}

#[test]
fn function_keys_are_numbered() {
    assert_eq!(WezTermKeyCode::F1.function_key_number(), Some(1));
    assert_eq!(WezTermKeyCode::F7.function_key_number(), Some(7));
    assert_eq!(WezTermKeyCode::F12.function_key_number(), Some(12));
    assert_eq!(WezTermKeyCode::Enter.function_key_number(), None);
    assert_eq!(WezTermKeyCode::Char.function_key_number(), None);
}

#[test]
fn modifiers_map_by_name() {
    assert_eq!(modifiers_to_termwiz(0), 0);
    assert_eq!(modifiers_to_termwiz(WEZTERM_MOD_SHIFT), 2);
    assert_eq!(modifiers_to_termwiz(WEZTERM_MOD_ALT), 4);
    assert_eq!(modifiers_to_termwiz(WEZTERM_MOD_CTRL), 8);
    assert_eq!(modifiers_to_termwiz(WEZTERM_MOD_SUPER), 16);
    assert_eq!(modifiers_to_termwiz(WEZTERM_MOD_SHIFT | WEZTERM_MOD_CTRL), 10);
    assert_eq!(modifiers_to_termwiz(0xffff_fff0), 0);
    assert_eq!(modifiers_to_termwiz(0xffff_ffff), 30);
}

#[test]
fn key_chars_must_be_scalar_values() {
    assert_eq!(key_char(0x41), Some('A'));
    assert_eq!(key_char(0x1F600), Some('😀'));
    assert_eq!(key_char(0xD800), None);
    assert_eq!(key_char(0xDFFF), None);
    assert_eq!(key_char(0x110000), None);
    assert_eq!(key_char(0x10FFFF), Some('\u{10FFFF}'));
}

#[test]
fn row_copy_fills_columns_and_pads_with_blanks() {
    let marker = Some(cell("M"));
    let mut out = vec![marker; 6];
    let cells = vec![
        IndexedCell { index: 0, info: cell("a") },
        IndexedCell { index: 1, info: cell("b") },
        IndexedCell { index: 3, info: cell("d") },
        IndexedCell { index: 5, info: cell("f") },
    ];
    let written = fill_row_cells(&mut out, &cells, 10, 5);
    assert_eq!(written, 5);
    assert_eq!(out[0], Some(cell("a")));
    assert_eq!(out[1], Some(cell("b")));
    // the column skipped before the last copied cell is written blank
    assert_eq!(out[2], Some(WezTermCellInfo::blank()));
    assert_eq!(out[3], Some(cell("d")));
    assert_eq!(out[4], Some(WezTermCellInfo::blank()));
    // past the capacity nothing is written
    assert_eq!(out[5], marker);
}

#[test]
fn row_copy_with_zero_capacity_writes_nothing() {
    let marker = None;
    let mut out = vec![marker; 2];
    let cells = vec![IndexedCell { index: 0, info: cell("a") }];
    assert_eq!(fill_row_cells(&mut out, &cells, 80, 0), 0);
    assert_eq!(out, vec![marker; 2]);
}

#[test]
fn row_copy_writes_the_column_after_a_wide_cell() {
    let mut out = vec![None; 3];
    let cells = vec![
        IndexedCell { index: 0, info: cell("宽") },
        IndexedCell { index: 2, info: cell("x") },
    ];
    let written = fill_row_cells(&mut out, &cells, 3, 3);
    assert_eq!(written, 3);
    assert!(out.iter().all(|c| c.is_some()));
    assert_eq!(out[1], Some(WezTermCellInfo::blank()));
    assert_eq!(out[2], Some(cell("x")));
}

#[test]
fn row_copy_of_narrow_screen_stops_at_width() {
    let marker = None;
    let mut out = vec![marker; 4];
    let cells = vec![
        IndexedCell { index: 0, info: cell("a") },
        IndexedCell { index: 2, info: cell("c") },
        IndexedCell { index: 1, info: cell("b") },
    ];
    let written = fill_row_cells(&mut out, &cells, 2, 4);
    assert_eq!(written, 2);
    assert_eq!(out[0], Some(cell("a")));
    assert_eq!(out[1], Some(WezTermCellInfo::blank()));
    assert_eq!(out[2], marker);
    assert_eq!(out[3], marker);
}

#[test]
fn scrollback_row_bounds() {
    assert_eq!(scrollback_row_index(-1, 10), None);
    assert_eq!(scrollback_row_index(10, 10), None);
    assert_eq!(scrollback_row_index(0, 10), Some(0));
    assert_eq!(scrollback_row_index(9, 10), Some(9));
}

#[test]
fn selection_normalizes_reading_order() {
    let a = SelectionPoint { x: 5, y: 2 };
    let b = SelectionPoint { x: 1, y: 3 };
    let c = SelectionPoint { x: 0, y: 2 };
    assert_eq!(SelectionRange { start: a, end: b }.normalized(), (a, b));
    assert_eq!(SelectionRange { start: b, end: a }.normalized(), (a, b));
    assert_eq!(SelectionRange { start: a, end: c }.normalized(), (c, a));
    assert_eq!(SelectionRange { start: a, end: a }.normalized(), (a, a));
}

fn row(cells: &[(usize, &str)]) -> Vec<SelectionCell> {
    cells.iter().map(|(i, t)| SelectionCell { index: *i, text: chars(t) }).collect()
}

#[test]
fn selected_text_spans_rows_and_trims_line_ends() {
    let rows = vec![
        row(&[(0, "a"), (1, "b"), (2, "c"), (3, " "), (4, " ")]),
        row(&[(0, "d"), (1, "e"), (2, " "), (3, " ")]),
        row(&[(0, "f"), (1, "g"), (2, "h")]),
    ];
    let t: String = selected_text(&rows, 1, 1, 4).into_iter().collect();
    assert_eq!(t, "bc\nde\nfg");
}

#[test]
fn selected_text_on_one_row() {
    let rows = vec![row(&[(0, "h"), (1, "e"), (2, "l"), (3, "l"), (4, "o")])];
    let t: String = selected_text(&rows, 1, 3, 80).into_iter().collect();
    assert_eq!(t, "ell");
}

#[test]
fn selected_text_drops_empty_last_line() {
    let rows = vec![row(&[(0, "x"), (1, " ")]), row(&[])];
    let t: String = selected_text(&rows, 0, 0, 2).into_iter().collect();
    assert_eq!(t, "x");
    // a last line of blanks is kept, as an empty line
    let rows = vec![row(&[(0, "x"), (1, " ")]), row(&[(0, " ")])];
    let t: String = selected_text(&rows, 0, 0, 2).into_iter().collect();
    assert_eq!(t, "x\n");
}

#[test]
fn line_ends_are_trimmed() {
    let t: String = trim_line_ends_of(&chars("a  \n b\t\n\nc \u{3000}\n")).into_iter().collect();
    assert_eq!(t, "a\n b\n\nc");
    let u: String = trim_line_ends_of(&chars("")).into_iter().collect();
    assert_eq!(u, "");
    let v: String = trim_line_ends_of(&chars("\n")).into_iter().collect();
    assert_eq!(v, "");
    let w: String = trim_line_ends_of(&chars("a\r\nb")).into_iter().collect();
    assert_eq!(w, "a\nb");
    let expected: String = "x y \n z".lines().map(|l| l.trim_end()).collect::<Vec<_>>().join("\n");
    let got: String = trim_line_ends_of(&chars("x y \n z")).into_iter().collect();
    assert_eq!(got, expected);
}

#[test]
fn trailing_white_space_is_removed() {
    let t: String = trimmed_end(&chars("ab \t\u{a0}")).into_iter().collect();
    assert_eq!(t, "ab");
    assert!(is_white_space_char('\u{2028}'));
    assert!(!is_white_space_char('x'));
    for c in ['\t', ' ', '\u{85}', '\u{1680}', '\u{2000}', '\u{200a}', '\u{202f}', '\u{205f}', '\u{3000}', 'a', '\u{200b}', '\u{180e}'] {
        assert_eq!(is_white_space_char(c), c.is_whitespace());
    }
}

#[test]
fn viewport_scroll_is_clamped() {
    let mut v = ViewState::new();
    v.scroll_viewport(5, 100, 24);
    assert_eq!(v.viewport_offset(), 5);
    v.scroll_viewport(1000, 100, 24);
    assert_eq!(v.viewport_offset(), 76);
    v.scroll_viewport(-10, 100, 24);
    assert_eq!(v.viewport_offset(), 66);
    v.scroll_viewport(-1000, 100, 24);
    assert_eq!(v.viewport_offset(), 0);
    v.scroll_viewport(3, 10, 24);
    assert_eq!(v.viewport_offset(), 0);
    v.scroll_viewport(3, 100, 24);
    v.scroll_to_bottom();
    assert_eq!(v.viewport_offset(), 0);
}

#[test]
fn mouse_drag_selects_and_click_does_not() {
    let mut v = ViewState::new();
    v.on_mouse_event(WezTermMouseEventKind::Press, WezTermMouseButton::Left, 3, 1);
    assert!(v.selecting);
    v.on_mouse_event(WezTermMouseEventKind::Release, WezTermMouseButton::Left, 3, 1);
    assert!(!v.has_selection());
    assert_eq!(v.selection_bounds(), None);

    v.on_mouse_event(WezTermMouseEventKind::Press, WezTermMouseButton::Left, 7, 4);
    v.on_mouse_event(WezTermMouseEventKind::Move, WezTermMouseButton::Left, 2, 1);
    v.on_mouse_event(WezTermMouseEventKind::Release, WezTermMouseButton::Left, 2, 1);
    assert!(v.has_selection());
    assert_eq!(
        v.selection_bounds(),
        Some((SelectionPoint { x: 2, y: 1 }, SelectionPoint { x: 7, y: 4 }))
    );
    // moving after the release changes nothing
    v.on_mouse_event(WezTermMouseEventKind::Move, WezTermMouseButton::Left, 9, 9);
    assert_eq!(v.selection.unwrap().end, SelectionPoint { x: 2, y: 1 });
    // other buttons do not select
    v.on_mouse_event(WezTermMouseEventKind::Press, WezTermMouseButton::Right, 0, 0);
    assert!(v.has_selection());
    v.clear_selection();
    assert!(!v.has_selection());
    assert!(!v.selecting);
}

#[test]
fn selection_while_scrolled_back_refers_to_history() {
    let mut v = ViewState::new();
    v.scroll_viewport(10, 100, 24);
    v.on_mouse_event(WezTermMouseEventKind::Press, WezTermMouseButton::Left, 1, 2);
    v.on_mouse_event(WezTermMouseEventKind::Move, WezTermMouseButton::Left, 4, 2);
    assert_eq!(
        v.selection_bounds(),
        Some((SelectionPoint { x: 1, y: -8 }, SelectionPoint { x: 4, y: -8 }))
    );
}

#[test]
fn output_is_read_back_in_order() {
    let mut b = OutputBuffer::new();
    assert_eq!(b.take(), None);
    b.append(b"\x1b[A");
    b.append(b"ls\r");
    assert_eq!(b.len(), 6);
    assert_eq!(b.take(), Some(b"\x1b[Als\r".to_vec()));
    assert_eq!(b.take(), None);
    b.append(b"");
    assert_eq!(b.take(), None);
}

#[test]
fn config_from_host_values() {
    let mut cfg = WezTermConfig::default();
    cfg.scrollback_size = 0;
    cfg.ansi_colors = (0..300u32).map(|i| rgba((i % 256) as u8, 0, 0, 255)).collect();
    cfg.ansi_color_count = 300;
    cfg.enable_kitty_keyboard = true;
    let c = FFITerminalConfig::from_ffi(&cfg);
    assert_eq!(c.scrollback_size(), 3500);
    assert_eq!(c.palette().ansi.len(), 256);
    assert_eq!(c.palette().ansi[255], rgba(255, 0, 0, 255));
    assert_eq!(c.palette().foreground, Some(rgba(204, 204, 204, 255)));
    assert!(c.enable_kitty_keyboard());
    assert!(!c.enable_kitty_graphics());
    assert!(!c.enable_title_reporting());

    let mut cfg2 = WezTermConfig::default();
    cfg2.scrollback_size = 10;
    cfg2.ansi_color_count = 16;
    let c2 = FFITerminalConfig::from_ffi(&cfg2);
    assert_eq!(c2.scrollback_size(), 10);
    assert!(c2.palette().ansi.is_empty());
}

#[test]
fn default_terminal_config() {
    let c = FFITerminalConfig::default();
    assert_eq!(c.scrollback_size(), 3500);
    assert!(c.enable_kitty_keyboard());
    assert!(!c.enable_kitty_graphics());
    assert_eq!(c.palette().foreground, None);
    assert!(c.palette().ansi.is_empty());
}

#[test]
fn palette_updates_take_at_most_count_entries() {
    let colors: Vec<WezTermColorRGBA> = (0..4u8).map(|i| rgba(i, i, i, 255)).collect();
    assert_eq!(palette_entries(&colors, 2), colors[..2].to_vec());
    assert_eq!(palette_entries(&colors, 0), Vec::<WezTermColorRGBA>::new());
    assert_eq!(palette_entries(&Vec::new(), 40), Vec::<WezTermColorRGBA>::new());
    let p = palette_update(rgba(1, 1, 1, 1), rgba(2, 2, 2, 2), rgba(3, 3, 3, 3), rgba(4, 4, 4, 4), &colors, 3);
    assert_eq!(p.foreground, Some(rgba(1, 1, 1, 1)));
    assert_eq!(p.cursor_bg, Some(rgba(4, 4, 4, 4)));
    assert_eq!(p.ansi, colors[..3].to_vec());
}

#[test]
fn alerts_pick_their_callback() {
    assert_eq!(alert_call(&TerminalAlert::Bell), Some(AlertCall::Bell));
    assert_eq!(alert_call(&TerminalAlert::CurrentWorkingDirectoryChanged), Some(AlertCall::CwdChanged));
    assert_eq!(alert_call(&TerminalAlert::Other), None);
    assert_eq!(
        alert_call(&TerminalAlert::WindowTitleChanged("top".to_string())),
        Some(AlertCall::TitleChanged(chars("top")))
    );
    assert_eq!(alert_call(&TerminalAlert::WindowTitleChanged("a\0b".to_string())), None);
}

#[test]
fn drag_direction_does_not_change_the_selection() {
    let mut a = ViewState::new();
    a.on_mouse_event(WezTermMouseEventKind::Press, WezTermMouseButton::Left, 2, 1);
    assert!(!a.has_selection());
    a.on_mouse_event(WezTermMouseEventKind::Move, WezTermMouseButton::Left, 5, 3);
    let mut b = ViewState::new();
    b.on_mouse_event(WezTermMouseEventKind::Press, WezTermMouseButton::Left, 5, 3);
    b.on_mouse_event(WezTermMouseEventKind::Move, WezTermMouseButton::Left, 2, 1);
    assert_eq!(a.selection_bounds(), b.selection_bounds());
    assert!(a.selection_bounds().is_some());
}

#[test]
fn cleared_selection_stays_clear_until_the_next_press() {
    let mut v = ViewState::new();
    v.on_mouse_event(WezTermMouseEventKind::Press, WezTermMouseButton::Left, 0, 0);
    v.on_mouse_event(WezTermMouseEventKind::Move, WezTermMouseButton::Left, 4, 0);
    v.clear_selection();
    v.on_mouse_event(WezTermMouseEventKind::Move, WezTermMouseButton::Left, 9, 2);
    v.on_mouse_event(WezTermMouseEventKind::Release, WezTermMouseButton::Left, 9, 2);
    assert!(!v.has_selection());
    assert_eq!(v.selection, None);
}
