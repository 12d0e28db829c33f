use libwezterm::escape::OutputScanner;
use libwezterm::fonts::{font_list_plan, is_blank_text, FontChoice};
use libwezterm::render::{
    after_paint_pass, bold_brightened_index, cluster_color_layout, cluster_has_glyphs, cluster_span,
    cursor_drawn, shape_cacheable, visible_row_span, ClusterSpan, PassStep, RenderTracker,
};
use libwezterm::session::{
    c_safe_text, c_string_text, io_status, iterm_current_dir, to_pty_size, wezterm_kit_abi_version,
    wezterm_kit_size_t, wezterm_kit_status_string, Notification, ParsedEvent, SessionState,
    WEZTERM_KIT_STATUS_ALREADY_RUNNING, WEZTERM_KIT_STATUS_INTERNAL_ERROR,
    WEZTERM_KIT_STATUS_INVALID_ARGUMENT, WEZTERM_KIT_STATUS_NOT_RUNNING, WEZTERM_KIT_STATUS_OK,
};
use libwezterm::spawn::{
    cstr_array_to_strings, env_pairs, spawn_plan, spawn_program, EnvVar, SpawnConfig, SpawnError,
};

fn s(v: Vec<char>) -> String {
    v.into_iter().collect()
}

#[test]
fn status_strings_are_nul_terminated_names() {
    assert_eq!(wezterm_kit_status_string(WEZTERM_KIT_STATUS_OK), "ok\0");
    assert_eq!(wezterm_kit_status_string(WEZTERM_KIT_STATUS_INVALID_ARGUMENT), "invalid_argument\0");
    assert_eq!(wezterm_kit_status_string(WEZTERM_KIT_STATUS_ALREADY_RUNNING), "already_running\0");
    assert_eq!(wezterm_kit_status_string(WEZTERM_KIT_STATUS_NOT_RUNNING), "not_running\0");
    assert_eq!(wezterm_kit_status_string(WEZTERM_KIT_STATUS_INTERNAL_ERROR), "internal_error\0");
    assert_eq!(wezterm_kit_status_string(42), "internal_error\0");
    assert_eq!(wezterm_kit_status_string(-1), "internal_error\0");
}

#[test]
fn abi_version_is_one() {
    assert_eq!(wezterm_kit_abi_version(), 1);
}

#[test]
fn pty_size_defaults() {
    let z = wezterm_kit_size_t::default();
    assert_eq!(z, wezterm_kit_size_t { rows: 0, cols: 0, pixel_width: 0, pixel_height: 0 });
    assert_eq!(to_pty_size(z), wezterm_kit_size_t { rows: 24, cols: 80, pixel_width: 0, pixel_height: 0 });
    let given = wezterm_kit_size_t { rows: 50, cols: 132, pixel_width: 800, pixel_height: 600 };
    assert_eq!(to_pty_size(given), given);
    let half = wezterm_kit_size_t { rows: 0, cols: 100, pixel_width: 1, pixel_height: 2 };
    assert_eq!(to_pty_size(half), wezterm_kit_size_t { rows: 24, cols: 100, pixel_width: 1, pixel_height: 2 });
}

#[test]
fn session_lifecycle_gates() {
    let mut st = SessionState::new();
    assert_eq!(st.spawn_gate(), Ok(()));
    assert_eq!(st.write_gate(true, 3), Err(WEZTERM_KIT_STATUS_NOT_RUNNING));
    assert_eq!(st.write_gate(false, 3), Err(WEZTERM_KIT_STATUS_INVALID_ARGUMENT));
    assert_eq!(st.write_gate(true, 0), Err(WEZTERM_KIT_STATUS_INVALID_ARGUMENT));
    assert_eq!(st.resize_gate(), Err(WEZTERM_KIT_STATUS_NOT_RUNNING));
    assert_eq!(st.kill_gate(), Err(WEZTERM_KIT_STATUS_NOT_RUNNING));
    st.on_spawned();
    assert_eq!(st.spawn_gate(), Err(WEZTERM_KIT_STATUS_ALREADY_RUNNING));
    assert_eq!(st.write_gate(true, 3), Ok(()));
    assert_eq!(st.resize_gate(), Ok(()));
    assert_eq!(st.kill_gate(), Ok(()));
    st.on_exited();
    assert_eq!(st.spawn_gate(), Ok(()));
    assert_eq!(st.write_gate(true, 3), Err(WEZTERM_KIT_STATUS_NOT_RUNNING));
    assert_eq!(st.kill_gate(), Err(WEZTERM_KIT_STATUS_NOT_RUNNING));
    st.on_spawned();
    assert!(st.shutdown());
    assert!(!st.shutdown());
    assert!(!st.running);
}

#[test]
fn io_status_codes() {
    assert_eq!(io_status(true), WEZTERM_KIT_STATUS_OK);
    assert_eq!(io_status(false), WEZTERM_KIT_STATUS_INTERNAL_ERROR);
}

#[test]
fn titles_and_directories_are_reported_once() {
    let mut st = SessionState::new();
    assert_eq!(st.handle_event(ParsedEvent::Bell), Some(Notification::Bell));
    assert_eq!(st.handle_event(ParsedEvent::Bell), Some(Notification::Bell));
    assert_eq!(
        st.handle_event(ParsedEvent::Title("vim".to_string())),
        Some(Notification::Title("vim".chars().collect()))
    );
    assert_eq!(st.handle_event(ParsedEvent::Title("vim".to_string())), None);
    assert_eq!(
        st.handle_event(ParsedEvent::Title("a\0b".to_string())),
        Some(Notification::Title("a b".chars().collect()))
    );
    assert_eq!(st.last_title.as_deref(), Some("a\0b"));
    assert_eq!(
        st.handle_event(ParsedEvent::WorkingDirectory("file:///tmp".to_string())),
        Some(Notification::WorkingDirectory("file:///tmp".chars().collect()))
    );
    assert_eq!(st.handle_event(ParsedEvent::WorkingDirectory("file:///tmp".to_string())), None);
    assert_eq!(
        st.handle_event(ParsedEvent::ITermProprietary("CurrentDir(\"/home\")".to_string())),
        Some(Notification::WorkingDirectory("/home".chars().collect()))
    );
    assert_eq!(st.handle_event(ParsedEvent::ITermProprietary("CurrentDir(\"/home\")".to_string())), None);
    assert_eq!(st.handle_event(ParsedEvent::ITermProprietary("RemoteHost(\"x\")".to_string())), None);
    assert_eq!(st.handle_event(ParsedEvent::Other), None);
    assert_eq!(st.last_working_directory.as_deref(), Some("/home"));
}

#[test]
fn iterm_directory_extraction() {
    assert_eq!(iterm_current_dir("CurrentDir(\"/a/b\")").map(s), Some("/a/b".to_string()));
    assert_eq!(iterm_current_dir("CurrentDir(\"\")").map(s), Some(String::new()));
    assert_eq!(iterm_current_dir("CurrentDir(\")"), None);
    assert_eq!(iterm_current_dir("CurrentDir(/a)"), None);
    assert_eq!(iterm_current_dir("currentDir(\"/a\")"), None);
    assert_eq!(iterm_current_dir("CurrentDir(\"/a\"]"), None);
}

#[test]
fn text_for_c_callers() {
    assert_eq!(s(c_safe_text("a\0b\0")), "a b ");
    assert_eq!(s(c_safe_text("plain")), "plain");
    assert_eq!(c_string_text("ok").map(s), Some("ok".to_string()));
    assert_eq!(c_string_text("no\0pe"), None);
}

#[test]
fn output_scanner_reports_bell_title_and_directory() {
    let mut sc = OutputScanner::new();
    let events = sc.scan(b"hi\x07\x1b]0;my title\x07\x1b]7;file:///tmp\x07");
    let interesting: Vec<ParsedEvent> = events.into_iter().filter(|e| *e != ParsedEvent::Other).collect();
    assert_eq!(
        interesting,
        vec![
            ParsedEvent::Bell,
            ParsedEvent::Title("my title".to_string()),
            ParsedEvent::WorkingDirectory("file:///tmp".to_string()),
        ]
    );
}

#[test]
fn output_scanner_handles_split_sequences_and_iterm() {
    let mut sc = OutputScanner::new();
    let first = sc.scan(b"\x1b]2;ti");
    assert!(first.iter().all(|e| *e == ParsedEvent::Other));
    let second = sc.scan(b"tle\x07");
    assert_eq!(second, vec![ParsedEvent::Title("title".to_string())]);
    let third = sc.scan(b"\x1b]1337;CurrentDir=/srv\x07");
    assert_eq!(third, vec![ParsedEvent::ITermProprietary("CurrentDir(\"/srv\")".to_string())]);
    let mut st = SessionState::new();
    let notes: Vec<Notification> = third.into_iter().filter_map(|e| st.handle_event(e)).collect();
    assert_eq!(notes, vec![Notification::WorkingDirectory("/srv".chars().collect())]);
}

fn full_config() -> SpawnConfig {
    let mut c = SpawnConfig::default();
    c.program = Some("/bin/sh".to_string());
    c.argv = Some(vec![Some("-c".to_string()), Some("echo hi".to_string())]);
    c.argc = 2;
    c.env = Some(vec![EnvVar { key: Some("TERM".to_string()), value: Some("xterm".to_string()) }]);
    c.env_count = 1;
    c.cwd = Some("/tmp".to_string());
    c.size = wezterm_kit_size_t { rows: 0, cols: 0, pixel_width: 10, pixel_height: 20 };
    c.clear_environment = true;
    c
}

#[test]
fn spawn_config_default() {
    let c = SpawnConfig::default();
    assert!(c.program.is_none() && c.argv.is_none() && c.env.is_none() && c.cwd.is_none());
    assert_eq!(c.argc, 0);
    assert_eq!(c.env_count, 0);
    assert_eq!(c.size, wezterm_kit_size_t { rows: 24, cols: 80, pixel_width: 0, pixel_height: 0 });
    assert!(!c.clear_environment);
    assert!(c.controlling_tty);
}

#[test]
fn spawn_plan_carries_the_request() {
    let c = full_config();
    let program = spawn_program(&c).unwrap();
    assert_eq!(program, "/bin/sh");
    let plan = spawn_plan(&c, program).unwrap();
    assert_eq!(plan.args, vec!["-c".to_string(), "echo hi".to_string()]);
    assert_eq!(plan.env, vec![("TERM".to_string(), "xterm".to_string())]);
    assert_eq!(plan.cwd.as_deref(), Some("/tmp"));
    assert_eq!(plan.size, wezterm_kit_size_t { rows: 24, cols: 80, pixel_width: 10, pixel_height: 20 });
    assert!(plan.clear_environment);
    assert!(plan.controlling_tty);
}

#[test]
fn spawn_refusals() {
    let mut c = full_config();
    c.program = None;
    assert_eq!(spawn_program(&c), Err(SpawnError::ProgramRequired));
    assert_eq!(SpawnError::ProgramRequired.message(), "program is required");

    let mut c = full_config();
    c.argv = None;
    assert_eq!(spawn_plan(&c, "x".to_string()).err(), Some(SpawnError::ArgvNull));
    assert_eq!(SpawnError::ArgvNull.message(), "argv is null while argc > 0");

    let mut c = full_config();
    c.argv = Some(vec![Some("a".to_string()), None]);
    assert_eq!(spawn_plan(&c, "x".to_string()).err(), Some(SpawnError::ArgvNullEntry));
    assert_eq!(SpawnError::ArgvNullEntry.message(), "argv contains null entry");

    let mut c = full_config();
    c.env = None;
    assert_eq!(spawn_plan(&c, "x".to_string()).err(), Some(SpawnError::EnvNull));
    assert_eq!(SpawnError::EnvNull.message(), "env is null while env_count > 0");

    let mut c = full_config();
    c.env = Some(vec![EnvVar { key: None, value: None }]);
    assert_eq!(spawn_plan(&c, "x".to_string()).err(), Some(SpawnError::EnvKeyNull));
    assert_eq!(SpawnError::EnvKeyNull.message(), "env key is null");

    let mut c = full_config();
    c.env = Some(vec![EnvVar { key: Some("A".to_string()), value: None }]);
    assert_eq!(spawn_plan(&c, "x".to_string()).err(), Some(SpawnError::EnvValueNull));
    assert_eq!(SpawnError::EnvValueNull.message(), "env value is null");

    // argv is checked before env
    let mut c = full_config();
    c.argv = None;
    c.env = None;
    assert_eq!(spawn_plan(&c, "x".to_string()).err(), Some(SpawnError::ArgvNull));
}

#[test]
fn empty_arrays_need_no_pointers() {
    assert_eq!(cstr_array_to_strings(&None, 0), Ok(Vec::new()));
    assert_eq!(env_pairs(&None, 0), Ok(Vec::new()));
    assert_eq!(
        env_pairs(
            &Some(vec![
                EnvVar { key: Some("A".to_string()), value: Some("1".to_string()) },
                EnvVar { key: Some("B".to_string()), value: None },
                EnvVar { key: None, value: Some("3".to_string()) },
            ]),
            3
        ),
        Err(SpawnError::EnvValueNull)
    );
}

#[test]
fn render_tracker_skips_idle_frames() {
    let mut t = RenderTracker::new(800, 600);
    assert!(t.needs_render(0, 0, false, false));
    t.mark_rendered(7, 0);
    assert!(!t.needs_render(7, 0, false, false));
    assert!(t.needs_render(8, 0, false, false));
    assert!(t.needs_render(7, 3, false, false));
    assert!(t.needs_render(7, 0, true, false));
    assert!(t.needs_render(7, 0, false, true));
    assert!(!t.resize(0, 600));
    assert!(!t.needs_render(7, 0, false, false));
    assert!(t.resize(1024, 768));
    assert!(t.needs_render(7, 0, false, false));
    t.mark_rendered(7, 0);
    assert!(!t.needs_render(7, 0, false, false));
    t.font_changed();
    assert!(t.needs_render(7, 0, false, false));
    assert_eq!(t.last_rendered_seqno, u64::MAX);
}

#[test]
fn visible_rows_follow_the_viewport() {
    assert_eq!(visible_row_span(100, 24, 0), (76, 24));
    assert_eq!(visible_row_span(100, 24, 10), (66, 24));
    assert_eq!(visible_row_span(100, 24, 1000), (0, 24));
    assert_eq!(visible_row_span(10, 24, 0), (0, 10));
    assert_eq!(visible_row_span(0, 24, 0), (0, 0));
    assert_eq!(visible_row_span(100, 24, -1), (0, 24));
}

#[test]
fn clusters_are_clipped_to_the_screen() {
    assert_eq!(cluster_span(80, 1, 80), ClusterSpan::Stop);
    assert_eq!(cluster_span(79, 2, 80), ClusterSpan::Draw(1));
    assert_eq!(cluster_span(3, 0, 80), ClusterSpan::Skip);
    assert_eq!(cluster_span(3, 5, 80), ClusterSpan::Draw(5));
}

#[test]
fn cursor_is_drawn_only_on_live_output() {
    assert!(cursor_drawn(0, true, 5, 24));
    assert!(!cursor_drawn(1, true, 5, 24));
    assert!(!cursor_drawn(0, false, 5, 24));
    assert!(!cursor_drawn(0, true, 24, 24));
    assert!(!cursor_drawn(0, true, -1, 24));
}

#[test]
fn bold_brightening_and_reverse_video() {
    assert_eq!(bold_brightened_index(1, true, true), 9);
    assert_eq!(bold_brightened_index(1, false, true), 1);
    assert_eq!(bold_brightened_index(1, true, false), 1);
    assert_eq!(bold_brightened_index(8, true, true), 8);
    let l = cluster_color_layout(true, false, false);
    assert!(!l.swap && l.bg_is_default);
    let l = cluster_color_layout(true, true, false);
    assert!(l.swap && !l.bg_is_default);
    let l = cluster_color_layout(true, true, true);
    assert!(!l.swap && l.bg_is_default);
    let l = cluster_color_layout(false, false, true);
    assert!(l.swap && !l.bg_is_default);
}

#[test]
fn paint_passes_settle_or_give_up() {
    assert_eq!(after_paint_pass(0, false), PassStep::Done);
    assert_eq!(after_paint_pass(0, true), PassStep::Repeat);
    assert_eq!(after_paint_pass(2, true), PassStep::Repeat);
    assert_eq!(after_paint_pass(3, true), PassStep::GiveUp);
    assert_eq!(after_paint_pass(3, false), PassStep::Done);
}

fn families(v: &[FontChoice]) -> Vec<&str> {
    v.iter().map(|f| f.family.as_str()).collect()
}

const CHAIN: [&str; 11] = [
    "JetBrainsMono Nerd Font Mono",
    "JetBrainsMono Nerd Font",
    "FiraCode Nerd Font Mono",
    "FiraCode Nerd Font",
    "Hack Nerd Font Mono",
    "Hack Nerd Font",
    "Symbols Nerd Font Mono",
    "Symbols Nerd Font",
    "Apple Symbols",
    "Menlo",
    "Monaco",
];

#[test]
fn requested_family_leads_the_font_list() {
    let current = vec![FontChoice { family: "Menlo".to_string(), fallback: false }];
    let (fonts, replaced) = font_list_plan(&current, Some("Iosevka"));
    assert!(replaced);
    let mut expected = vec!["Iosevka"];
    expected.extend_from_slice(&CHAIN);
    assert_eq!(families(&fonts), expected);
    assert!(!fonts[0].fallback);
    assert!(fonts[1..].iter().all(|f| f.fallback));
}

#[test]
fn blank_family_keeps_the_font_list() {
    let current = vec![
        FontChoice { family: "JetBrains Mono".to_string(), fallback: false },
        FontChoice { family: "Menlo".to_string(), fallback: true },
    ];
    let (fonts, replaced) = font_list_plan(&current, Some("  \t"));
    assert!(!replaced);
    assert_eq!(fonts[..2].to_vec(), current);
    let mut expected = vec!["JetBrains Mono", "Menlo"];
    expected.extend(CHAIN.iter().filter(|f| **f != "Menlo"));
    assert_eq!(families(&fonts), expected);
    let (none_fonts, none_replaced) = font_list_plan(&current, None);
    assert!(!none_replaced);
    assert_eq!(none_fonts, fonts);
    assert!(is_blank_text(""));
    assert!(!is_blank_text(" a "));
}

#[test]
fn clusters_with_only_spaces_get_no_glyphs() {
    assert!(cluster_has_glyphs(false, "a b"));
    assert!(!cluster_has_glyphs(false, "   "));
    assert!(!cluster_has_glyphs(false, ""));
    assert!(!cluster_has_glyphs(true, "abc"));
    assert!(cluster_has_glyphs(false, "\t"));
}

#[test]
fn only_fully_resolved_shapes_are_cached() {
    assert!(shape_cacheable(&vec![3, 4, 5]));
    assert!(!shape_cacheable(&vec![3, 0, 5]));
    assert!(!shape_cacheable(&vec![]));
}

#[test]
fn shutdown_of_a_running_session_kills_its_child() {
    let mut st = SessionState::new();
    st.on_spawned();
    assert!(st.shutdown());
    assert!(!st.running && !st.has_killer && !st.has_master && !st.has_writer);
}
