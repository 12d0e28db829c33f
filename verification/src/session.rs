//! Host-facing session lifecycle: status codes, the state of a PTY session,
//! and the notifications its output raises.

use vstd::prelude::*;

verus! {

/// Version of the session C ABI.
pub const WEZTERM_KIT_ABI_VERSION: u32 = 1;

pub const WEZTERM_KIT_STATUS_OK: i32 = 0;

pub const WEZTERM_KIT_STATUS_INVALID_ARGUMENT: i32 = 1;

pub const WEZTERM_KIT_STATUS_ALREADY_RUNNING: i32 = 2;

pub const WEZTERM_KIT_STATUS_NOT_RUNNING: i32 = 3;

pub const WEZTERM_KIT_STATUS_INTERNAL_ERROR: i32 = 255;

/// The session C ABI version.
pub fn wezterm_kit_abi_version() -> (v: u32)
    ensures
        v == WEZTERM_KIT_ABI_VERSION,
{
    WEZTERM_KIT_ABI_VERSION
}

/// The name of a status code, NUL-terminated for C callers: `ok`,
/// `invalid_argument`, `already_running`, `not_running`, and
/// `internal_error` for every other code.
pub fn wezterm_kit_status_string(status: i32) -> (s: &'static str)
    ensures
        status == WEZTERM_KIT_STATUS_OK ==> s@ == "ok\0"@,
        status == WEZTERM_KIT_STATUS_INVALID_ARGUMENT ==> s@ == "invalid_argument\0"@,
        status == WEZTERM_KIT_STATUS_ALREADY_RUNNING ==> s@ == "already_running\0"@,
        status == WEZTERM_KIT_STATUS_NOT_RUNNING ==> s@ == "not_running\0"@,
        status != WEZTERM_KIT_STATUS_OK && status != WEZTERM_KIT_STATUS_INVALID_ARGUMENT && status
            != WEZTERM_KIT_STATUS_ALREADY_RUNNING && status != WEZTERM_KIT_STATUS_NOT_RUNNING
            ==> s@ == "internal_error\0"@,
{
    if status == WEZTERM_KIT_STATUS_OK {
        "ok\0"
    } else if status == WEZTERM_KIT_STATUS_INVALID_ARGUMENT {
        "invalid_argument\0"
    } else if status == WEZTERM_KIT_STATUS_ALREADY_RUNNING {
        "already_running\0"
    } else if status == WEZTERM_KIT_STATUS_NOT_RUNNING {
        "not_running\0"
    } else {
        "internal_error\0"
    }
}

/// A terminal size in cells and pixels.
#[derive(Clone, Copy, Debug, PartialEq, Eq, Structural)]
pub struct wezterm_kit_size_t {
    pub rows: u16,
    pub cols: u16,
    pub pixel_width: u16,
    pub pixel_height: u16,
}

impl Default for wezterm_kit_size_t {
    /// All zero.
    fn default() -> (s: Self)
        ensures
            s.rows == 0 && s.cols == 0 && s.pixel_width == 0 && s.pixel_height == 0,
    {
        wezterm_kit_size_t { rows: 0, cols: 0, pixel_width: 0, pixel_height: 0 }
    }
}

/// The size a PTY is opened or resized to: zero rows mean 24, zero columns
/// mean 80; the pixel size is kept.
pub fn to_pty_size(size: wezterm_kit_size_t) -> (s: wezterm_kit_size_t)
    ensures
        s.rows == (if size.rows == 0 { 24 } else { size.rows }),
        s.cols == (if size.cols == 0 { 80 } else { size.cols }),
        s.pixel_width == size.pixel_width,
        s.pixel_height == size.pixel_height,
{
    wezterm_kit_size_t {
        rows: if size.rows == 0 { 24 } else { size.rows },
        cols: if size.cols == 0 { 80 } else { size.cols },
        pixel_width: size.pixel_width,
        pixel_height: size.pixel_height,
    }
}

/// Opaque handle type that C callers see for a session.
pub struct wezterm_kit_session_t {
    _private: [u8; 0],
}

/// The text of a string with every NUL character replaced by a space, so
/// that it can be handed to C as one NUL-terminated string.
pub open spec fn nul_to_space(s: Seq<char>) -> Seq<char> {
    s.map_values(|c: char| if c == '\0' { ' ' } else { c })
}

/// The characters of `s`.
pub fn chars_of(s: &str) -> (v: Vec<char>)
    ensures
        v@ == s@,
{
    let n = s.unicode_len();
    let mut v: Vec<char> = Vec::new();
    let mut i: usize = 0;
    while i < n
        invariant
            n == s@.len(),
            i <= n,
            v@ =~= s@.take(i as int),
        decreases n - i,
    {
        v.push(s.get_char(i));
        i = i + 1;
    }
    v
}

/// The text of `s` for a C callback: NUL characters become spaces.
pub fn c_safe_text(s: &str) -> (v: Vec<char>)
    ensures
        v@ == nul_to_space(s@),
{
    let chars = chars_of(s);
    let mut v: Vec<char> = Vec::new();
    let mut i: usize = 0;
    while i < chars.len()
        invariant
            chars@ == s@,
            i <= chars@.len(),
            v@ =~= nul_to_space(s@).take(i as int),
        decreases chars@.len() - i,
    {
        let c = chars[i];
        v.push(if c == '\0' { ' ' } else { c });
        i = i + 1;
    }
    v
}

/// The text of `s` as a C string, or `None` where it holds a NUL character
/// and so cannot be one (as `CString::new` refuses it).
pub fn c_string_text(s: &str) -> (r: Option<Vec<char>>)
    ensures
        r is None <==> s@.contains('\0'),
        r matches Some(v) ==> v@ == s@,
{
    let chars = chars_of(s);
    let mut i: usize = 0;
    while i < chars.len()
        invariant
            chars@ == s@,
            i <= chars@.len(),
            forall|j: int| 0 <= j < i ==> chars@[j] != '\0',
        decreases chars@.len() - i,
    {
        if chars[i] == '\0' {
            proof {
                assert(s@[i as int] == '\0');
            }
            return None;
        }
        i = i + 1;
    }
    Some(chars)
}

/// `CurrentDir("`, how the debug text of iTerm2's current-directory report
/// begins.
pub open spec fn iterm_dir_prefix() -> Seq<char> {
    seq!['C', 'u', 'r', 'r', 'e', 'n', 't', 'D', 'i', 'r', '(', '"']
}

/// `")`, how it ends.
pub open spec fn iterm_dir_suffix() -> Seq<char> {
    seq!['"', ')']
}

/// The directory inside the debug text of an iTerm2 proprietary report,
/// where the text has the form `CurrentDir("...")`.
pub open spec fn spec_iterm_current_dir(d: Seq<char>) -> Option<Seq<char>> {
    if d.len() >= 14 && d.take(12) == iterm_dir_prefix() && d.subrange(d.len() - 2, d.len() as int)
        == iterm_dir_suffix() {
        Some(d.subrange(12, d.len() - 2))
    } else {
        None
    }
}

/// Finds the working directory in the debug text of an iTerm2 proprietary
/// report: the text between `CurrentDir("` at the start and `")` at the end.
pub fn iterm_current_dir(description: &str) -> (r: Option<Vec<char>>)
    ensures
        r is Some <==> spec_iterm_current_dir(description@) is Some,
        r matches Some(v) ==> Some(v@) == spec_iterm_current_dir(description@),
{
    let d = chars_of(description);
    let n = d.len();
    let prefix: [char; 12] = ['C', 'u', 'r', 'r', 'e', 'n', 't', 'D', 'i', 'r', '(', '"'];
    if n < 14 {
        return None;
    }
    let mut i: usize = 0;
    while i < 12
        invariant
            n == d@.len(),
            n >= 14,
            d@ == description@,
            prefix@ == iterm_dir_prefix(),
            i <= 12,
            forall|j: int| 0 <= j < i ==> d@[j] == iterm_dir_prefix()[j],
        decreases 12 - i,
    {
        if d[i] != prefix[i] {
            proof {
                assert(d@.take(12)[i as int] != iterm_dir_prefix()[i as int]);
            }
            return None;
        }
        i = i + 1;
    }
    proof {
        assert(d@.take(12) =~= iterm_dir_prefix());
    }
    if d[n - 2] != '"' || d[n - 1] != ')' {
        proof {
            let tail = d@.subrange(n - 2, n as int);
            assert(tail[0] == d@[n - 2] && tail[1] == d@[n - 1]);
        }
        return None;
    }
    proof {
        assert(d@.subrange(n - 2, n as int) =~= iterm_dir_suffix());
    }
    let mut v: Vec<char> = Vec::new();
    let mut k: usize = 12;
    while k < n - 2
        invariant
            n == d@.len(),
            n >= 14,
            12 <= k <= n - 2,
            v@ =~= d@.subrange(12, k as int),
        decreases n - 2 - k,
    {
        v.push(d[k]);
        k = k + 1;
    }
    Some(v)
}

/// What the output of a session's program asks for, as far as the session
/// host is concerned.
#[derive(Debug, Clone, PartialEq, Eq)]
pub enum ParsedEvent {
    /// The bell control code.
    Bell,
    /// An escape sequence that sets the window title or the icon name.
    Title(String),
    /// An OSC 7 current-working-directory report.
    WorkingDirectory(String),
    /// An iTerm2 proprietary escape, by its debug text.
    ITermProprietary(String),
    /// Anything else.
    Other,
}

/// What the host is told.
#[derive(Debug, Clone, PartialEq, Eq)]
pub enum Notification {
    Bell,
    Title(Vec<char>),
    WorkingDirectory(Vec<char>),
}

/// A notification by its text.
pub enum NotificationView {
    Bell,
    Title(Seq<char>),
    WorkingDirectory(Seq<char>),
}

impl View for Notification {
    type V = NotificationView;

    open spec fn view(&self) -> NotificationView {
        match self {
            Notification::Bell => NotificationView::Bell,
            Notification::Title(t) => NotificationView::Title(t@),
            Notification::WorkingDirectory(d) => NotificationView::WorkingDirectory(d@),
        }
    }
}

/// An optional string by its text.
pub open spec fn opt_text(o: Option<String>) -> Option<Seq<char>> {
    match o {
        Some(s) => Some(s@),
        None => None,
    }
}

/// An optional notification by its view.
pub open spec fn opt_notification(o: Option<Notification>) -> Option<NotificationView> {
    match o {
        Some(n) => Some(n@),
        None => None,
    }
}

/// The session's memory of what it last reported, by text: the last title
/// and the last working directory.
pub struct ReportMemory {
    pub title: Option<Seq<char>>,
    pub working_directory: Option<Seq<char>>,
}

/// How a session handles an event from its program's output, given what it
/// last reported: the bell is always reported; a title or a working
/// directory only when it differs from the last one reported of its kind
/// (and is then remembered), with NUL characters turned into spaces; an
/// iTerm2 report counts as a working directory where it names one; anything
/// else is ignored.
pub open spec fn spec_handle_event(m: ReportMemory, ev: ParsedEvent) -> (ReportMemory, Option<
    NotificationView,
>) {
    match ev {
        ParsedEvent::Bell => (m, Some(NotificationView::Bell)),
        ParsedEvent::Title(t) => {
            if m.title == Some(t@) {
                (m, None)
            } else {
                (
                    ReportMemory { title: Some(t@), ..m },
                    Some(NotificationView::Title(nul_to_space(t@))),
                )
            }
        },
        ParsedEvent::WorkingDirectory(d) => spec_report_directory(m, d@),
        ParsedEvent::ITermProprietary(desc) => match spec_iterm_current_dir(desc@) {
            Some(d) => spec_report_directory(m, d),
            None => (m, None),
        },
        ParsedEvent::Other => (m, None),
    }
}

/// Reporting working directory `d`.
pub open spec fn spec_report_directory(m: ReportMemory, d: Seq<char>) -> (ReportMemory, Option<
    NotificationView,
>) {
    if m.working_directory == Some(d) {
        (m, None)
    } else {
        (
            ReportMemory { working_directory: Some(d), ..m },
            Some(NotificationView::WorkingDirectory(nul_to_space(d))),
        )
    }
}

/// Whether a program may be spawned, by the session's running flag.
pub open spec fn spec_spawn_gate(running: bool) -> Result<(), i32> {
    if running { Err(WEZTERM_KIT_STATUS_ALREADY_RUNNING) } else { Ok(()) }
}

/// Whether bytes may be written, by the session's state and the buffer.
pub open spec fn spec_write_gate(running: bool, has_writer: bool, data_present: bool, len: usize) -> Result<(), i32> {
    if !data_present || len == 0 {
        Err(WEZTERM_KIT_STATUS_INVALID_ARGUMENT)
    } else if !running || !has_writer {
        Err(WEZTERM_KIT_STATUS_NOT_RUNNING)
    } else {
        Ok(())
    }
}

/// Whether the PTY may be resized.
pub open spec fn spec_resize_gate(running: bool, has_master: bool) -> Result<(), i32> {
    if !running || !has_master { Err(WEZTERM_KIT_STATUS_NOT_RUNNING) } else { Ok(()) }
}

/// Whether the program may be killed.
pub open spec fn spec_kill_gate(has_killer: bool) -> Result<(), i32> {
    if !has_killer { Err(WEZTERM_KIT_STATUS_NOT_RUNNING) } else { Ok(()) }
}

/// The state of a session: whether its program runs, which of the PTY's
/// parts (the child killer, the master side, the writer) it holds, and what
/// it last reported.
#[derive(Debug)]
pub struct SessionState {
    pub running: bool,
    pub has_killer: bool,
    pub has_master: bool,
    pub has_writer: bool,
    pub last_title: Option<String>,
    pub last_working_directory: Option<String>,
}

impl SessionState {
    /// A running session holds all the PTY's parts: the child killer, the
    /// master side and the writer.
    pub open spec fn wf(&self) -> bool {
        self.running ==> self.has_killer && self.has_master && self.has_writer
    }

    /// The session's memory of what it reported, by text.
    pub open spec fn memory(&self) -> ReportMemory {
        ReportMemory {
            title: opt_text(self.last_title),
            working_directory: opt_text(self.last_working_directory),
        }
    }

    /// A session with no program and nothing reported.
    pub fn new() -> (s: Self)
        ensures
            s.wf(),
            !s.running && !s.has_killer && !s.has_master && !s.has_writer,
            s.last_title is None,
            s.last_working_directory is None,
    {
        SessionState {
            running: false,
            has_killer: false,
            has_master: false,
            has_writer: false,
            last_title: None,
            last_working_directory: None,
        }
    }

    /// Whether a program may be spawned: refused with `ALREADY_RUNNING`
    /// while one runs.
    pub fn spawn_gate(&self) -> (r: Result<(), i32>)
        ensures
            r == spec_spawn_gate(self.running),
    {
        if self.running {
            Err(WEZTERM_KIT_STATUS_ALREADY_RUNNING)
        } else {
            Ok(())
        }
    }

    /// A program was spawned: the session holds all the PTY's parts and runs.
    pub fn on_spawned(&mut self)
        ensures
            final(self).wf(),
            final(self).running && final(self).has_killer && final(self).has_master
                && final(self).has_writer,
            final(self).last_title == old(self).last_title,
            final(self).last_working_directory == old(self).last_working_directory,
    {
        self.has_killer = true;
        self.has_master = true;
        self.has_writer = true;
        self.running = true;
    }

    /// The program exited: the session stops running and drops the PTY.
    pub fn on_exited(&mut self)
        ensures
            final(self).wf(),
            !final(self).running && !final(self).has_killer && !final(self).has_master
                && !final(self).has_writer,
            final(self).last_title == old(self).last_title,
            final(self).last_working_directory == old(self).last_working_directory,
    {
        self.running = false;
        self.has_killer = false;
        self.has_master = false;
        self.has_writer = false;
    }

    /// The session is freed: it stops running and drops the PTY; returns
    /// whether it held a child killer, which is then used to kill the child.
    pub fn shutdown(&mut self) -> (kill: bool)
        ensures
            kill == old(self).has_killer,
            old(self).wf() && old(self).running ==> kill,
            final(self).wf(),
            !final(self).running && !final(self).has_killer && !final(self).has_master
                && !final(self).has_writer,
            final(self).last_title == old(self).last_title,
            final(self).last_working_directory == old(self).last_working_directory,
    {
        let kill = self.has_killer;
        self.on_exited();
        kill
    }

    /// Whether bytes may be written to the program: an empty or missing
    /// buffer is an `INVALID_ARGUMENT`; a session that does not run, or has
    /// no writer, is `NOT_RUNNING`.
    pub fn write_gate(&self, data_present: bool, len: usize) -> (r: Result<(), i32>)
        ensures
            r == spec_write_gate(self.running, self.has_writer, data_present, len),
    {
        if !data_present || len == 0 {
            return Err(WEZTERM_KIT_STATUS_INVALID_ARGUMENT);
        }
        if !self.running || !self.has_writer {
            return Err(WEZTERM_KIT_STATUS_NOT_RUNNING);
        }
        Ok(())
    }

    /// Whether the PTY may be resized: `NOT_RUNNING` unless the session runs
    /// and holds the PTY's master side.
    pub fn resize_gate(&self) -> (r: Result<(), i32>)
        ensures
            r == spec_resize_gate(self.running, self.has_master),
    {
        if !self.running || !self.has_master {
            Err(WEZTERM_KIT_STATUS_NOT_RUNNING)
        } else {
            Ok(())
        }
    }

    /// Whether the program may be killed: `NOT_RUNNING` unless the session
    /// holds a child killer.
    pub fn kill_gate(&self) -> (r: Result<(), i32>)
        ensures
            r == spec_kill_gate(self.has_killer),
    {
        if !self.has_killer {
            Err(WEZTERM_KIT_STATUS_NOT_RUNNING)
        } else {
            Ok(())
        }
    }

    /// Handles one event of the program's output (see `spec_handle_event`).
    pub fn handle_event(&mut self, ev: ParsedEvent) -> (n: Option<Notification>)
        ensures
            (final(self).memory(), opt_notification(n)) == spec_handle_event(old(self).memory(), ev),
            final(self).wf() == old(self).wf(),
            final(self).running == old(self).running,
            final(self).has_killer == old(self).has_killer,
            final(self).has_master == old(self).has_master,
            final(self).has_writer == old(self).has_writer,
    {
        match ev {
            ParsedEvent::Bell => Some(Notification::Bell),
            ParsedEvent::Title(t) => {
                let same = match &self.last_title {
                    Some(last) => *last == t,
                    None => false,
                };
                if same {
                    None
                } else {
                    let text = c_safe_text(t.as_str());
                    self.last_title = Some(t);
                    Some(Notification::Title(text))
                }
            },
            ParsedEvent::WorkingDirectory(d) => {
                let dir = chars_of(d.as_str());
                self.report_directory(dir)
            },
            ParsedEvent::ITermProprietary(desc) => match iterm_current_dir(desc.as_str()) {
                Some(dir) => self.report_directory(dir),
                None => None,
            },
            ParsedEvent::Other => None,
        }
    }

    fn report_directory(&mut self, dir: Vec<char>) -> (n: Option<Notification>)
        ensures
            (final(self).memory(), opt_notification(n)) == spec_report_directory(old(self).memory(), dir@),
            final(self).running == old(self).running,
            final(self).has_killer == old(self).has_killer,
            final(self).has_master == old(self).has_master,
            final(self).has_writer == old(self).has_writer,
    {
        let text = string_from_chars(&dir);
        let same = match &self.last_working_directory {
            Some(last) => *last == text,
            None => false,
        };
        if same {
            None
        } else {
            let shown = c_safe_text(text.as_str());
            self.last_working_directory = Some(text);
            Some(Notification::WorkingDirectory(shown))
        }
    }
}

/// The status of an operation that reached the PTY: `OK` where the PTY
/// call succeeded, `INTERNAL_ERROR` where it failed.
pub fn io_status(ok: bool) -> (s: i32)
    ensures
        s == (if ok { WEZTERM_KIT_STATUS_OK } else { WEZTERM_KIT_STATUS_INTERNAL_ERROR }),
{
    if ok { WEZTERM_KIT_STATUS_OK } else { WEZTERM_KIT_STATUS_INTERNAL_ERROR }
}

/// A session whose program is running accepts writes, resizes and kills,
/// and refuses a second spawn; once the program has exited (or the session
/// was shut down) it refuses writes, resizes and kills as not running, and
/// accepts a new spawn.
pub proof fn lemma_session_lifecycle(data_present: bool, len: usize)
    requires
        data_present,
        len > 0,
    ensures
        spec_spawn_gate(true) == Err::<(), i32>(WEZTERM_KIT_STATUS_ALREADY_RUNNING),
        spec_write_gate(true, true, data_present, len) == Ok::<(), i32>(()),
        spec_resize_gate(true, true) == Ok::<(), i32>(()),
        spec_kill_gate(true) == Ok::<(), i32>(()),
        spec_spawn_gate(false) == Ok::<(), i32>(()),
        spec_write_gate(false, false, data_present, len) == Err::<(), i32>(WEZTERM_KIT_STATUS_NOT_RUNNING),
        spec_resize_gate(false, false) == Err::<(), i32>(WEZTERM_KIT_STATUS_NOT_RUNNING),
        spec_kill_gate(false) == Err::<(), i32>(WEZTERM_KIT_STATUS_NOT_RUNNING),
{
}

/// A title or working directory is reported once: handling the same title
/// (or the same working directory) twice in a row reports it the first time
/// at most, and never the second time; the bell is reported every time.
pub proof fn lemma_reports_are_deduplicated(m: ReportMemory, ev: ParsedEvent)
    requires
        ev is Title || ev is WorkingDirectory || ev is ITermProprietary,
    ensures
        spec_handle_event(spec_handle_event(m, ev).0, ev).1 is None,
        spec_handle_event(m, ParsedEvent::Bell).1 == Some(NotificationView::Bell),
{
}

/// Text handed to a C callback holds no NUL character, so it always makes a
/// valid C string, and it is as long as the text it came from.
pub proof fn lemma_c_safe_text_has_no_nul(s: Seq<char>)
    ensures
        nul_to_space(s).len() == s.len(),
        forall|i: int| 0 <= i < s.len() ==> #[trigger] nul_to_space(s)[i] != '\0',
{
}

/// `String::from_iter` over characters: the string of the given characters.
#[verifier::external_body]
fn string_from_chars(v: &Vec<char>) -> (s: String)
    ensures
        s@ == v@,
{
    v.iter().collect()
}

/// Titles and working directories are remembered apart: handling a title
/// remembers that title and leaves the remembered working directory as it
/// was, and handling a working-directory report (plain or iTerm2's) leaves
/// the remembered title as it was; the bell and other events leave the
/// memory unchanged. So each kind is deduplicated only against its own last
/// report.
pub proof fn lemma_report_kinds_remembered_apart(m: ReportMemory, ev: ParsedEvent)
    ensures
        ev matches ParsedEvent::Title(t) ==> {
            &&& spec_handle_event(m, ev).0.title == Some(t@)
            &&& spec_handle_event(m, ev).0.working_directory == m.working_directory
        },
        ev matches ParsedEvent::WorkingDirectory(d) ==> {
            &&& spec_handle_event(m, ev).0.working_directory == Some(d@)
            &&& spec_handle_event(m, ev).0.title == m.title
        },
        ev is ITermProprietary ==> spec_handle_event(m, ev).0.title == m.title,
        (ev is Bell || ev is Other) ==> spec_handle_event(m, ev).0 == m,
{
}

/// A working directory reported once is not reported again however many
/// titles come in between: after a report of directory `d`, a title, and
/// `d` again, the second `d` is not reported.
pub proof fn lemma_title_does_not_reset_directory(m: ReportMemory, d: String, t: String)
    ensures
        ({
            let m1 = spec_handle_event(m, ParsedEvent::WorkingDirectory(d)).0;
            let m2 = spec_handle_event(m1, ParsedEvent::Title(t)).0;
            spec_handle_event(m2, ParsedEvent::WorkingDirectory(d)).1 is None
        }),
{
}

} // verus!
