//! Which host callback a terminal notification calls.

use vstd::prelude::*;
use crate::session::c_string_text;

verus! {

/// A notification of the terminal engine, as far as the host is told of it.
#[derive(Debug, Clone, PartialEq, Eq)]
pub enum TerminalAlert {
    Bell,
    WindowTitleChanged(String),
    CurrentWorkingDirectoryChanged,
    /// Any other notification, which the host is not told of.
    Other,
}

/// The callback a notification calls, with its argument.
#[derive(Debug, Clone, PartialEq, Eq)]
pub enum AlertCall {
    Bell,
    TitleChanged(Vec<char>),
    /// The directory itself is queried separately.
    CwdChanged,
}

/// The callback that a terminal notification calls: the bell and a change
/// of working directory call theirs; a new title calls the title callback
/// with the title, unless the title holds a NUL character and so cannot be
/// handed over as a C string; other notifications call nothing.
pub fn alert_call(alert: &TerminalAlert) -> (c: Option<AlertCall>)
    ensures
        *alert == TerminalAlert::Bell ==> c == Some(AlertCall::Bell),
        *alert == TerminalAlert::CurrentWorkingDirectoryChanged ==> c == Some(AlertCall::CwdChanged),
        *alert == TerminalAlert::Other ==> c is None,
        alert matches TerminalAlert::WindowTitleChanged(t) ==> {
            &&& (c is None <==> t@.contains('\0'))
            &&& (c matches Some(call) ==> (call matches AlertCall::TitleChanged(v) && v@ == t@))
        },
{
    match alert {
        TerminalAlert::Bell => Some(AlertCall::Bell),
        TerminalAlert::WindowTitleChanged(title) => match c_string_text(title.as_str()) {
            Some(text) => Some(AlertCall::TitleChanged(text)),
            None => None,
        },
        TerminalAlert::CurrentWorkingDirectoryChanged => Some(AlertCall::CwdChanged),
        TerminalAlert::Other => None,
    }
}

} // verus!
