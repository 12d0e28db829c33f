//! Reading a session program's output for the events the host cares about,
//! with termwiz's escape-sequence parser.

use vstd::prelude::*;
use termwiz::escape::parser::Parser;
use termwiz::escape::{Action, ControlCode, OperatingSystemCommand};
use crate::session::ParsedEvent;

verus! {

#[verifier::external_type_specification]
#[verifier::external_body]
pub struct ExParser(Parser);

#[verifier::external_type_specification]
#[verifier::external_body]
pub struct ExAction(Action);

/// The actions that termwiz's parser, in state `parser`, makes of `bytes`,
/// in order. termwiz computes them from the parser's state and the bytes
/// alone: no clock, no randomness, no environment.
pub uninterp spec fn parsed_actions(parser: Parser, bytes: Seq<u8>) -> Seq<Action>;

/// What a parsed action says, by the kind the session host tells apart.
pub uninterp spec fn action_event(action: Action) -> ActionEvent;

/// A parsed action as the session host tells it apart: the bell control
/// code; each of the OSC commands that set a title or an icon name, with its
/// text; the OSC 7 working directory; iTerm2's proprietary OSC, by its debug
/// text; anything else.
#[derive(Debug, Clone, PartialEq, Eq)]
pub enum ActionEvent {
    Bell,
    SetIconNameAndWindowTitle(String),
    SetWindowTitle(String),
    SetWindowTitleSun(String),
    SetIconName(String),
    SetIconNameSun(String),
    CurrentWorkingDirectory(String),
    ITermProprietary(String),
    Other,
}

/// The event the session host reads from a parsed action: every command
/// that sets the window title or the icon name is a title change with its
/// text; the working-directory report is one; iTerm2's proprietary escape
/// is kept by its text for the host to read; the bell is the bell; anything
/// else is ignored.
pub open spec fn spec_host_event(a: ActionEvent) -> ParsedEvent {
    match a {
        ActionEvent::Bell => ParsedEvent::Bell,
        ActionEvent::SetIconNameAndWindowTitle(t) => ParsedEvent::Title(t),
        ActionEvent::SetWindowTitle(t) => ParsedEvent::Title(t),
        ActionEvent::SetWindowTitleSun(t) => ParsedEvent::Title(t),
        ActionEvent::SetIconName(t) => ParsedEvent::Title(t),
        ActionEvent::SetIconNameSun(t) => ParsedEvent::Title(t),
        ActionEvent::CurrentWorkingDirectory(d) => ParsedEvent::WorkingDirectory(d),
        ActionEvent::ITermProprietary(p) => ParsedEvent::ITermProprietary(p),
        ActionEvent::Other => ParsedEvent::Other,
    }
}

/// `termwiz::escape::parser::Parser::new`: a parser in its ground state.
/// Nothing is stated of the value, which is opaque here.
#[verifier::external_body]
fn new_escape_parser() -> Parser {
    Parser::new()
}

/// `Parser::parse_as_vec`: the actions that the bytes make up, in order,
/// continuing from where the previous chunk left the parser. The contract
/// says that they are `parsed_actions` of the parser's state before the
/// call and the bytes; it leaves unsaid what the parser's state becomes.
#[verifier::external_body]
fn parse_actions(parser: &mut Parser, bytes: &[u8]) -> (r: Vec<Action>)
    ensures
        r@ == parsed_actions(*old(parser), bytes@),
{
    parser.parse_as_vec(bytes)
}

/// Tells the parsed actions apart for the session host, one variant of
/// `ActionEvent` for each termwiz variant of the same name, moving its text
/// (iTerm2's proprietary OSC by its debug text). The contract names the
/// outcome `action_event` of the action.
#[verifier::external_body]
fn classify_action(action: Action) -> (e: ActionEvent)
    ensures
        e == action_event(action),
{
    match action {
        Action::Control(ControlCode::Bell) => ActionEvent::Bell,
        Action::OperatingSystemCommand(osc) => match *osc {
            OperatingSystemCommand::SetIconNameAndWindowTitle(t) => ActionEvent::SetIconNameAndWindowTitle(t),
            OperatingSystemCommand::SetWindowTitle(t) => ActionEvent::SetWindowTitle(t),
            OperatingSystemCommand::SetWindowTitleSun(t) => ActionEvent::SetWindowTitleSun(t),
            OperatingSystemCommand::SetIconName(t) => ActionEvent::SetIconName(t),
            OperatingSystemCommand::SetIconNameSun(t) => ActionEvent::SetIconNameSun(t),
            OperatingSystemCommand::CurrentWorkingDirectory(d) => ActionEvent::CurrentWorkingDirectory(d),
            OperatingSystemCommand::ITermProprietary(p) => ActionEvent::ITermProprietary(format!("{p:?}")),
            _ => ActionEvent::Other,
        },
        _ => ActionEvent::Other,
    }
}

/// The event the session host reads from a parsed action (see
/// `spec_host_event`).
pub fn host_event(a: ActionEvent) -> (e: ParsedEvent)
    ensures
        e == spec_host_event(a),
{
    match a {
        ActionEvent::Bell => ParsedEvent::Bell,
        ActionEvent::SetIconNameAndWindowTitle(t) => ParsedEvent::Title(t),
        ActionEvent::SetWindowTitle(t) => ParsedEvent::Title(t),
        ActionEvent::SetWindowTitleSun(t) => ParsedEvent::Title(t),
        ActionEvent::SetIconName(t) => ParsedEvent::Title(t),
        ActionEvent::SetIconNameSun(t) => ParsedEvent::Title(t),
        ActionEvent::CurrentWorkingDirectory(d) => ParsedEvent::WorkingDirectory(d),
        ActionEvent::ITermProprietary(p) => ParsedEvent::ITermProprietary(p),
        ActionEvent::Other => ParsedEvent::Other,
    }
}

/// Every command that sets the window title or the icon name (OSC 0, 1, 2
/// and the Sun forms) reaches the host as a title change with its text; the
/// OSC 7 report reaches it as that working directory; the bell as the bell;
/// only commands the host does not act on are ignored.
pub proof fn lemma_title_setters_report_titles(a: ActionEvent)
    ensures
        a matches ActionEvent::SetIconNameAndWindowTitle(t) ==> spec_host_event(a) == ParsedEvent::Title(t),
        a matches ActionEvent::SetWindowTitle(t) ==> spec_host_event(a) == ParsedEvent::Title(t),
        a matches ActionEvent::SetWindowTitleSun(t) ==> spec_host_event(a) == ParsedEvent::Title(t),
        a matches ActionEvent::SetIconName(t) ==> spec_host_event(a) == ParsedEvent::Title(t),
        a matches ActionEvent::SetIconNameSun(t) ==> spec_host_event(a) == ParsedEvent::Title(t),
        a matches ActionEvent::CurrentWorkingDirectory(d) ==> spec_host_event(a) == ParsedEvent::WorkingDirectory(d),
        a matches ActionEvent::ITermProprietary(p) ==> spec_host_event(a) == ParsedEvent::ITermProprietary(p),
        a is Bell ==> spec_host_event(a) == ParsedEvent::Bell,
        spec_host_event(a) is Other ==> a is Other,
{
}

/// Reads a session program's output chunk by chunk; escape sequences may
/// span chunks. The parser is only ever changed through `&mut` calls.
pub struct OutputScanner {
    parser: Parser,
}

impl OutputScanner {
    /// The parser's state, from which the next chunk is read.
    pub closed spec fn parser_state(&self) -> Parser {
        self.parser
    }

    pub fn new() -> Self {
        OutputScanner { parser: new_escape_parser() }
    }

    /// The events of the next chunk of output: one per parsed action, in
    /// the order the parser reports them, none dropped or repeated.
    pub fn scan(&mut self, bytes: &[u8]) -> (events: Vec<ParsedEvent>)
        ensures
            events@ == parsed_actions(old(self).parser_state(), bytes@).map_values(
                |a: Action| spec_host_event(action_event(a)),
            ),
    {
        let mut actions = parse_actions(&mut self.parser, bytes);
        let ghost all = actions@;
        let mut events: Vec<ParsedEvent> = Vec::new();
        while actions.len() > 0
            invariant
                events@.len() + actions@.len() == all.len(),
                actions@ == all.subrange(events@.len() as int, all.len() as int),
                forall|i: int| 0 <= i < events@.len() ==> #[trigger] events@[i] == spec_host_event(action_event(all[i])),
            decreases actions.len(),
        {
            let action = actions.remove(0);
            events.push(host_event(classify_action(action)));
        }
        assert(events@ =~= all.map_values(|a: Action| spec_host_event(action_event(a))));
        events
    }
}

} // verus!
