//! Resolution of the desktop session name.
//!
//! The resolver is a small decision procedure driven by events: the values of
//! the three session variables, then (when none of them is usable) the output
//! of the window-property query on the root window, then the output of the
//! query on the window that it names. Each step answers with the next action:
//! the resolved name, or the arguments of the next query to run.

use vstd::prelude::*;
use crate::text::{
    is_quote_or_space, chars_of, contains, contains_in, last_field, last_field_in, string_of, strip_quotes_spaces,
    without_quotes_spaces,
};

verus! {

/// Name of the program that answers window-property queries.
pub const QUERY_PROGRAM: &'static str = "xprop";

/// The value that stands for "no session name known".
pub const UNKNOWN: &'static str = "Unknown";

/// Marker of the property line that carries the window manager's name.
pub const NAME_PROPERTY: &'static str = "_NET_WM_NAME";

/// A value of a session variable can be used iff it is non-empty and not the
/// "unknown" value.
pub open spec fn usable(v: Seq<char>) -> bool {
    v.len() > 0 && v != UNKNOWN@
}

/// An optional variable value that is present and usable.
pub open spec fn usable_opt(v: Option<Seq<char>>) -> bool {
    v is Some && usable(v->0)
}

/// The first usable value of the three session variables, in order.
pub open spec fn env_session(
    desktop_session: Option<Seq<char>>,
    xdg_session_desktop: Option<Seq<char>>,
    xdg_current_desktop: Option<Seq<char>>,
) -> Option<Seq<char>> {
    if usable_opt(desktop_session) {
        desktop_session
    } else if usable_opt(xdg_session_desktop) {
        xdg_session_desktop
    } else if usable_opt(xdg_current_desktop) {
        xdg_current_desktop
    } else {
        None
    }
}

/// Arguments of the query on the root window.
pub open spec fn root_query_args() -> Seq<Seq<char>> {
    seq!["-root"@, "-notype"@, "_NET_SUPPORTING_WM_CHECK"@]
}

/// Arguments of the query that lists all properties of window `id`.
pub open spec fn window_query_args(id: Seq<char>) -> Seq<Seq<char>> {
    seq!["-id"@, id, "-notype"@]
}

/// The window identifier named by the root-window query output: its last
/// space-separated token. A failed query reads as the "unknown" value.
pub open spec fn window_id(output: Option<Seq<char>>) -> Seq<char> {
    match output {
        Some(o) => last_field(o, ' '),
        None => last_field(UNKNOWN@, ' '),
    }
}

/// Index of the first line feed at or after `start`, or the length of `s`.
pub open spec fn line_end(s: Seq<char>, start: int) -> int
    decreases s.len() - start,
{
    if start >= s.len() {
        s.len() as int
    } else if s[start] == '\n' {
        start
    } else {
        line_end(s, start + 1)
    }
}

/// The line of `s` that begins at `start`, without its line ending
/// (a line feed, or a carriage return and a line feed).
pub open spec fn line_at(s: Seq<char>, start: int) -> Seq<char> {
    let e = line_end(s, start);
    if start < e < s.len() && s[e - 1] == '\r' {
        s.subrange(start, e - 1)
    } else {
        s.subrange(start, e)
    }
}

/// The first line of `s`, from `start` on, that holds the name property marker.
pub open spec fn marked_line_from(s: Seq<char>, start: int) -> Option<Seq<char>>
    decreases s.len() - start,
    via marked_line_decreases
{
    if start < 0 || start >= s.len() {
        None
    } else if contains(line_at(s, start), NAME_PROPERTY@) {
        Some(line_at(s, start))
    } else if line_end(s, start) < s.len() {
        marked_line_from(s, line_end(s, start) + 1)
    } else {
        None
    }
}

#[via_fn]
proof fn marked_line_decreases(s: Seq<char>, start: int) {
    if 0 <= start < s.len() {
        lemma_line_end(s, start);
    }
}

/// The value on a property line: what follows its last `=`, with double quotes
/// and spaces removed.
pub open spec fn property_value(line: Seq<char>) -> Seq<char> {
    without_quotes_spaces(last_field(line, '='))
}

/// The session name read from the output of the query on the window manager's
/// window: the value on its first line that holds the name property marker
/// when that value is not empty, else the "unknown" value.
pub open spec fn window_name(output: Option<Seq<char>>) -> Seq<char> {
    match output {
        Some(o) => match marked_line_from(o, 0) {
            Some(line) => if property_value(line).len() > 0 {
                property_value(line)
            } else {
                UNKNOWN@
            },
            None => UNKNOWN@,
        },
        None => UNKNOWN@,
    }
}

/// The bounds of `line_end`: it is a line feed or the end, and no line feed
/// lies between `start` and it.
pub proof fn lemma_line_end(s: Seq<char>, start: int)
    requires
        0 <= start < s.len(),
    ensures
        start <= line_end(s, start) <= s.len(),
        line_end(s, start) < s.len() ==> s[line_end(s, start)] == '\n',
        forall|j: int| start <= j < line_end(s, start) ==> s[j] != '\n',
    decreases s.len() - start,
{
    if s[start] != '\n' {
        if start + 1 < s.len() {
            lemma_line_end(s, start + 1);
        } else {
            assert(line_end(s, start + 1) == s.len());
        }
    }
}

/// What the resolver learns, one event at a time.
#[derive(Debug, Clone, PartialEq, Eq)]
pub enum SessionEvent {
    /// The values of the session variables; `None` for an unset variable.
    Started {
        desktop_session: Option<String>,
        xdg_session_desktop: Option<String>,
        xdg_current_desktop: Option<String>,
    },
    /// The output of the query on the root window; `None` when it failed.
    RootWindowQueried { output: Option<String> },
    /// The output of the query on the window manager's window; `None` when it failed.
    WindowQueried { output: Option<String> },
}

/// What the resolver asks for next.
#[derive(Debug, Clone, PartialEq, Eq)]
pub enum SessionAction {
    /// The session name is known.
    Resolved(String),
    /// Run the window-property query on the root window, with these arguments.
    QueryRootWindow(Vec<String>),
    /// Run the window-property query on one window, with these arguments.
    QueryWindow(Vec<String>),
}

/// The mathematical model of a `SessionEvent`.
pub enum SessionInput {
    Started(Option<Seq<char>>, Option<Seq<char>>, Option<Seq<char>>),
    RootWindowQueried(Option<Seq<char>>),
    WindowQueried(Option<Seq<char>>),
}

/// The mathematical model of a `SessionAction`.
pub enum SessionStep {
    Resolved(Seq<char>),
    QueryRootWindow(Seq<Seq<char>>),
    QueryWindow(Seq<Seq<char>>),
}

impl View for SessionEvent {
    type V = SessionInput;

    open spec fn view(&self) -> SessionInput {
        match self {
            SessionEvent::Started { desktop_session, xdg_session_desktop, xdg_current_desktop } =>
                SessionInput::Started(
                desktop_session.deep_view(),
                xdg_session_desktop.deep_view(),
                xdg_current_desktop.deep_view(),
            ),
            SessionEvent::RootWindowQueried { output } => SessionInput::RootWindowQueried(
                output.deep_view(),
            ),
            SessionEvent::WindowQueried { output } => SessionInput::WindowQueried(
                output.deep_view(),
            ),
        }
    }
}

impl View for SessionAction {
    type V = SessionStep;

    open spec fn view(&self) -> SessionStep {
        match self {
            SessionAction::Resolved(name) => SessionStep::Resolved(name@),
            SessionAction::QueryRootWindow(args) => SessionStep::QueryRootWindow(args.deep_view()),
            SessionAction::QueryWindow(args) => SessionStep::QueryWindow(args.deep_view()),
        }
    }
}

/// The resolver's answer to an event.
pub open spec fn next_step(e: SessionInput) -> SessionStep {
    match e {
        SessionInput::Started(a, b, c) => match env_session(a, b, c) {
            Some(name) => SessionStep::Resolved(name),
            None => SessionStep::QueryRootWindow(root_query_args()),
        },
        SessionInput::RootWindowQueried(output) => SessionStep::QueryWindow(
            window_query_args(window_id(output)),
        ),
        SessionInput::WindowQueried(output) => SessionStep::Resolved(window_name(output)),
    }
}

/// Whether a session variable's value can be used.
pub fn is_usable(v: &Option<String>) -> (r: bool)
    ensures
        r == usable_opt(v.deep_view()),
{
    match v {
        Some(s) => {
            let unknown = String::from_str(UNKNOWN);
            s.unicode_len() > 0 && !(*s == unknown)
        },
        None => false,
    }
}

/// Index of the first line feed at or after `start`, or the length of `s`.
fn find_line_end(s: &Vec<char>, start: usize) -> (e: usize)
    requires
        start < s.len(),
    ensures
        e == line_end(s@, start as int),
{
    let mut e = start;
    while e < s.len() && s[e] != '\n'
        invariant
            start <= e <= s.len(),
            line_end(s@, start as int) == line_end(s@, e as int),
        decreases s.len() - e,
    {
        e = e + 1;
    }
    e
}

/// Bounds of the first line of `s` that holds the name property marker.
fn find_marked_line(s: &Vec<char>) -> (r: Option<(usize, usize)>)
    ensures
        match r {
            Some((a, b)) => a <= b <= s.len() && marked_line_from(s@, 0) == Some(
                s@.subrange(a as int, b as int),
            ),
            None => marked_line_from(s@, 0) is None,
        },
{
    let marker = chars_of(NAME_PROPERTY);
    let mut start: usize = 0;
    while start < s.len()
        invariant
            start <= s.len(),
            marker@ == NAME_PROPERTY@,
            marked_line_from(s@, 0) == marked_line_from(s@, start as int),
        decreases s.len() - start,
    {
        let e = find_line_end(s, start);
        proof {
            lemma_line_end(s@, start as int);
        }
        let stop = if start < e && e < s.len() && s[e - 1] == '\r' {
            e - 1
        } else {
            e
        };
        assert(line_at(s@, start as int) == s@.subrange(start as int, stop as int));
        if contains_in(s, start, stop, &marker) {
            return Some((start, stop));
        }
        if e >= s.len() {
            return None;
        }
        start = e + 1;
    }
    None
}

/// The session name read from the output of the query on the window
/// manager's window.
fn name_from_window_output(output: &Option<String>) -> (r: String)
    ensures
        r@ == window_name(output.deep_view()),
{
    match output {
        Some(o) => {
            let s = chars_of(o.as_str());
            match find_marked_line(&s) {
                Some((a, b)) => {
                    let field = last_field_in(&s, a, b, '=');
                    let value = strip_quotes_spaces(&field);
                    if value.len() > 0 {
                        string_of(&value)
                    } else {
                        String::from_str(UNKNOWN)
                    }
                },
                None => String::from_str(UNKNOWN),
            }
        },
        None => String::from_str(UNKNOWN),
    }
}

/// The window identifier named by the output of the query on the root window.
fn id_from_root_output(output: &Option<String>) -> (r: String)
    ensures
        r@ == window_id(output.deep_view()),
{
    let s = match output {
        Some(o) => chars_of(o.as_str()),
        None => chars_of(UNKNOWN),
    };
    let id = last_field_in(&s, 0, s.len(), ' ');
    assert(s@.subrange(0, s@.len() as int) == s@);
    string_of(&id)
}

/// The next step of the session name resolution, given the latest event.
///
/// On the variable values it resolves to the first usable one, in the order
/// `DESKTOP_SESSION`, `XDG_SESSION_DESKTOP`, `XDG_CURRENT_DESKTOP`, and asks
/// for the root-window query when none is usable. On the root-window output it
/// asks for the query on the window named by its last token. On that query's
/// output it resolves to the name on the first `_NET_WM_NAME` line when that
/// name is not empty, or to "Unknown".
pub fn next_session_action(event: &SessionEvent) -> (r: SessionAction)
    ensures
        r@ == next_step(event@),
{
    match event {
        SessionEvent::Started { desktop_session, xdg_session_desktop, xdg_current_desktop } => {
            if is_usable(desktop_session) {
                SessionAction::Resolved(desktop_session.as_ref().unwrap().clone())
            } else if is_usable(xdg_session_desktop) {
                SessionAction::Resolved(xdg_session_desktop.as_ref().unwrap().clone())
            } else if is_usable(xdg_current_desktop) {
                SessionAction::Resolved(xdg_current_desktop.as_ref().unwrap().clone())
            } else {
                let mut args: Vec<String> = Vec::new();
                args.push(String::from_str("-root"));
                args.push(String::from_str("-notype"));
                args.push(String::from_str("_NET_SUPPORTING_WM_CHECK"));
                assert(args.deep_view() == root_query_args());
                SessionAction::QueryRootWindow(args)
            }
        },
        SessionEvent::RootWindowQueried { output } => {
            let id = id_from_root_output(output);
            let mut args: Vec<String> = Vec::new();
            args.push(String::from_str("-id"));
            args.push(id);
            args.push(String::from_str("-notype"));
            assert(args.deep_view() == window_query_args(id@));
            SessionAction::QueryWindow(args)
        },
        SessionEvent::WindowQueried { output } => {
            SessionAction::Resolved(name_from_window_output(output))
        },
    }
}

/// With no usable session variable, the resolver turns to the root-window
/// query; and when the window query failed or printed no `_NET_WM_NAME`
/// line, the name is "Unknown".
pub proof fn lemma_total_fallback(
    desktop_session: Option<Seq<char>>,
    xdg_session_desktop: Option<Seq<char>>,
    xdg_current_desktop: Option<Seq<char>>,
    window_output: Option<Seq<char>>,
)
    requires
        !usable_opt(desktop_session),
        !usable_opt(xdg_session_desktop),
        !usable_opt(xdg_current_desktop),
        window_output is None || marked_line_from(window_output->0, 0) is None,
    ensures
        next_step(SessionInput::Started(desktop_session, xdg_session_desktop, xdg_current_desktop))
            == SessionStep::QueryRootWindow(root_query_args()),
        next_step(SessionInput::WindowQueried(window_output)) == SessionStep::Resolved(UNKNOWN@),
{
}

/// A usable `DESKTOP_SESSION` is the session name, whatever the other two
/// variables hold.
pub proof fn lemma_first_source_precedence(
    desktop_session: Seq<char>,
    xdg_session_desktop: Option<Seq<char>>,
    xdg_current_desktop: Option<Seq<char>>,
)
    requires
        usable(desktop_session),
    ensures
        next_step(
            SessionInput::Started(Some(desktop_session), xdg_session_desktop, xdg_current_desktop),
        ) == SessionStep::Resolved(desktop_session),
{
}

/// With `DESKTOP_SESSION` unset, a usable `XDG_SESSION_DESKTOP` is the session
/// name.
pub proof fn lemma_second_source_fallback(
    xdg_session_desktop: Seq<char>,
    xdg_current_desktop: Option<Seq<char>>,
)
    requires
        usable(xdg_session_desktop),
    ensures
        next_step(SessionInput::Started(None, Some(xdg_session_desktop), xdg_current_desktop))
            == SessionStep::Resolved(xdg_session_desktop),
{
}

/// With the first two variables unset, a usable `XDG_CURRENT_DESKTOP` is the
/// session name.
pub proof fn lemma_third_source_fallback(xdg_current_desktop: Seq<char>)
    requires
        usable(xdg_current_desktop),
    ensures
        next_step(SessionInput::Started(None, None, Some(xdg_current_desktop)))
            == SessionStep::Resolved(xdg_current_desktop),
{
}

/// A session variable set to "Unknown" is treated exactly as an unset one.
pub proof fn lemma_unknown_counts_as_unset(
    desktop_session: Option<Seq<char>>,
    xdg_session_desktop: Option<Seq<char>>,
    xdg_current_desktop: Option<Seq<char>>,
)
    ensures
        next_step(SessionInput::Started(Some(UNKNOWN@), xdg_session_desktop, xdg_current_desktop))
            == next_step(SessionInput::Started(None, xdg_session_desktop, xdg_current_desktop)),
        next_step(SessionInput::Started(desktop_session, Some(UNKNOWN@), xdg_current_desktop))
            == next_step(SessionInput::Started(desktop_session, None, xdg_current_desktop)),
        next_step(SessionInput::Started(desktop_session, xdg_session_desktop, Some(UNKNOWN@)))
            == next_step(SessionInput::Started(desktop_session, xdg_session_desktop, None)),
{
}

/// A resolution runs at most two queries: the variables resolve or ask for
/// the root-window query, its output always leads to the window query, and
/// that query's output always resolves.
pub proof fn lemma_at_most_two_queries(
    desktop_session: Option<Seq<char>>,
    xdg_session_desktop: Option<Seq<char>>,
    xdg_current_desktop: Option<Seq<char>>,
    root_output: Option<Seq<char>>,
    window_output: Option<Seq<char>>,
)
    ensures
        next_step(
            SessionInput::Started(desktop_session, xdg_session_desktop, xdg_current_desktop),
        ) is Resolved || next_step(
            SessionInput::Started(desktop_session, xdg_session_desktop, xdg_current_desktop),
        ) == SessionStep::QueryRootWindow(root_query_args()),
        next_step(SessionInput::RootWindowQueried(root_output)) == SessionStep::QueryWindow(
            window_query_args(window_id(root_output)),
        ),
        next_step(SessionInput::WindowQueried(window_output)) is Resolved,
{
}

/// A resolved session name is never empty.
pub proof fn lemma_resolved_name_nonempty(event: SessionInput)
    ensures
        next_step(event) matches SessionStep::Resolved(name) ==> name.len() > 0,
{
    reveal_strlit("Unknown");
}

/// The resolver is a function of what it is told: the same variable values
/// and the same query outputs give the same steps, so resolving twice in an
/// unchanged environment gives the same name.
pub proof fn lemma_resolution_repeatable(first: SessionInput, second: SessionInput)
    requires
        first == second,
    ensures
        next_step(first) == next_step(second),
{
}

/// `without_quotes_spaces` leaves no double quote and no space.
pub proof fn lemma_stripped_is_clean(s: Seq<char>)
    ensures
        forall|i: int|
            0 <= i < without_quotes_spaces(s).len() ==> !is_quote_or_space(
                #[trigger] without_quotes_spaces(s)[i],
            ),
    decreases s.len(),
{
    if s.len() > 0 {
        let rest = without_quotes_spaces(s.drop_last());
        lemma_stripped_is_clean(s.drop_last());
        assert forall|i: int| 0 <= i < rest.len() implies !is_quote_or_space(
            #[trigger] rest.push(s.last())[i],
        ) by {
            assert(rest.push(s.last())[i] == rest[i]);
        }
    }
}

/// A name read from a window query holds no double quote and no space.
pub proof fn lemma_window_name_is_clean(window_output: Option<Seq<char>>)
    ensures
        forall|i: int|
            0 <= i < window_name(window_output).len() ==> !is_quote_or_space(
                #[trigger] window_name(window_output)[i],
            ),
{
    reveal_strlit("Unknown");
    if let Some(o) = window_output {
        if let Some(line) = marked_line_from(o, 0) {
            lemma_stripped_is_clean(last_field(line, '='));
        }
    }
}

} // verus!
