use sysfacts::session::{next_session_action, SessionAction, SessionEvent};

fn owned(v: Option<&str>) -> Option<String> {
    v.map(|s| s.to_string())
}

fn started(a: Option<&str>, b: Option<&str>, c: Option<&str>) -> SessionAction {
    next_session_action(&SessionEvent::Started {
        desktop_session: owned(a),
        xdg_session_desktop: owned(b),
        xdg_current_desktop: owned(c),
    })
}

fn after_window(output: Option<&str>) -> SessionAction {
    next_session_action(&SessionEvent::WindowQueried { output: owned(output) })
}

fn after_root(output: Option<&str>) -> SessionAction {
    next_session_action(&SessionEvent::RootWindowQueried { output: owned(output) })
}

fn strings(v: &[&str]) -> Vec<String> {
    v.iter().map(|s| s.to_string()).collect()
}

const ROOT_OUTPUT: &str = "_NET_SUPPORTING_WM_CHECK: window id # 0x600006";

const WINDOW_OUTPUT: &str = "_NET_SUPPORTING_WM_CHECK: window id # 0x600006\n\
_NET_WM_NAME(UTF8_STRING) = \"wlrootswm\"\n\
WM_CLASS = \"wlroots\", \"wm\"\n";

#[test]
fn fallback_session() {
    let first = started(None, None, None);
    assert_eq!(
        first,
        SessionAction::QueryRootWindow(strings(&["-root", "-notype", "_NET_SUPPORTING_WM_CHECK"]))
    );
    let second = after_root(Some(ROOT_OUTPUT));
    assert_eq!(second, SessionAction::QueryWindow(strings(&["-id", "0x600006", "-notype"])));
    let wm_name = after_window(Some(WINDOW_OUTPUT));
    assert_eq!(wm_name, SessionAction::Resolved("wlrootswm".to_string()));
}

#[test]
fn xdg_current() {
    let wm_name = started(None, None, Some("Qtile"));
    assert_eq!(wm_name, SessionAction::Resolved("Qtile".to_string()));
}

#[test]
fn xdg_session() {
    let wm_name = started(None, Some("Testing"), None);
    assert_eq!(wm_name, SessionAction::Resolved("Testing".to_string()));
}

#[test]
fn desktop_session_takes_precedence() {
    let wm_name = started(Some("gnome"), Some("Testing"), Some("Qtile"));
    assert_eq!(wm_name, SessionAction::Resolved("gnome".to_string()));
}

#[test]
fn unknown_value_is_skipped() {
    assert_eq!(
        started(Some("Unknown"), Some("Testing"), None),
        SessionAction::Resolved("Testing".to_string())
    );
    assert_eq!(
        started(None, Some("Unknown"), Some("Qtile")),
        SessionAction::Resolved("Qtile".to_string())
    );
    assert_eq!(started(Some("Unknown"), Some("Unknown"), Some("Unknown")), started(None, None, None));
}

#[test]
fn empty_value_is_skipped() {
    assert_eq!(
        started(Some(""), Some(""), Some("Qtile")),
        SessionAction::Resolved("Qtile".to_string())
    );
}

#[test]
fn unknown_is_compared_exactly() {
    assert_eq!(started(Some("unknown"), None, None), SessionAction::Resolved("unknown".to_string()));
    assert_eq!(started(Some("Unknown "), None, None), SessionAction::Resolved("Unknown ".to_string()));
}

#[test]
fn no_marker_gives_unknown() {
    assert_eq!(
        after_window(Some("WM_CLASS = \"a\"\nWM_NAME = \"b\"\n")),
        SessionAction::Resolved("Unknown".to_string())
    );
    assert_eq!(after_window(Some("")), SessionAction::Resolved("Unknown".to_string()));
}

#[test]
fn failed_window_query_gives_unknown() {
    assert_eq!(after_window(None), SessionAction::Resolved("Unknown".to_string()));
}

#[test]
fn failed_root_query_reads_as_unknown() {
    assert_eq!(after_root(None), SessionAction::QueryWindow(strings(&["-id", "Unknown", "-notype"])));
}

#[test]
fn window_id_keeps_trailing_line_feed() {
    assert_eq!(
        after_root(Some("_NET_SUPPORTING_WM_CHECK: window id # 0x1e00003\n")),
        SessionAction::QueryWindow(strings(&["-id", "0x1e00003\n", "-notype"]))
    );
    assert_eq!(after_root(Some("")), SessionAction::QueryWindow(strings(&["-id", "", "-notype"])));
}

#[test]
fn extraction_strips_quotes_and_spaces() {
    assert_eq!(
        after_window(Some("_NET_WM_NAME(UTF8_STRING) = \"wlrootswm\"")),
        SessionAction::Resolved("wlrootswm".to_string())
    );
    assert_eq!(
        after_window(Some("_NET_WM_NAME(UTF8_STRING) = \"My Window Manager\"\n")),
        SessionAction::Resolved("MyWindowManager".to_string())
    );
}

#[test]
fn extraction_takes_text_after_last_equals() {
    assert_eq!(
        after_window(Some("_NET_WM_NAME = \"a=b\"\n")),
        SessionAction::Resolved("b".to_string())
    );
    assert_eq!(after_window(Some("_NET_WM_NAME_ONLY\n")), SessionAction::Resolved("_NET_WM_NAME_ONLY".to_string()));
}

#[test]
fn first_marked_line_wins() {
    assert_eq!(
        after_window(Some("_NET_WM_NAME = \"first\"\n_NET_WM_NAME = \"second\"\n")),
        SessionAction::Resolved("first".to_string())
    );
    assert_eq!(
        after_window(Some("X = 1\nA_NET_WM_NAMEB = \"inner\"\n_NET_WM_NAME = \"later\"")),
        SessionAction::Resolved("inner".to_string())
    );
}

#[test]
fn carriage_return_line_ending_is_dropped() {
    assert_eq!(
        after_window(Some("_NET_WM_NAME = \"openbox\"\r\nX = 1\r\n")),
        SessionAction::Resolved("openbox".to_string())
    );
}

#[test]
fn resolving_twice_gives_same_result() {
    let first = after_window(Some(WINDOW_OUTPUT));
    let second = after_window(Some(WINDOW_OUTPUT));
    assert_eq!(first, second);
    assert_eq!(started(None, Some("Testing"), None), started(None, Some("Testing"), None));
}

#[test]
fn empty_extracted_name_gives_unknown() {
    assert_eq!(
        after_window(Some("_NET_WM_NAME(UTF8_STRING) = \"\"\n")),
        SessionAction::Resolved("Unknown".to_string())
    );
    assert_eq!(
        after_window(Some("_NET_WM_NAME(UTF8_STRING) = \" \"\n_NET_WM_NAME = \"later\"\n")),
        SessionAction::Resolved("Unknown".to_string())
    );
}
