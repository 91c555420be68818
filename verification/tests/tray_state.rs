use rdl_tray::clipboard::WM_CLIPBOARDUPDATE;
use rdl_tray::tray_state::{
    low_word, Action, TrayState, ID_CONFIRM_YES, ID_TRAY_LAST, ID_TRAY_OPEN, ID_TRAY_QUIT,
    ID_TRAY_TOGGLE_WATCH, NIN_BALLOONUSERCLICK, WM_CLIPBOARD_URL, WM_COMMAND, WM_CONTEXTMENU, WM_DESTROY,
    WM_LBUTTONDBLCLK, WM_RBUTTONUP, WM_TRAY_ICON,
};

fn url(s: &str) -> Option<String> {
    Some(s.to_string())
}

fn is_nothing(a: &Action) -> bool {
    matches!(a, Action::Nothing)
}

#[test]
fn starts_watching_with_nothing_seen() {
    let s = TrayState::new();
    assert!(s.watching);
    assert!(s.pending_url.is_none() && s.last_url.is_none());
    assert_eq!(s.toggle_label(), "Pause clipboard watch");
}

#[test]
fn new_url_prompts_and_becomes_pending() {
    let mut s = TrayState::new();
    match s.on_clipboard_url(url("https://example.com/a")) {
        Action::Prompt { title, message } => {
            assert_eq!(title, "Send to remote-dl?");
            assert_eq!(message, "https://example.com/a");
        }
        _ => panic!("expected a prompt"),
    }
    assert_eq!(s.pending_url, url("https://example.com/a"));
    assert_eq!(s.last_url, url("https://example.com/a"));
}

#[test]
fn long_url_is_truncated_in_prompt() {
    let mut s = TrayState::new();
    let long = format!("https://example.com/{}", "x".repeat(100));
    match s.on_clipboard_url(Some(long.clone())) {
        Action::Prompt { message, .. } => {
            assert_eq!(message.chars().count(), 81);
            assert!(message.ends_with('…'));
        }
        _ => panic!("expected a prompt"),
    }
    assert_eq!(s.pending_url, Some(long));
}

#[test]
fn same_url_again_is_ignored() {
    let mut s = TrayState::new();
    s.on_clipboard_url(url("https://example.com/a"));
    s.on_command(ID_CONFIRM_YES);
    assert!(is_nothing(&s.on_clipboard_url(url("https://example.com/a"))));
    assert!(s.pending_url.is_none());
}

#[test]
fn no_url_does_nothing() {
    let mut s = TrayState::new();
    assert!(is_nothing(&s.on_clipboard_url(None)));
    assert!(s.last_url.is_none());
}

#[test]
fn paused_watch_ignores_clipboard() {
    let mut s = TrayState::new();
    match s.on_command(ID_TRAY_TOGGLE_WATCH) {
        Action::Notify { title, message } => {
            assert_eq!(title, "rdl-tray");
            assert_eq!(message, "Paused.");
        }
        _ => panic!("expected a notice"),
    }
    assert_eq!(s.toggle_label(), "Resume clipboard watch");
    assert!(is_nothing(&s.on_clipboard_url(url("https://example.com/b"))));
    assert!(s.last_url.is_none());
    match s.on_command(ID_TRAY_TOGGLE_WATCH) {
        Action::Notify { message, .. } => assert_eq!(message, "Watching clipboard."),
        _ => panic!("expected a notice"),
    }
    assert!(s.watching);
}

#[test]
fn confirm_dispatches_pending_once() {
    let mut s = TrayState::new();
    s.on_clipboard_url(url("https://example.com/c"));
    match s.on_command(ID_CONFIRM_YES) {
        Action::Dispatch { url } => assert_eq!(url, "https://example.com/c"),
        _ => panic!("expected a dispatch"),
    }
    assert!(s.pending_url.is_none());
    assert!(is_nothing(&s.on_command(ID_CONFIRM_YES)));
}

#[test]
fn send_last_redispatches_last_url() {
    let mut s = TrayState::new();
    assert!(is_nothing(&s.on_command(ID_TRAY_LAST)));
    s.on_clipboard_url(url("https://example.com/d"));
    s.on_command(ID_CONFIRM_YES);
    match s.on_command(ID_TRAY_LAST) {
        Action::Dispatch { url } => assert_eq!(url, "https://example.com/d"),
        _ => panic!("expected a dispatch"),
    }
    assert_eq!(s.last_url, url("https://example.com/d"));
}

#[test]
fn menu_commands_map_to_actions() {
    let mut s = TrayState::new();
    assert!(matches!(s.on_command(ID_TRAY_OPEN), Action::OpenWebUi));
    assert!(matches!(s.on_command(ID_TRAY_QUIT), Action::DestroyWindow));
    assert!(is_nothing(&s.on_command(4242)));
}

#[test]
fn tray_icon_events() {
    let mut s = TrayState::new();
    match s.on_tray_icon(WM_RBUTTONUP) {
        Action::ShowMenu { toggle_label } => assert_eq!(toggle_label, "Pause clipboard watch"),
        _ => panic!("expected the menu"),
    }
    assert!(matches!(s.on_tray_icon(WM_CONTEXTMENU), Action::ShowMenu { .. }));
    assert!(matches!(s.on_tray_icon(WM_LBUTTONDBLCLK), Action::OpenWebUi));
    assert!(is_nothing(&s.on_tray_icon(0x0200)));
}

#[test]
fn window_messages_are_routed() {
    let mut s = TrayState::new();
    assert!(matches!(s.on_message(WM_DESTROY, 0, 0, None), Action::PostQuit));
    assert!(matches!(
        s.on_message(WM_TRAY_ICON, 0, 0x0001_0205, None),
        Action::ShowMenu { .. }
    ));
    assert!(matches!(
        s.on_message(WM_CLIPBOARDUPDATE, 0, 0, url("https://example.com/e")),
        Action::Prompt { .. }
    ));
    assert!(matches!(
        s.on_message(WM_COMMAND, 0x0000_0000_0001_0000 + ID_CONFIRM_YES as usize, 0, None),
        Action::Dispatch { .. }
    ));
    assert!(is_nothing(&s.on_message(WM_CLIPBOARD_URL, 0, 0, None)));
    assert!(matches!(s.on_message(0x000F, 0, 0, None), Action::DefaultProcedure));
    assert!(matches!(
        s.on_message(WM_COMMAND, ID_TRAY_TOGGLE_WATCH as usize, 0, None),
        Action::Notify { .. }
    ));
    assert!(!s.watching);
}

#[test]
fn low_word_keeps_sixteen_bits() {
    assert_eq!(low_word(0x1234_5678), 0x5678);
    assert_eq!(low_word(0xFFFF), 0xFFFF);
    assert_eq!(low_word(0x10000), 0);
}

#[test]
fn balloon_click_confirms_pending_url() {
    let mut s = TrayState::new();
    assert!(is_nothing(&s.on_tray_icon(NIN_BALLOONUSERCLICK)));
    assert!(matches!(
        s.on_message(WM_CLIPBOARDUPDATE, 0, 0, url("https://example.com/f")),
        Action::Prompt { .. }
    ));
    assert_eq!(NIN_BALLOONUSERCLICK, 0x0405);
    match s.on_message(WM_TRAY_ICON, 0, 0x0405, None) {
        Action::Dispatch { url } => assert_eq!(url, "https://example.com/f"),
        _ => panic!("expected a dispatch"),
    }
    assert!(s.pending_url.is_none());
    assert_eq!(s.last_url, url("https://example.com/f"));
    assert!(is_nothing(&s.on_message(WM_TRAY_ICON, 0, 0x0405, None)));
}
