//! The decisions of the tray window: what each window message does to the
//! watcher's state and which action the window then performs (show the menu,
//! prompt for a URL, queue a URL, quit, ...). The window procedure performs
//! the action; this module only decides.

use vstd::prelude::*;
use crate::clipboard::WM_CLIPBOARDUPDATE;
use crate::text::{truncate, truncate_spec};

verus! {

pub const WM_DESTROY: u32 = 0x0002;
pub const WM_CONTEXTMENU: u32 = 0x007B;
pub const WM_COMMAND: u32 = 0x0111;
pub const WM_LBUTTONDBLCLK: u32 = 0x0203;
pub const WM_RBUTTONUP: u32 = 0x0205;
pub const WM_USER: u32 = 0x0400;
pub const WM_APP: u32 = 0x8000;

/// Tray icon event sent when the user clicks a balloon notification.
pub const NIN_BALLOONUSERCLICK: u32 = WM_USER + 5;

/// Callback message of the notification-area icon.
pub const WM_TRAY_ICON: u32 = WM_APP + 1;
/// Reserved for URLs posted to the window; acknowledged and otherwise ignored.
pub const WM_CLIPBOARD_URL: u32 = WM_APP + 2;

pub const ID_TRAY_OPEN: u32 = 1001;
pub const ID_TRAY_LAST: u32 = 1002;
pub const ID_TRAY_TOGGLE_WATCH: u32 = 1003;
pub const ID_TRAY_QUIT: u32 = 1099;
pub const ID_CONFIRM_YES: u32 = 2001;

/// Characters of a URL shown in the confirmation balloon.
pub const PROMPT_URL_CHARS: usize = 80;

/// The watcher's state: whether clipboard changes are acted on, the URL
/// awaiting confirmation, and the most recent URL seen.
pub struct TrayState {
    pub watching: bool,
    pub pending_url: Option<String>,
    pub last_url: Option<String>,
}

/// `TrayState` with its strings taken as character sequences.
pub struct TrayModel {
    pub watching: bool,
    pub pending_url: Option<Seq<char>>,
    pub last_url: Option<Seq<char>>,
}

impl View for TrayState {
    type V = TrayModel;

    open spec fn view(&self) -> TrayModel {
        TrayModel {
            watching: self.watching,
            pending_url: self.pending_url.deep_view(),
            last_url: self.last_url.deep_view(),
        }
    }
}

/// What the window does after a message.
pub enum Action {
    /// Nothing further; the message is handled.
    Nothing,
    /// End the message loop (`PostQuitMessage(0)`).
    PostQuit,
    /// Pop up the tray menu; the watch item carries `toggle_label`.
    ShowMenu { toggle_label: String },
    /// Open the configured web UI.
    OpenWebUi,
    /// Ask whether to queue a URL, in a balloon with an action.
    Prompt { title: String, message: String },
    /// Show an informational balloon.
    Notify { title: String, message: String },
    /// Queue `url` with the remote-dl backend.
    Dispatch { url: String },
    /// Destroy the window, which ends the application.
    DestroyWindow,
    /// Pass the message to the default window procedure.
    DefaultProcedure,
}

/// `Action` with its strings taken as character sequences.
pub enum ActionModel {
    Nothing,
    PostQuit,
    ShowMenu { toggle_label: Seq<char> },
    OpenWebUi,
    Prompt { title: Seq<char>, message: Seq<char> },
    Notify { title: Seq<char>, message: Seq<char> },
    Dispatch { url: Seq<char> },
    DestroyWindow,
    DefaultProcedure,
}

impl View for Action {
    type V = ActionModel;

    open spec fn view(&self) -> ActionModel {
        match self {
            Action::Nothing => ActionModel::Nothing,
            Action::PostQuit => ActionModel::PostQuit,
            Action::ShowMenu { toggle_label } => ActionModel::ShowMenu { toggle_label: toggle_label@ },
            Action::OpenWebUi => ActionModel::OpenWebUi,
            Action::Prompt { title, message } => ActionModel::Prompt {
                title: title@,
                message: message@,
            },
            Action::Notify { title, message } => ActionModel::Notify {
                title: title@,
                message: message@,
            },
            Action::Dispatch { url } => ActionModel::Dispatch { url: url@ },
            Action::DestroyWindow => ActionModel::DestroyWindow,
            Action::DefaultProcedure => ActionModel::DefaultProcedure,
        }
    }
}

/// The state the window starts in: watching, nothing seen yet.
pub open spec fn initial_model() -> TrayModel {
    TrayModel { watching: true, pending_url: None, last_url: None }
}

/// The label of the menu item that pauses or resumes watching.
pub open spec fn toggle_label_spec(watching: bool) -> Seq<char> {
    if watching {
        "Pause clipboard watch"@
    } else {
        "Resume clipboard watch"@
    }
}

/// The balloon text after watching was switched to `watching`.
pub open spec fn watch_notice_spec(watching: bool) -> Seq<char> {
    if watching {
        "Watching clipboard."@
    } else {
        "Paused."@
    }
}

/// A notification-area icon event (the low word of the callback's
/// `lParam`): the context menu, the web UI on a double click, and, on a
/// click on the confirmation balloon, the same as the confirm command.
pub open spec fn tray_icon_step(s: TrayModel, event: u32) -> (TrayModel, ActionModel) {
    if event == WM_RBUTTONUP || event == WM_CONTEXTMENU {
        (s, ActionModel::ShowMenu { toggle_label: toggle_label_spec(s.watching) })
    } else if event == WM_LBUTTONDBLCLK {
        (s, ActionModel::OpenWebUi)
    } else if event == NIN_BALLOONUSERCLICK {
        command_step(s, ID_CONFIRM_YES)
    } else {
        (s, ActionModel::Nothing)
    }
}

/// A clipboard change that yielded `url` (or no URL): while watching, a URL
/// other than the last one seen becomes pending and last, and is offered in
/// a prompt; anything else changes nothing.
pub open spec fn clipboard_step(s: TrayModel, url: Option<Seq<char>>) -> (TrayModel, ActionModel) {
    match url {
        Some(u) => if s.watching && s.last_url != Some(u) {
            (
                TrayModel { watching: s.watching, pending_url: Some(u), last_url: Some(u) },
                ActionModel::Prompt {
                    title: "Send to remote-dl?"@,
                    message: truncate_spec(u, PROMPT_URL_CHARS as nat),
                },
            )
        } else {
            (s, ActionModel::Nothing)
        },
        None => (s, ActionModel::Nothing),
    }
}

/// A menu or balloon command (the low word of `WM_COMMAND`'s `wParam`).
pub open spec fn command_step(s: TrayModel, id: u32) -> (TrayModel, ActionModel) {
    if id == ID_TRAY_OPEN {
        (s, ActionModel::OpenWebUi)
    } else if id == ID_TRAY_LAST {
        (
            s,
            match s.last_url {
                Some(u) => ActionModel::Dispatch { url: u },
                None => ActionModel::Nothing,
            },
        )
    } else if id == ID_TRAY_TOGGLE_WATCH {
        (
            TrayModel { watching: !s.watching, pending_url: s.pending_url, last_url: s.last_url },
            ActionModel::Notify { title: "rdl-tray"@, message: watch_notice_spec(!s.watching) },
        )
    } else if id == ID_CONFIRM_YES {
        (
            TrayModel { watching: s.watching, pending_url: None, last_url: s.last_url },
            match s.pending_url {
                Some(u) => ActionModel::Dispatch { url: u },
                None => ActionModel::Nothing,
            },
        )
    } else if id == ID_TRAY_QUIT {
        (s, ActionModel::DestroyWindow)
    } else {
        (s, ActionModel::Nothing)
    }
}

/// A window message; `clipboard_url` is the URL read from the clipboard
/// for `WM_CLIPBOARDUPDATE` and is not looked at otherwise.
pub open spec fn message_step(
    s: TrayModel,
    msg: u32,
    wparam: usize,
    lparam: usize,
    clipboard_url: Option<Seq<char>>,
) -> (TrayModel, ActionModel) {
    if msg == WM_DESTROY {
        (s, ActionModel::PostQuit)
    } else if msg == WM_TRAY_ICON {
        tray_icon_step(s, (lparam % 0x10000) as u32)
    } else if msg == WM_CLIPBOARDUPDATE {
        clipboard_step(s, clipboard_url)
    } else if msg == WM_COMMAND {
        command_step(s, (wparam % 0x10000) as u32)
    } else if msg == WM_CLIPBOARD_URL {
        (s, ActionModel::Nothing)
    } else {
        (s, ActionModel::DefaultProcedure)
    }
}

/// The low 16 bits of a message parameter.
pub fn low_word(x: usize) -> (r: u32)
    ensures
        r == x % 0x10000,
{
    (x % 0x10000) as u32
}

impl TrayState {
    pub fn new() -> (r: Self)
        ensures
            r@ == initial_model(),
    {
        TrayState { watching: true, pending_url: None, last_url: None }
    }

    /// The label of the pause/resume item of the tray menu.
    pub fn toggle_label(&self) -> (r: String)
        ensures
            r@ == toggle_label_spec(self.watching),
    {
        if self.watching {
            String::from_str("Pause clipboard watch")
        } else {
            String::from_str("Resume clipboard watch")
        }
    }

    /// Handles an event of the notification-area icon.
    pub fn on_tray_icon(&mut self, event: u32) -> (r: Action)
        ensures
            (final(self)@, r@) == tray_icon_step(old(self)@, event),
            (event != 0x0205 && event != 0x007B && event != 0x0203 && event != 0x0405) ==> final(self)@ == old(self)@ && r@
                == ActionModel::Nothing,
    {
        if event == WM_RBUTTONUP || event == WM_CONTEXTMENU {
            Action::ShowMenu { toggle_label: self.toggle_label() }
        } else if event == WM_LBUTTONDBLCLK {
            Action::OpenWebUi
        } else if event == NIN_BALLOONUSERCLICK {
            self.on_command(ID_CONFIRM_YES)
        } else {
            Action::Nothing
        }
    }

    /// Handles a clipboard change, given the URL read from the clipboard.
    pub fn on_clipboard_url(&mut self, url: Option<String>) -> (r: Action)
        ensures
            (final(self)@, r@) == clipboard_step(old(self)@, url.deep_view()),
    {
        match url {
            Some(u) => {
                let repeated = match &self.last_url {
                    Some(last) => *last == u,
                    None => false,
                };
                if self.watching && !repeated {
                    let message = truncate(u.as_str(), PROMPT_URL_CHARS);
                    self.pending_url = Some(u.clone());
                    self.last_url = Some(u);
                    Action::Prompt { title: String::from_str("Send to remote-dl?"), message }
                } else {
                    Action::Nothing
                }
            },
            None => Action::Nothing,
        }
    }

    /// Handles a command of the tray menu or of the confirmation balloon.
    pub fn on_command(&mut self, id: u32) -> (r: Action)
        ensures
            (final(self)@, r@) == command_step(old(self)@, id),
            id == 1099 ==> final(self)@ == old(self)@ && r@ == ActionModel::DestroyWindow,
            (id != 1001 && id != 1002 && id != 1003 && id != 1099 && id != 2001) ==> final(self)@ == old(self)@ && r@ == ActionModel::Nothing,
    {
        if id == ID_TRAY_OPEN {
            Action::OpenWebUi
        } else if id == ID_TRAY_LAST {
            match &self.last_url {
                Some(u) => Action::Dispatch { url: u.clone() },
                None => Action::Nothing,
            }
        } else if id == ID_TRAY_TOGGLE_WATCH {
            self.watching = !self.watching;
            let message = if self.watching {
                String::from_str("Watching clipboard.")
            } else {
                String::from_str("Paused.")
            };
            Action::Notify { title: String::from_str("rdl-tray"), message }
        } else if id == ID_CONFIRM_YES {
            match self.pending_url.take() {
                Some(u) => Action::Dispatch { url: u },
                None => Action::Nothing,
            }
        } else if id == ID_TRAY_QUIT {
            Action::DestroyWindow
        } else {
            Action::Nothing
        }
    }

    /// Handles a window message. `clipboard_url` is what the clipboard held
    /// when `msg` is `WM_CLIPBOARDUPDATE`.
    pub fn on_message(
        &mut self,
        msg: u32,
        wparam: usize,
        lparam: usize,
        clipboard_url: Option<String>,
    ) -> (r: Action)
        ensures
            (final(self)@, r@) == message_step(
                old(self)@,
                msg,
                wparam,
                lparam,
                clipboard_url.deep_view(),
            ),
            msg == 0x0002 ==> final(self)@ == old(self)@ && r@ == ActionModel::PostQuit,
            (msg != 0x0002 && msg != 0x8001 && msg != 0x031D && msg != 0x0111 && msg != 0x8002) ==> final(self)@ == old(self)@ && r@
                == ActionModel::DefaultProcedure,
    {
        if msg == WM_DESTROY {
            Action::PostQuit
        } else if msg == WM_TRAY_ICON {
            self.on_tray_icon(low_word(lparam))
        } else if msg == WM_CLIPBOARDUPDATE {
            self.on_clipboard_url(clipboard_url)
        } else if msg == WM_COMMAND {
            self.on_command(low_word(wparam))
        } else if msg == WM_CLIPBOARD_URL {
            Action::Nothing
        } else {
            Action::DefaultProcedure
        }
    }
}


/// The pending URL, when there is one, is the last URL seen.
pub open spec fn pending_is_last(s: TrayModel) -> bool {
    s.pending_url is Some ==> s.pending_url == s.last_url
}

/// Pausing and resuming again restores the state exactly.
pub proof fn lemma_toggle_twice_restores(s: TrayModel)
    ensures
        command_step(command_step(s, ID_TRAY_TOGGLE_WATCH).0, ID_TRAY_TOGGLE_WATCH).0 == s,
{
}

/// Each toggle flips watching and says so: "Paused." when watching stops,
/// "Watching clipboard." when it resumes.
pub proof fn lemma_toggle_notice(s: TrayModel)
    ensures
        command_step(s, ID_TRAY_TOGGLE_WATCH).0.watching == !s.watching,
        command_step(s, ID_TRAY_TOGGLE_WATCH).1 == (ActionModel::Notify {
            title: "rdl-tray"@,
            message: if s.watching { "Paused."@ } else { "Watching clipboard."@ },
        }),
{
}

/// While paused, clipboard changes neither change the state nor prompt.
pub proof fn lemma_paused_ignores_clipboard(s: TrayModel, url: Option<Seq<char>>)
    requires
        !s.watching,
    ensures
        clipboard_step(s, url) == (s, ActionModel::Nothing),
{
}

/// Copying the same URL again does not prompt again.
pub proof fn lemma_repeated_url_ignored(s: TrayModel, url: Seq<char>)
    requires
        s.last_url == Some(url),
    ensures
        clipboard_step(s, Some(url)) == (s, ActionModel::Nothing),
{
}

/// A new URL while watching is prompted for, and confirming the prompt
/// queues exactly that URL and leaves nothing pending.
pub proof fn lemma_prompt_then_confirm(s: TrayModel, url: Seq<char>)
    requires
        s.watching,
        s.last_url != Some(url),
    ensures
        clipboard_step(s, Some(url)).1 == (ActionModel::Prompt {
            title: "Send to remote-dl?"@,
            message: truncate_spec(url, PROMPT_URL_CHARS as nat),
        }),
        command_step(clipboard_step(s, Some(url)).0, ID_CONFIRM_YES).1 == (ActionModel::Dispatch {
            url,
        }),
        command_step(clipboard_step(s, Some(url)).0, ID_CONFIRM_YES).0 == (TrayModel {
            watching: true,
            pending_url: None,
            last_url: Some(url),
        }),
{
}

/// A confirmation queues a pending URL at most once: a second confirmation
/// does nothing.
pub proof fn lemma_confirm_once(s: TrayModel)
    ensures
        command_step(command_step(s, ID_CONFIRM_YES).0, ID_CONFIRM_YES) == (
            command_step(s, ID_CONFIRM_YES).0,
            ActionModel::Nothing,
        ),
{
}

/// Sending the last URL again queues it and changes nothing.
pub proof fn lemma_send_last_keeps_state(s: TrayModel)
    ensures
        command_step(s, ID_TRAY_LAST) == (
            s,
            match s.last_url {
                Some(u) => ActionModel::Dispatch { url: u },
                None => ActionModel::Nothing,
            },
        ),
{
}

/// Only the pause/resume command changes whether the clipboard is watched.
pub proof fn lemma_only_toggle_changes_watching(
    s: TrayModel,
    msg: u32,
    wparam: usize,
    lparam: usize,
    url: Option<Seq<char>>,
)
    ensures
        message_step(s, msg, wparam, lparam, url).0.watching != s.watching <==> (msg == WM_COMMAND
            && wparam % 0x10000 == ID_TRAY_TOGGLE_WATCH),
{
}

/// Every message keeps the pending URL equal to the last URL seen, when
/// there is one pending; the start state satisfies this.
pub proof fn lemma_messages_keep_pending_is_last(
    s: TrayModel,
    msg: u32,
    wparam: usize,
    lparam: usize,
    url: Option<Seq<char>>,
)
    requires
        pending_is_last(s),
    ensures
        pending_is_last(initial_model()),
        pending_is_last(message_step(s, msg, wparam, lparam, url).0),
{
}

/// A click on a balloon is the confirm command: the pending URL, if any,
/// is queued and no longer pending.
pub proof fn lemma_balloon_click_is_confirm(
    s: TrayModel,
    wparam: usize,
    lparam: usize,
    clipboard_url: Option<Seq<char>>,
)
    requires
        lparam % 0x10000 == NIN_BALLOONUSERCLICK,
    ensures
        message_step(s, WM_TRAY_ICON, wparam, lparam, clipboard_url) == command_step(
            s,
            ID_CONFIRM_YES,
        ),
{
}

/// Clicking the "Send to remote-dl?" balloon of a new URL queues exactly
/// that URL and leaves nothing pending.
pub proof fn lemma_prompt_then_balloon_click(
    s: TrayModel,
    url: Seq<char>,
    wparam: usize,
    lparam: usize,
    clipboard_url: Option<Seq<char>>,
)
    requires
        s.watching,
        s.last_url != Some(url),
        lparam % 0x10000 == NIN_BALLOONUSERCLICK,
    ensures
        message_step(clipboard_step(s, Some(url)).0, WM_TRAY_ICON, wparam, lparam, clipboard_url)
            == (
            TrayModel { watching: true, pending_url: None, last_url: Some(url) },
            ActionModel::Dispatch { url },
        ),
{
}

/// The tray menu offers to pause while watching and to resume while paused.
pub proof fn lemma_menu_reflects_watching(s: TrayModel)
    ensures
        tray_icon_step(s, WM_RBUTTONUP) == (s, ActionModel::ShowMenu {
            toggle_label: if s.watching {
                "Pause clipboard watch"@
            } else {
                "Resume clipboard watch"@
            },
        }),
        tray_icon_step(s, WM_CONTEXTMENU) == tray_icon_step(s, WM_RBUTTONUP),
{
}


/// `WM_DESTROY` always ends the message loop and changes nothing, whatever
/// the state.
pub proof fn lemma_destroy_posts_quit(
    s: TrayModel,
    wparam: usize,
    lparam: usize,
    url: Option<Seq<char>>,
)
    ensures
        message_step(s, 0x0002, wparam, lparam, url) == (s, ActionModel::PostQuit),
{
}

/// The Quit command always destroys the window and changes nothing, paused
/// or watching; so does the Quit item chosen from the menu.
pub proof fn lemma_quit_destroys_window(
    s: TrayModel,
    wparam: usize,
    lparam: usize,
    url: Option<Seq<char>>,
)
    ensures
        command_step(s, 1099) == (s, ActionModel::DestroyWindow),
        wparam % 0x10000 == 1099 ==> message_step(s, 0x0111, wparam, lparam, url) == (
            s,
            ActionModel::DestroyWindow,
        ),
{
}

/// The web UI opens on the Open item and on a double click on the icon,
/// and nothing else changes.
pub proof fn lemma_open_web_ui(s: TrayModel)
    ensures
        command_step(s, 1001) == (s, ActionModel::OpenWebUi),
        tray_icon_step(s, 0x0203) == (s, ActionModel::OpenWebUi),
{
}

/// Tray-icon events other than the menu, double-click and balloon-click
/// ones do nothing: the state stays and no action follows.
pub proof fn lemma_other_tray_events_do_nothing(s: TrayModel, event: u32)
    requires
        (event != 0x0205 && event != 0x007B && event != 0x0203 && event != 0x0405),
    ensures
        tray_icon_step(s, event) == (s, ActionModel::Nothing),
{
}

/// Unknown command identifiers do nothing.
pub proof fn lemma_unknown_commands_do_nothing(s: TrayModel, id: u32)
    requires
        (id != 1001 && id != 1002 && id != 1003 && id != 1099 && id != 2001),
    ensures
        command_step(s, id) == (s, ActionModel::Nothing),
{
}

/// Messages the tray does not handle go to the default procedure without a
/// change of state; the reserved URL message is acknowledged and ignored.
pub proof fn lemma_message_routing(
    s: TrayModel,
    msg: u32,
    wparam: usize,
    lparam: usize,
    url: Option<Seq<char>>,
)
    ensures
        (msg != 0x0002 && msg != 0x8001 && msg != 0x031D && msg != 0x0111 && msg != 0x8002) ==> message_step(s, msg, wparam, lparam, url) == (
            s,
            ActionModel::DefaultProcedure,
        ),
        msg == 0x8002 ==> message_step(s, msg, wparam, lparam, url) == (s, ActionModel::Nothing),
        msg == 0x8001 ==> message_step(s, msg, wparam, lparam, url) == tray_icon_step(
            s,
            (lparam % 0x10000) as u32,
        ),
        msg == 0x0111 ==> message_step(s, msg, wparam, lparam, url) == command_step(
            s,
            (wparam % 0x10000) as u32,
        ),
        msg == 0x031D ==> message_step(s, msg, wparam, lparam, url) == clipboard_step(s, url),
{
}

/// A clipboard change without a URL does nothing.
pub proof fn lemma_no_url_does_nothing(s: TrayModel)
    ensures
        clipboard_step(s, None) == (s, ActionModel::Nothing),
{
}

/// While watching, a URL other than the last one seen becomes both the
/// pending and the last URL, watching stays on, and the prompt shows the
/// URL cut to 80 characters.
pub proof fn lemma_new_url_prompts(s: TrayModel, url: Seq<char>)
    requires
        s.watching,
        s.last_url != Some(url),
    ensures
        clipboard_step(s, Some(url)) == (
            TrayModel { watching: true, pending_url: Some(url), last_url: Some(url) },
            ActionModel::Prompt {
                title: "Send to remote-dl?"@,
                message: truncate_spec(url, 80),
            },
        ),
{
}

/// Confirming queues the pending URL, if there is one, and clears it;
/// watching and the last URL stay.
pub proof fn lemma_confirm_dispatches_pending(s: TrayModel)
    ensures
        command_step(s, 2001) == (
            TrayModel { watching: s.watching, pending_url: None, last_url: s.last_url },
            match s.pending_url {
                Some(u) => ActionModel::Dispatch { url: u },
                None => ActionModel::Nothing,
            },
        ),
{
}

/// Pausing or resuming flips watching and keeps the pending and last URLs.
pub proof fn lemma_toggle_keeps_urls(s: TrayModel)
    ensures
        command_step(s, 1003).0 == (TrayModel {
            watching: !s.watching,
            pending_url: s.pending_url,
            last_url: s.last_url,
        }),
{
}

} // verus!
