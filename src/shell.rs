//! The lifecycle controller: how the application reacts to each event of its
//! run loop. The caller performs the returned reaction (showing, creating or
//! hiding the main window, notifying the front end) and reports back what the
//! outside world did.

use crate::link::{resolve_all, resolved_paths, OpenUrl};
use crate::store::OpenedFiles;
use vstd::prelude::*;

verus! {

/// Where the single main window stands.
#[derive(Clone, Copy, Debug, PartialEq, Eq, Structural)]
pub enum WindowState {
    /// Not created yet.
    Absent,
    /// Created and hidden, its content kept for the next show.
    Hidden,
    /// Shown and focused.
    Visible,
}

/// What the caller must do to the main window.
#[derive(Clone, Copy, Debug, PartialEq, Eq, Structural)]
pub enum WindowCommand {
    /// Leave it as it is.
    Keep,
    /// Build it hidden, raise it above other applications, show it, focus it
    /// and make its close button hide it.
    Create,
    /// Show the existing window, raise it above other applications and focus it.
    Show,
    /// Hide it instead of closing it.
    Hide,
}

/// An event of the application's run loop.
pub enum ShellEvent {
    /// URLs handed over at process launch.
    Launched(Vec<OpenUrl>),
    /// URLs that the operating system asks the running application to open.
    Opened(Vec<OpenUrl>),
    /// Initial setup is done.
    Ready,
    /// The application is about to exit.
    ExitRequested,
    /// The close button of the main window was pressed.
    CloseRequested,
    /// Building the main window failed.
    CreateFailed,
    /// Any other event.
    Other,
}

/// What the caller must do in answer to one event.
pub struct Reaction {
    /// Keep the process running instead of exiting.
    pub prevent_exit: bool,
    /// Suppress the default close of the window.
    pub prevent_close: bool,
    /// What to do to the main window.
    pub window: WindowCommand,
    /// Payloads of the `file-opened` notifications to send, in order, once
    /// the window is up.
    pub notify: Vec<String>,
}

/// The state the controller keeps between events.
pub struct Shell {
    /// Files asked for and not yet cleared by the front end.
    pub files: OpenedFiles,
    /// The main window's state as last reported.
    pub window: WindowState,
    /// The application's own URL scheme.
    pub scheme: String,
}

/// How to bring the main window up from state `w`.
pub open spec fn presentation(w: WindowState) -> WindowCommand {
    match w {
        WindowState::Absent => WindowCommand::Create,
        _ => WindowCommand::Show,
    }
}

/// The paths that event `e` adds to the opened-file list.
pub open spec fn stored_paths(e: ShellEvent, custom: Seq<char>) -> Seq<String> {
    match e {
        ShellEvent::Launched(urls) => resolved_paths(urls@, custom),
        ShellEvent::Opened(urls) => resolved_paths(urls@, custom),
        _ => Seq::empty(),
    }
}

/// The paths that event `e` notifies the front end of, in order.
pub open spec fn notified_paths(e: ShellEvent, custom: Seq<char>) -> Seq<String> {
    match e {
        ShellEvent::Opened(urls) => resolved_paths(urls@, custom),
        _ => Seq::empty(),
    }
}

/// What event `e` asks of the main window when it is in state `w`.
pub open spec fn window_command(w: WindowState, e: ShellEvent, custom: Seq<char>) -> WindowCommand {
    match e {
        ShellEvent::Opened(urls) => if resolved_paths(urls@, custom).len() > 0 {
            presentation(w)
        } else {
            WindowCommand::Keep
        },
        ShellEvent::CloseRequested => if w is Absent {
            WindowCommand::Keep
        } else {
            WindowCommand::Hide
        },
        _ => WindowCommand::Keep,
    }
}

/// The main window's state after event `e` from state `w`.
pub open spec fn window_after(w: WindowState, e: ShellEvent, custom: Seq<char>) -> WindowState {
    match e {
        ShellEvent::Opened(urls) => if resolved_paths(urls@, custom).len() > 0 {
            WindowState::Visible
        } else {
            w
        },
        ShellEvent::CloseRequested => if w is Absent {
            WindowState::Absent
        } else {
            WindowState::Hidden
        },
        ShellEvent::CreateFailed => WindowState::Absent,
        _ => w,
    }
}

/// Decides how to bring the main window up: build it when it does not
/// exist, else show the existing one.
pub fn open_window(window: WindowState) -> (r: WindowCommand)
    ensures
        r == presentation(window),
{
    match window {
        WindowState::Absent => WindowCommand::Create,
        _ => WindowCommand::Show,
    }
}

impl Reaction {
    /// A reaction that asks for nothing.
    pub fn none() -> (r: Reaction)
        ensures
            !r.prevent_exit,
            !r.prevent_close,
            r.window == WindowCommand::Keep,
            r.notify@ == Seq::<String>::empty(),
    {
        Reaction {
            prevent_exit: false,
            prevent_close: false,
            window: WindowCommand::Keep,
            notify: Vec::new(),
        }
    }
}

impl Shell {
    /// A controller with no opened files and no window yet, for an
    /// application whose own URL scheme is `scheme`.
    pub fn new(scheme: String) -> (r: Shell)
        ensures
            r.files@ == Seq::<String>::empty(),
            r.window == WindowState::Absent,
            r.scheme == scheme,
    {
        Shell { files: OpenedFiles::new(), window: WindowState::Absent, scheme }
    }

    /// Handles an open request: stores the paths that `urls` resolve to,
    /// brings the window up and hands back one notification per path, in
    /// order. When no URL resolves, nothing happens.
    pub fn process_urls(&mut self, urls: &Vec<OpenUrl>) -> (r: Reaction)
        ensures
            final(self).files@ == old(self).files@ + resolved_paths(urls@, old(self).scheme@),
            r.notify@ == resolved_paths(urls@, old(self).scheme@),
            r.window == (if resolved_paths(urls@, old(self).scheme@).len() > 0 {
                presentation(old(self).window)
            } else {
                WindowCommand::Keep
            }),
            final(self).window == (if resolved_paths(urls@, old(self).scheme@).len() > 0 {
                WindowState::Visible
            } else {
                old(self).window
            }),
            final(self).scheme == old(self).scheme,
            !r.prevent_exit,
            !r.prevent_close,
    {
        let paths = resolve_all(urls, self.scheme.as_str());
        if paths.len() == 0 {
            return Reaction::none();
        }
        self.files.append_all(&paths);
        let command = open_window(self.window);
        self.window = WindowState::Visible;
        Reaction { prevent_exit: false, prevent_close: false, window: command, notify: paths }
    }

    /// Reacts to one event of the run loop.
    pub fn handle(&mut self, event: ShellEvent) -> (r: Reaction)
        ensures
            final(self).files@ == old(self).files@ + stored_paths(event, old(self).scheme@),
            final(self).window == window_after(old(self).window, event, old(self).scheme@),
            final(self).scheme == old(self).scheme,
            r.window == window_command(old(self).window, event, old(self).scheme@),
            r.notify@ == notified_paths(event, old(self).scheme@),
            r.prevent_exit == (event is ExitRequested),
            r.prevent_close == (event is CloseRequested),
    {
        match event {
            ShellEvent::Launched(urls) => {
                let paths = resolve_all(&urls, self.scheme.as_str());
                self.files.append_all(&paths);
                Reaction::none()
            },
            ShellEvent::Opened(urls) => self.process_urls(&urls),
            ShellEvent::ExitRequested => {
                let mut r = Reaction::none();
                r.prevent_exit = true;
                r
            },
            ShellEvent::CloseRequested => {
                let mut r = Reaction::none();
                r.prevent_close = true;
                if self.window != WindowState::Absent {
                    r.window = WindowCommand::Hide;
                    self.window = WindowState::Hidden;
                }
                r
            },
            ShellEvent::CreateFailed => {
                self.window = WindowState::Absent;
                Reaction::none()
            },
            _ => Reaction::none(),
        }
    }
}

/// One open request notifies the front end once per resolved path, with that
/// path as payload, in the order of the URLs, and those are exactly the paths
/// it stores.
pub proof fn one_notification_per_resolved_path(urls: Vec<OpenUrl>, custom: Seq<char>)
    ensures
        notified_paths(ShellEvent::Opened(urls), custom).len() == resolved_paths(urls@, custom).len(),
        forall|i: int|
            0 <= i < resolved_paths(urls@, custom).len() ==> #[trigger] notified_paths(
                ShellEvent::Opened(urls),
                custom,
            )[i] == resolved_paths(urls@, custom)[i],
        notified_paths(ShellEvent::Opened(urls), custom) == stored_paths(
            ShellEvent::Opened(urls),
            custom,
        ),
{
}

/// A close request on an existing main window hides it instead of closing
/// it, keeps the process running, leaves the opened-file list as it is and
/// notifies nobody.
pub proof fn close_request_hides_window(w: WindowState, custom: Seq<char>)
    requires
        !(w is Absent),
    ensures
        window_command(w, ShellEvent::CloseRequested, custom) == WindowCommand::Hide,
        window_after(w, ShellEvent::CloseRequested, custom) == WindowState::Hidden,
        stored_paths(ShellEvent::CloseRequested, custom) == Seq::<String>::empty(),
        notified_paths(ShellEvent::CloseRequested, custom) == Seq::<String>::empty(),
{
}

/// An exit request leaves the main window, the opened-file list and the
/// front end as they are.
pub proof fn exit_request_changes_nothing(w: WindowState, custom: Seq<char>)
    ensures
        window_command(w, ShellEvent::ExitRequested, custom) == WindowCommand::Keep,
        window_after(w, ShellEvent::ExitRequested, custom) == w,
        stored_paths(ShellEvent::ExitRequested, custom) == Seq::<String>::empty(),
        notified_paths(ShellEvent::ExitRequested, custom) == Seq::<String>::empty(),
{
}

/// A window hidden by its close button is shown again, not built anew, by the
/// next open request that resolves to at least one path.
pub proof fn hidden_window_is_shown_again(
    w: WindowState,
    urls: Vec<OpenUrl>,
    custom: Seq<char>,
)
    requires
        !(w is Absent),
        resolved_paths(urls@, custom).len() > 0,
    ensures
        window_command(
            window_after(w, ShellEvent::CloseRequested, custom),
            ShellEvent::Opened(urls),
            custom,
        ) == WindowCommand::Show,
        window_after(
            window_after(w, ShellEvent::CloseRequested, custom),
            ShellEvent::Opened(urls),
            custom,
        ) == WindowState::Visible,
{
}

} // verus!
