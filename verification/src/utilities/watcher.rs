use crate::configuration::authentication::Credentials;
use crate::vault::client::{VaultError, VaultErrorView};
use vstd::prelude::*;

verus! {

/// How a file was opened, or had been when it was closed.
#[derive(Debug, Clone, Copy, PartialEq, Eq, Structural)]
pub enum AccessMode {
    Any,
    Execute,
    Read,
    Write,
    Other,
}

/// What was done to a file that was accessed.
#[derive(Debug, Clone, Copy, PartialEq, Eq, Structural)]
pub enum AccessKind {
    Any,
    Read,
    Open(AccessMode),
    Close(AccessMode),
    Other,
}

/// What happened to a watched file.
#[derive(Debug, Clone, Copy, PartialEq, Eq, Structural)]
pub enum EventKind {
    Any,
    Access(AccessKind),
    Create,
    Modify,
    Remove,
    Other,
}

impl EventKind {
    /// Whether the event says that a file was closed after it had been
    /// written: the one event that ends a rewriting of the file.
    pub open spec fn is_write_complete(self) -> bool {
        self == EventKind::Access(AccessKind::Close(AccessMode::Write))
    }

    /// Tells whether the event says that a file was closed after it had
    /// been written.
    pub fn write_complete(&self) -> (result: bool)
        ensures
            result == self.is_write_complete(),
    {
        match self {
            EventKind::Access(AccessKind::Close(AccessMode::Write)) => true,
            _ => false,
        }
    }
}

/// One notification of the file system: what happened, and to which files.
#[derive(Debug, PartialEq)]
pub struct Event {
    pub kind: EventKind,
    pub paths: Vec<String>,
}

/// The mathematical model of [`Notification`].
pub enum NotificationView {
    Event(EventKind),
    Error(Seq<char>),
    Closed,
}

/// What the subscription to the file system hands over: an event, a
/// failure of the subscription itself, or its end.
#[derive(Debug, PartialEq)]
pub enum Notification {
    Event(Event),
    Error(String),
    Closed,
}

impl View for Notification {
    type V = NotificationView;

    open spec fn view(&self) -> NotificationView {
        match self {
            Notification::Event(event) => NotificationView::Event(event.kind),
            Notification::Error(details) => NotificationView::Error(details@),
            Notification::Closed => NotificationView::Closed,
        }
    }
}

/// The mathematical model of [`Action`].
pub enum ActionView {
    Wait,
    Refresh,
    Finish,
    Fail(Seq<char>),
}

/// What the watcher asks to be done next.
#[derive(Debug, PartialEq)]
pub enum Action {
    /// Wait for the next notification.
    Wait,
    /// Authenticate again, with exclusive access to the client, and tell
    /// the watcher how it went.
    Refresh,
    /// End the watch without a failure.
    Finish,
    /// End the watch, and with it the process, with this failure.
    Fail(String),
}

impl View for Action {
    type V = ActionView;

    open spec fn view(&self) -> ActionView {
        match self {
            Action::Wait => ActionView::Wait,
            Action::Refresh => ActionView::Refresh,
            Action::Finish => ActionView::Finish,
            Action::Fail(details) => ActionView::Fail(details@),
        }
    }
}

/// The mathematical model of [`Watcher`].
pub enum WatcherView {
    Idle,
    Watching(Seq<char>),
    Stopped,
}

impl WatcherView {
    /// The watcher for a path to watch, if there is one.
    pub open spec fn watch(path_to_watch: Option<Seq<char>>) -> WatcherView {
        match path_to_watch {
            Some(path) => WatcherView::Watching(path),
            None => WatcherView::Idle,
        }
    }

    /// What the watcher asks for first: to wait for a notification where
    /// it watches a file, and to end at once where it does not.
    pub open spec fn start(self) -> ActionView {
        match self {
            WatcherView::Watching(_) => ActionView::Wait,
            _ => ActionView::Finish,
        }
    }

    /// What the watcher asks for on a notification. While it watches, a
    /// file closed after writing asks for a refresh, and every other event
    /// is passed over; a failure of the subscription is fatal; the end of
    /// the subscription ends the watch. A watcher that does not watch asks
    /// for nothing but to end.
    pub open spec fn react(self, notification: NotificationView) -> ActionView {
        match self {
            WatcherView::Watching(_) => match notification {
                NotificationView::Event(kind) => if kind.is_write_complete() {
                    ActionView::Refresh
                } else {
                    ActionView::Wait
                },
                NotificationView::Error(details) => ActionView::Fail(details),
                NotificationView::Closed => ActionView::Finish,
            },
            _ => ActionView::Finish,
        }
    }

    /// What the watcher asks for after a refresh: to wait for the next
    /// notification where the refresh succeeded, and to fail with its
    /// message where it did not.
    pub open spec fn refreshed(self, outcome: Result<(), VaultErrorView>) -> ActionView {
        match self {
            WatcherView::Watching(_) => match outcome {
                Ok(_) => ActionView::Wait,
                Err(error) => ActionView::Fail(error.message()),
            },
            _ => ActionView::Finish,
        }
    }

    /// The watcher after it has asked for `action`: it goes on as it is
    /// while it waits or refreshes, and has stopped once it ends.
    pub open spec fn after(self, action: ActionView) -> WatcherView {
        match action {
            ActionView::Wait => self,
            ActionView::Refresh => self,
            _ => WatcherView::Stopped,
        }
    }
}

/// The watch on the file that backs the credential: idle where there is
/// no such file, else watching it until the watch ends.
#[derive(Debug, PartialEq)]
pub enum Watcher {
    Idle,
    Watching(String),
    Stopped,
}

impl View for Watcher {
    type V = WatcherView;

    open spec fn view(&self) -> WatcherView {
        match self {
            Watcher::Idle => WatcherView::Idle,
            Watcher::Watching(path) => WatcherView::Watching(path@),
            Watcher::Stopped => WatcherView::Stopped,
        }
    }
}

/// Without a file to watch the watcher does no work: it ends at once and
/// without a failure, and asks for no refresh whatever it is told.
pub proof fn lemma_idle_watcher_does_nothing(
    notification: NotificationView,
    outcome: Result<(), VaultErrorView>,
)
    ensures
        WatcherView::watch(None).start() == ActionView::Finish,
        WatcherView::watch(None).react(notification) == ActionView::Finish,
        WatcherView::watch(None).refreshed(outcome) == ActionView::Finish,
{
}

/// A watcher asks for a refresh on one event alone, a file closed after
/// writing, and then on each such event anew: nothing is coalesced, and
/// the watcher goes on watching the same path.
pub proof fn lemma_refresh_on_every_completed_write(path: Seq<char>, kind: EventKind)
    ensures
        WatcherView::Watching(path).react(NotificationView::Event(kind)) == ActionView::Refresh
            <==> kind == EventKind::Access(AccessKind::Close(AccessMode::Write)),
        WatcherView::Watching(path).after(
            WatcherView::Watching(path).react(NotificationView::Event(kind)),
        ) == WatcherView::Watching(path),
{
}

/// A watch ends only on the end or a failure of its subscription, or on a
/// refresh that failed; and once it has ended it stays so.
pub proof fn lemma_watch_ends_for_good(watcher: WatcherView, action: ActionView, later: ActionView)
    requires
        action is Finish || action is Fail,
    ensures
        watcher.after(action) == WatcherView::Stopped,
        watcher.after(action).after(later) == WatcherView::Stopped,
        watcher.after(action).start() == ActionView::Finish,
{
}

/// What can take in the outcome of an authentication: something that
/// holds a session with the backend.
pub trait Refresh {
    /// The session token that is held, where one is.
    open spec fn session(&self) -> Option<Seq<char>> {
        arbitrary()
    }

    /// Takes in the outcome of an attempt to authenticate. A token becomes
    /// the session token. A failure leaves the session as it was, and is
    /// handed back.
    fn refresh_token(&mut self, outcome: Result<String, VaultError>) -> (result: Result<
        (),
        VaultError,
    >)
        ensures
            match outcome {
                Ok(token) => result is Ok && final(self).session() == Some(token@),
                Err(error) => {
                    &&& result is Err
                    &&& result->Err_0@ == error@
                    &&& final(self).session() == old(self).session()
                },
            },
    ;
}

/// Returns the watcher for `path_to_watch`: one that watches the path, or
/// an idle one where there is no path.
pub fn watch(path_to_watch: Option<String>) -> (result: Watcher)
    ensures
        result@ == WatcherView::watch(path_to_watch.deep_view()),
{
    match path_to_watch {
        Some(path) => Watcher::Watching(path),
        None => Watcher::Idle,
    }
}

/// Returns the watcher for `credentials`: it watches the file that holds
/// the secret of the mechanism, and is idle where the secret is inline or
/// the mechanism has none.
pub fn watch_credentials(credentials: &Credentials) -> (result: Watcher)
    ensures
        result@ == WatcherView::watch(credentials@.rotation_path()),
{
    watch(credentials.rotation_path())
}

impl Watcher {
    /// Returns the path to subscribe to, where the watcher watches one.
    pub fn path(&self) -> (result: Option<String>)
        ensures
            result.deep_view() == (match self@ {
                WatcherView::Watching(path) => Some(path),
                _ => None,
            }),
    {
        match self {
            Watcher::Watching(path) => Some(path.clone()),
            _ => None,
        }
    }

    /// Moves the watcher on after it has asked for `action`.
    fn settle(&mut self, action: &Action)
        ensures
            final(self)@ == old(self)@.after(action@),
    {
        match action {
            Action::Wait => {},
            Action::Refresh => {},
            _ => {
                *self = Watcher::Stopped;
            },
        }
    }

    /// Says what to do first: see [`WatcherView::start`].
    pub fn start(&mut self) -> (result: Action)
        ensures
            result@ == old(self)@.start(),
            final(self)@ == old(self)@.after(result@),
    {
        let action = match self {
            Watcher::Watching(_) => Action::Wait,
            _ => Action::Finish,
        };
        self.settle(&action);
        action
    }

    /// Says what to do on a notification: see [`WatcherView::react`].
    pub fn react(&mut self, notification: &Notification) -> (result: Action)
        ensures
            result@ == old(self)@.react(notification@),
            final(self)@ == old(self)@.after(result@),
    {
        let action = match self {
            Watcher::Watching(_) => match notification {
                Notification::Event(event) => if event.kind.write_complete() {
                    Action::Refresh
                } else {
                    Action::Wait
                },
                Notification::Error(details) => Action::Fail(details.clone()),
                Notification::Closed => Action::Finish,
            },
            _ => Action::Finish,
        };
        self.settle(&action);
        action
    }

    /// Carries out the refresh that the watcher has asked for: hands the
    /// outcome of the authentication to `client`, and says what to do
    /// next. Where the authentication succeeded, `client` holds the new
    /// session and the watch goes on. Where it failed, `client` holds the
    /// session that it held, and the watch fails with the failure's message.
    pub fn refresh<T: Refresh>(&mut self, client: &mut T, outcome: Result<String, VaultError>) -> (result:
        Action)
        ensures
            result@ == old(self)@.refreshed(
                match outcome {
                    Ok(_) => Ok(()),
                    Err(error) => Err(error@),
                },
            ),
            final(self)@ == old(self)@.after(result@),
            final(client).session() == (match outcome {
                Ok(token) => Some(token@),
                Err(_) => old(client).session(),
            }),
    {
        let refreshed = client.refresh_token(outcome);
        self.refreshed(&refreshed)
    }

    /// Says what to do after a refresh that ended in `outcome`: see
    /// [`WatcherView::refreshed`].
    pub fn refreshed(&mut self, outcome: &Result<(), VaultError>) -> (result: Action)
        ensures
            result@ == old(self)@.refreshed(
                match outcome {
                    Ok(_) => Ok(()),
                    Err(error) => Err(error@),
                },
            ),
            final(self)@ == old(self)@.after(result@),
    {
        let action = match self {
            Watcher::Watching(_) => match outcome {
                Ok(_) => Action::Wait,
                Err(error) => Action::Fail(error.to_string()),
            },
            _ => Action::Finish,
        };
        self.settle(&action);
        action
    }
}

} // verus!
