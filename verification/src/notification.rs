//! Desktop notifications: the data of a notification, the messages that pass
//! between the notification service and the bar, and the rule by which the
//! service numbers the notifications it is handed.

use vstd::prelude::*;

verus! {

/// Why a notification was closed.
#[derive(Clone, Copy, Debug, PartialEq, Eq, Structural)]
pub enum CloseReason {
    Expired,
    Dismissed,
    Forced,
}

impl CloseReason {
    /// The number that stands for the reason on the message bus.
    pub open spec fn number(self) -> u32 {
        match self {
            CloseReason::Expired => 1,
            CloseReason::Dismissed => 2,
            CloseReason::Forced => 3,
        }
    }

    /// The number that stands for the reason on the message bus.
    pub fn code(self) -> (n: u32)
        ensures
            n == self.number(),
    {
        match self {
            CloseReason::Expired => 1,
            CloseReason::Dismissed => 2,
            CloseReason::Forced => 3,
        }
    }
}

/// Something the user can do about a notification: a key that names the
/// action and the title it is shown under.
#[derive(Clone, Debug, PartialEq, Eq)]
pub struct Action {
    pub key: String,
    pub title: String,
}

impl View for Action {
    type V = (Seq<char>, Seq<char>);

    open spec fn view(&self) -> (Seq<char>, Seq<char>) {
        (self.key@, self.title@)
    }
}

/// The texts of a list of strings.
pub open spec fn texts(strings: Seq<String>) -> Seq<Seq<char>> {
    Seq::new(strings.len(), |i: int| strings[i]@)
}

/// The actions that a flat list of strings spells: keys and titles alternate,
/// the key first. A last string without a partner is dropped.
pub open spec fn paired(flat: Seq<Seq<char>>) -> Seq<(Seq<char>, Seq<char>)> {
    Seq::new((flat.len() / 2) as nat, |i: int| (flat[2 * i], flat[2 * i + 1]))
}

/// The views of a list of actions.
pub open spec fn action_views(actions: Seq<Action>) -> Seq<(Seq<char>, Seq<char>)> {
    Seq::new(actions.len(), |i: int| actions[i]@)
}

impl Action {
    fn new(key: String, title: String) -> (action: Self)
        ensures
            action@ == (key@, title@),
    {
        Action { key, title }
    }

    /// Reads the actions out of the flat list in which the message bus hands
    /// them over.
    pub fn parse(actions: Vec<String>) -> (parsed: Vec<Action>)
        ensures
            action_views(parsed@) == paired(texts(actions@)),
    {
        let mut parsed: Vec<Action> = Vec::new();
        let mut i: usize = 0;
        while i < actions.len() && i + 1 < actions.len()
            invariant
                i % 2 == 0,
                i <= actions.len(),
                parsed.len() == i / 2,
                forall|j: int|
                    0 <= j < parsed.len() ==> #[trigger] parsed@[j]@ == (
                        actions@[2 * j]@,
                        actions@[2 * j + 1]@,
                    ),
            decreases actions.len() - i,
        {
            let key = actions[i].clone();
            let title = actions[i + 1].clone();
            parsed.push(Action::new(key, title));
            i += 2;
        }
        proof {
            let flat = texts(actions@);
            assert(parsed.len() == actions.len() / 2);
            assert forall|j: int| 0 <= j < parsed@.len() implies action_views(parsed@)[j] == paired(
                flat,
            )[j] by {
                assert(flat[2 * j] == actions@[2 * j]@);
                assert(flat[2 * j + 1] == actions@[2 * j + 1]@);
            }
            assert(action_views(parsed@) =~= paired(flat));
        }
        parsed
    }
}

/// A notification as the service received it.
#[derive(Clone, Debug, PartialEq, Eq)]
pub struct Notification {
    pub id: u32,
    pub app_name: String,
    pub app_icon: String,
    pub summary: String,
    pub body: String,
    pub actions: Vec<Action>,
    pub expiry: Option<u32>,
}

/// A notification, with its texts as sequences of characters.
pub struct NotificationView {
    pub id: u32,
    pub app_name: Seq<char>,
    pub app_icon: Seq<char>,
    pub summary: Seq<char>,
    pub body: Seq<char>,
    pub actions: Seq<(Seq<char>, Seq<char>)>,
    pub expiry: Option<u32>,
}

impl View for Notification {
    type V = NotificationView;

    open spec fn view(&self) -> NotificationView {
        NotificationView {
            id: self.id,
            app_name: self.app_name@,
            app_icon: self.app_icon@,
            summary: self.summary@,
            body: self.body@,
            actions: action_views(self.actions@),
            expiry: self.expiry,
        }
    }
}

/// What the notification service tells the bar.
#[derive(Clone, Debug, PartialEq, Eq)]
pub enum UiMessage {
    /// A notification arrived.
    New(Notification),
    /// The notification with this number was closed.
    Close(u32),
    /// The notification with this number ran out of time.
    Timeout(u32),
    /// The action with this key was chosen on the notification with this number.
    Action(u32, String),
}

/// What the bar tells the message bus.
#[derive(Clone, Debug, PartialEq, Eq)]
pub enum DbusMessage {
    /// The notification with this number was closed, for this reason.
    Closed(u32, CloseReason),
    /// The action with this key was invoked on the notification with this number.
    Action(u32, String),
}

impl DbusMessage {
    /// The name of the signal that carries the message.
    pub open spec fn signal(&self) -> Seq<char> {
        match self {
            DbusMessage::Action(_, _) => "ActionInvoked"@,
            DbusMessage::Closed(_, _) => "NotificationClosed"@,
        }
    }

    /// The name of the signal that carries the message.
    pub fn signal_name(&self) -> (name: &'static str)
        ensures
            name@ == self.signal(),
    {
        match self {
            DbusMessage::Action(_, _) => "ActionInvoked",
            DbusMessage::Closed(_, _) => "NotificationClosed",
        }
    }

    /// The number of the notification that the message is about.
    pub fn id(&self) -> (id: u32)
        ensures
            id == match self {
                DbusMessage::Action(id, _) => *id,
                DbusMessage::Closed(id, _) => *id,
            },
    {
        match self {
            DbusMessage::Action(id, _) => *id,
            DbusMessage::Closed(id, _) => *id,
        }
    }
}

/// The model behind the widget that shows one notification.
pub struct NotificationWidget {
    notification: Notification,
}

impl NotificationWidget {
    /// The notification that the widget shows.
    pub closed spec fn shown(&self) -> Notification {
        self.notification
    }

    /// A widget for `init`.
    pub fn init(init: Notification) -> (widget: Self)
        ensures
            widget.shown() == init,
    {
        NotificationWidget { notification: init }
    }

    /// The notification that the widget shows.
    pub fn notification(&self) -> (notification: &Notification)
        ensures
            *notification == self.shown(),
    {
        &self.notification
    }
}

/// The notification service: it numbers the notifications it is handed.
///
/// Numbers start at one; zero never names a notification. A number that was
/// given back is used again before a new one is taken.
pub struct NotificationDaemon {
    ids: Vec<u32>,
    counter: u32,
}

/// What the service decided about one notification.
pub struct Notified {
    /// The number of the notification, which is returned to its sender.
    pub id: u32,
    /// The message for the bar.
    pub message: UiMessage,
    /// After how many milliseconds the notification times out, if ever. The
    /// bar is then to be told `UiMessage::Timeout` with the same number.
    pub timeout: Option<u64>,
}

/// The number that the service gives to a notification.
pub open spec fn assigned_id(free: Seq<u32>, counter: u32, replaces_id: u32) -> u32 {
    if replaces_id != 0 {
        replaces_id
    } else if free.len() > 0 {
        free.last()
    } else {
        counter
    }
}

/// How long a notification stays, as the service records it: the time asked
/// for, in milliseconds, unless it is negative.
pub open spec fn expiry_of(expire_timeout: i32) -> Option<u32> {
    if expire_timeout >= 0 {
        Some(expire_timeout as u32)
    } else {
        None
    }
}

impl NotificationDaemon {
    /// The numbers that were given back and can be used again, the next one
    /// last.
    pub closed spec fn free(&self) -> Seq<u32> {
        self.ids@
    }

    /// The next number that was never used.
    pub closed spec fn counter(&self) -> u32 {
        self.counter
    }

    /// A service that has numbered nothing yet.
    pub fn new() -> (daemon: Self)
        ensures
            daemon.free() == Seq::<u32>::empty(),
            daemon.counter() == 1,
    {
        NotificationDaemon { ids: Vec::new(), counter: 1 }
    }

    /// Takes in one notification.
    ///
    /// A notification that replaces another keeps the number of that other.
    /// Any other gets a number that was given back, or else the next unused one;
    /// the count of unused numbers wraps round at the end of its range. A
    /// timeout is due only for a positive `expire_timeout`.
    pub fn notify(
        &mut self,
        app_name: &str,
        replaces_id: u32,
        app_icon: &str,
        summary: &str,
        body: &str,
        actions: Vec<String>,
        expire_timeout: i32,
    ) -> (notified: Notified)
        ensures
            notified.id == assigned_id(old(self).free(), old(self).counter(), replaces_id),
            final(self).free() == if replaces_id == 0 && old(self).free().len() > 0 {
                old(self).free().drop_last()
            } else {
                old(self).free()
            },
            final(self).counter() == if replaces_id == 0 && old(self).free().len() == 0 {
                if old(self).counter() == u32::MAX {
                    0u32
                } else {
                    (old(self).counter() + 1) as u32
                }
            } else {
                old(self).counter()
            },
            notified.message matches UiMessage::New(notification) && notification@
                == (NotificationView {
                id: notified.id,
                app_name: app_name@,
                app_icon: app_icon@,
                summary: summary@,
                body: body@,
                actions: paired(texts(actions@)),
                expiry: expiry_of(expire_timeout),
            }),
            notified.timeout == if expire_timeout > 0 {
                Some(expire_timeout as u64)
            } else {
                None
            },
    {
        let id = if replaces_id == 0 {
            match self.ids.pop() {
                Some(next) => next,
                None => {
                    let next = self.counter;
                    self.counter = if next == u32::MAX {
                        0
                    } else {
                        next + 1
                    };
                    next
                },
            }
        } else {
            replaces_id
        };
        let expiry = if expire_timeout >= 0 {
            Some(expire_timeout as u32)
        } else {
            None
        };
        let notification = Notification {
            id,
            app_name: app_name.to_owned(),
            app_icon: app_icon.to_owned(),
            summary: summary.to_owned(),
            body: body.to_owned(),
            actions: Action::parse(actions),
            expiry,
        };
        let timeout = if expire_timeout > 0 {
            Some(expire_timeout as u64)
        } else {
            None
        };
        Notified { id, message: UiMessage::New(notification), timeout }
    }

    /// What the service can do, as it tells its clients.
    pub fn get_capabilities(&self) -> (capabilities: Vec<&'static str>)
        ensures
            capabilities@.len() == 2,
            capabilities@[0]@ == "body"@,
            capabilities@[1]@ == "actions"@,
    {
        let mut capabilities: Vec<&'static str> = Vec::new();
        capabilities.push("body");
        capabilities.push("actions");
        capabilities
    }

    /// Name, vendor, version and specification version of the service.
    pub fn get_server_information(&self) -> (information: (String, String, String, String))
        ensures
            information.0@ == "Gnyprland"@,
            information.1@ == "Angad"@,
            information.2@ == "1.0"@,
            information.3@ == "1.2"@,
    {
        ("Gnyprland".to_owned(), "Angad".to_owned(), "1.0".to_owned(), "1.2".to_owned())
    }
}

} // verus!
