use gnyprland::notification::{
    Action, CloseReason, DbusMessage, Notification, NotificationDaemon, NotificationWidget,
    UiMessage,
};

fn strings(items: &[&str]) -> Vec<String> {
    items.iter().map(|s| s.to_string()).collect()
}

fn action(key: &str, title: &str) -> Action {
    Action { key: key.to_string(), title: title.to_string() }
}

#[test]
fn actions_come_in_pairs() {
    assert_eq!(Action::parse(Vec::new()), Vec::<Action>::new());
    assert_eq!(Action::parse(strings(&["default"])), Vec::<Action>::new());
    assert_eq!(Action::parse(strings(&["default", "Open"])), vec![action("default", "Open")]);
    assert_eq!(
        Action::parse(strings(&["default", "Open", "dismiss", "Dismiss", "odd"])),
        vec![action("default", "Open"), action("dismiss", "Dismiss")]
    );
}

#[test]
fn close_reasons_have_numbers() {
    assert_eq!(CloseReason::Expired.code(), 1);
    assert_eq!(CloseReason::Dismissed.code(), 2);
    assert_eq!(CloseReason::Forced.code(), 3);
}

#[test]
fn dbus_messages_name_their_signal() {
    let invoked = DbusMessage::Action(4, String::from("default"));
    assert_eq!(invoked.signal_name(), "ActionInvoked");
    assert_eq!(invoked.id(), 4);
    let closed = DbusMessage::Closed(9, CloseReason::Dismissed);
    assert_eq!(closed.signal_name(), "NotificationClosed");
    assert_eq!(closed.id(), 9);
}

#[test]
fn daemon_numbers_notifications_from_one() {
    let mut daemon = NotificationDaemon::new();
    let first = daemon.notify("mail", 0, "mail-icon", "New mail", "from a", Vec::new(), -1);
    let second = daemon.notify("mail", 0, "mail-icon", "New mail", "from b", Vec::new(), 0);
    let third = daemon.notify("mail", 0, "mail-icon", "New mail", "from c", Vec::new(), 2500);
    assert_eq!((first.id, second.id, third.id), (1, 2, 3));
    assert_eq!((first.timeout, second.timeout, third.timeout), (None, None, Some(2500)));
    assert_eq!(
        first.message,
        UiMessage::New(Notification {
            id: 1,
            app_name: String::from("mail"),
            app_icon: String::from("mail-icon"),
            summary: String::from("New mail"),
            body: String::from("from a"),
            actions: Vec::new(),
            expiry: None,
        })
    );
    match second.message {
        UiMessage::New(n) => assert_eq!(n.expiry, Some(0)),
        other => panic!("unexpected message {:?}", other),
    }
    match third.message {
        UiMessage::New(n) => assert_eq!(n.expiry, Some(2500)),
        other => panic!("unexpected message {:?}", other),
    }
}

#[test]
fn daemon_keeps_the_number_of_a_replaced_notification() {
    let mut daemon = NotificationDaemon::new();
    let replaced = daemon.notify(
        "chat",
        41,
        "",
        "hello",
        "",
        strings(&["reply", "Reply", "mute", "Mute"]),
        i32::MAX,
    );
    assert_eq!(replaced.id, 41);
    assert_eq!(replaced.timeout, Some(i32::MAX as u64));
    match replaced.message {
        UiMessage::New(n) => {
            assert_eq!(n.id, 41);
            assert_eq!(n.actions, vec![action("reply", "Reply"), action("mute", "Mute")]);
            assert_eq!(n.expiry, Some(i32::MAX as u32));
        }
        other => panic!("unexpected message {:?}", other),
    }
    let next = daemon.notify("chat", 0, "", "", "", Vec::new(), i32::MIN);
    assert_eq!(next.id, 1);
    assert_eq!(next.timeout, None);
}

#[test]
fn daemon_describes_itself() {
    let daemon = NotificationDaemon::new();
    assert_eq!(daemon.get_capabilities(), vec!["body", "actions"]);
    assert_eq!(
        daemon.get_server_information(),
        (
            String::from("Gnyprland"),
            String::from("Angad"),
            String::from("1.0"),
            String::from("1.2")
        )
    );
}

#[test]
fn widget_holds_its_notification() {
    let notification = Notification {
        id: 3,
        app_name: String::from("a"),
        app_icon: String::from("b"),
        summary: String::from("c"),
        body: String::from("d"),
        actions: vec![action("k", "t")],
        expiry: Some(10),
    };
    let widget = NotificationWidget::init(notification.clone());
    assert_eq!(widget.notification(), &notification);
}
