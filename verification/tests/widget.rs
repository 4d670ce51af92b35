use gnyprland::cli::Arguments;
use gnyprland::command::{
    socket_in, ActiveWindow, ActiveWorkspace, Clients, Command, Executor, Workspaces,
};
use gnyprland::message::IpcMessage;
use gnyprland::widget::{
    modify, property, setter, BindKind, FieldKind, Modifier, Modifiers,
};

#[test]
fn modifier_words() {
    assert_eq!(Modifier::from_ident("bor"), Modifier::Ref);
    assert_eq!(Modifier::from_ident("opt"), Modifier::Optional);
    assert_eq!(Modifier::from_ident("inh"), Modifier::Inherited);
    assert_eq!(Modifier::from_ident("fun"), Modifier::Unset);
    assert_eq!(Modifier::from_ident("Label"), Modifier::Unset);
    assert_eq!(Modifier::from_ident(""), Modifier::Unset);
    assert!(Modifier::Unset.is_unset());
    assert!(!Modifier::Ref.is_unset());
    assert!(!Modifier::Optional.is_unset());
    assert!(!Modifier::Inherited.is_unset());
}

#[test]
fn bind_kinds() {
    assert_eq!(BindKind::from_ident("css"), BindKind::Css);
    assert_eq!(BindKind::from_ident("class_name"), BindKind::ClassName);
    assert_eq!(BindKind::from_ident("label"), BindKind::Normal);
    assert_eq!(BindKind::from_ident(""), BindKind::Normal);
}

#[test]
fn modifiers_are_read_up_to_the_first_other_word() {
    let (modifiers, consumed) = Modifiers::read(&["inh", "fun", "Interactable"]);
    assert_eq!(modifiers.as_slice(), &[Modifier::Inherited, Modifier::Unset]);
    assert_eq!(consumed, 1);

    let (modifiers, consumed) = Modifiers::read(&["opt", "bor", "inh", "Label", "inh"]);
    assert_eq!(
        modifiers.as_slice(),
        &[Modifier::Optional, Modifier::Ref, Modifier::Inherited, Modifier::Unset]
    );
    assert_eq!(consumed, 3);

    let (modifiers, consumed) = Modifiers::read(&["Window"]);
    assert_eq!(modifiers.as_slice(), &[Modifier::Unset]);
    assert_eq!(consumed, 0);

    let (modifiers, consumed) = Modifiers::read(&[]);
    assert_eq!(modifiers.as_slice(), &[Modifier::Unset]);
    assert_eq!(consumed, 0);

    let (modifiers, consumed) = Modifiers::read(&["bor"]);
    assert_eq!(modifiers.as_slice(), &[Modifier::Ref, Modifier::Unset]);
    assert_eq!(consumed, 1);
}

#[test]
fn add_mod_fills_an_unset_front() {
    let (plain, _) = Modifiers::read(&["CenterBox"]);
    assert_eq!(plain.add_mod(Modifier::Optional).as_slice(), &[Modifier::Optional]);
    let (own, _) = Modifiers::read(&["bor", "AstalBox"]);
    assert_eq!(
        own.add_mod(Modifier::Inherited).as_slice(),
        &[Modifier::Ref, Modifier::Unset]
    );
}

#[test]
fn arguments_choose_the_request() {
    assert_eq!(Arguments { inspector: true }.request(), Some(IpcMessage::StartInspector));
    assert_eq!(Arguments { inspector: false }.request(), None);
}

#[test]
fn command_socket_and_requests() {
    assert_eq!(Executor::socket("/run/user/1000", "sig"), "/run/user/1000/hypr/sig/.socket.sock");
    assert_eq!(socket_in("", "", ""), "/hypr//");
    assert_eq!(Executor::request::<Workspaces>(), "-j/workspaces");
    assert_eq!(Executor::request::<Clients>(), "-j/clients");
    assert_eq!(Executor::request::<ActiveWindow>(), "-j/activewindow");
    assert_eq!(Executor::request::<ActiveWorkspace>(), "-j/activeworkspace");
    assert_eq!(Workspaces::NAME, "workspaces");
}

#[test]
fn field_words() {
    assert_eq!(FieldKind::from_ident("class_name"), FieldKind::ClassName);
    assert_eq!(FieldKind::from_ident("name"), FieldKind::Name);
    assert_eq!(FieldKind::from_ident("child"), FieldKind::Child);
    assert_eq!(FieldKind::from_ident("children"), FieldKind::Children);
    assert_eq!(FieldKind::from_ident("bind"), FieldKind::Bind);
    assert_eq!(FieldKind::from_ident("spacing"), FieldKind::Plain);
    assert_eq!(property("name"), "widget_name");
    assert_eq!(property("spacing"), "spacing");
    assert_eq!(setter(&property("name")), "set_widget_name");
    assert_eq!(setter("label"), "set_label");
}

#[test]
fn modifiers_wrap_from_the_inside_out() {
    assert_eq!(modify(Modifier::Ref, String::from("w")), "&w");
    assert_eq!(modify(Modifier::Optional, String::from("w")), "Some(&w)");
    assert_eq!(modify(Modifier::Inherited, String::from("w")), "::gtk::Widget::from(w)");
    assert_eq!(modify(Modifier::Unset, String::from("w")), "w");

    let (plain, _) = Modifiers::read(&["Label"]);
    assert_eq!(plain.wrap(String::from("w")), "w");
    let (both, _) = Modifiers::read(&["opt", "inh", "Label"]);
    assert_eq!(both.wrap(String::from("w")), "Some(&::gtk::Widget::from(w))");
    let (other, _) = Modifiers::read(&["inh", "bor", "Label"]);
    assert_eq!(other.wrap(String::from("w")), "::gtk::Widget::from(&w)");
}
