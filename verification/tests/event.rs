use gnyprland::event::{
    field, ActiveWindow, ActiveWindowData, CloseWindow, CloseWindowData, Event, EventData,
    EventKind, EventParseError, MoveWindow, MoveWindowData, OpenWindow, OpenWindowData, Workspace,
    WorkspaceData,
};

const KINDS: [EventKind; 5] = [
    EventKind::Workspace,
    EventKind::ActiveWindow,
    EventKind::OpenWindow,
    EventKind::CloseWindow,
    EventKind::MoveWindow,
];

#[test]
fn event_names_are_the_wire_names() {
    assert_eq!(Workspace::NAME, "workspace");
    assert_eq!(ActiveWindow::NAME, "activewindow");
    assert_eq!(OpenWindow::NAME, "openwindow");
    assert_eq!(CloseWindow::NAME, "closewindow");
    assert_eq!(MoveWindow::NAME, "movewindow");
    assert_eq!(Workspace::event_kind().name(), Workspace::NAME);
    assert_eq!(ActiveWindow::event_kind().name(), ActiveWindow::NAME);
    assert_eq!(OpenWindow::event_kind().name(), OpenWindow::NAME);
    assert_eq!(CloseWindow::event_kind().name(), CloseWindow::NAME);
    assert_eq!(MoveWindow::event_kind().name(), MoveWindow::NAME);
}

#[test]
fn event_kinds_are_found_by_name() {
    for (i, kind) in KINDS.iter().enumerate() {
        assert_eq!(EventKind::from_name(kind.name()), Some(*kind));
        assert_eq!(kind.id() as usize, i);
    }
    for other in ["", "Workspace", "workspace ", "workspacev2", "focusedmon", "open window"] {
        assert_eq!(EventKind::from_name(other), None, "{:?}", other);
    }
}

#[test]
fn event_kinds_declare_their_fields() {
    let expected: [&[&str]; 5] = [
        &["name"],
        &["class", "title"],
        &["address", "name", "class", "title"],
        &["address"],
        &["address", "workspace"],
    ];
    for (kind, names) in KINDS.iter().zip(expected) {
        assert_eq!(kind.field_count(), names.len());
        for (i, name) in names.iter().enumerate() {
            assert_eq!(kind.field_name(i), *name);
        }
    }
}

#[test]
fn event_workspace_parses() {
    assert_eq!(Workspace::parse_data(&["3"]), Ok(WorkspaceData { name: String::from("3") }));
    assert_eq!(Workspace::parse_data(&[""]), Ok(WorkspaceData { name: String::new() }));
}

#[test]
fn event_payloads_take_fields_by_position() {
    assert_eq!(
        ActiveWindow::parse_data(&["kitty", "~/src"]),
        Ok(ActiveWindowData { class: String::from("kitty"), title: String::from("~/src") })
    );
    assert_eq!(
        OpenWindow::parse_data(&["55d0", "2", "firefox", "Mozilla Firefox"]),
        Ok(OpenWindowData {
            address: String::from("55d0"),
            name: String::from("2"),
            class: String::from("firefox"),
            title: String::from("Mozilla Firefox"),
        })
    );
    assert_eq!(
        CloseWindow::parse_data(&["55d0"]),
        Ok(CloseWindowData { address: String::from("55d0") })
    );
    assert_eq!(
        MoveWindow::parse_data(&["55d0", "4"]),
        Ok(MoveWindowData { address: String::from("55d0"), workspace: String::from("4") })
    );
}

#[test]
fn event_arity_is_enforced() {
    let fields = ["a", "b", "c", "d", "e", "f"];
    for kind in KINDS {
        let n = kind.field_count();
        for len in 0..=fields.len() {
            let parsed = kind.parse(&fields[..len]);
            if len == n {
                let data = parsed.unwrap();
                assert_eq!(data.event_kind(), kind);
            } else {
                assert_eq!(parsed, Err(EventParseError::InvalidData), "{:?} with {}", kind, len);
            }
        }
    }
    assert_eq!(Workspace::parse_data(&[]), Err(EventParseError::InvalidData));
    assert_eq!(Workspace::parse_data(&["1", "2"]), Err(EventParseError::InvalidData));
    assert_eq!(ActiveWindow::parse_data(&["a"]), Err(EventParseError::InvalidData));
    assert_eq!(ActiveWindow::parse_data(&["a", "b", "c"]), Err(EventParseError::InvalidData));
    assert_eq!(OpenWindow::parse_data(&["a", "b", "c"]), Err(EventParseError::InvalidData));
    assert_eq!(
        OpenWindow::parse_data(&["a", "b", "c", "d", "e"]),
        Err(EventParseError::InvalidData)
    );
    assert_eq!(CloseWindow::parse_data(&[]), Err(EventParseError::InvalidData));
    assert_eq!(MoveWindow::parse_data(&["a"]), Err(EventParseError::InvalidData));
}

#[test]
fn event_kind_parses_into_the_tagged_payload() {
    assert_eq!(
        EventKind::Workspace.parse(&["3"]),
        Ok(EventData::Workspace(WorkspaceData { name: String::from("3") }))
    );
    assert_eq!(
        EventKind::MoveWindow.parse(&["ab", "7"]),
        Ok(EventData::MoveWindow(MoveWindowData {
            address: String::from("ab"),
            workspace: String::from("7"),
        }))
    );
}

#[test]
fn event_missing_field_is_reported_by_name() {
    assert_eq!(field(&["a", "b"], 1, "title"), Ok(String::from("b")));
    assert_eq!(field(&["a", "b"], 2, "title"), Err(EventParseError::MissingField("title")));
    assert_eq!(field(&[], 0, "name"), Err(EventParseError::MissingField("name")));
}

#[test]
fn event_errors_have_messages() {
    assert_eq!(EventParseError::InvalidData.to_string(), "Event had invalid data or format");
    assert_eq!(EventParseError::MissingField("title").to_string(), "Missing field: title");
    assert_eq!(
        EventParseError::ParseFailed("address").to_string(),
        "Failed to parse field: address"
    );
}
