use gnyprland::message::{IpcMessage, IpcResponse, ParseError};

#[test]
fn requests_round_trip() {
    for m in [IpcMessage::StartInspector, IpcMessage::ReloadCSS] {
        assert_eq!(IpcMessage::from_str(&m.to_string()), Ok(m));
        assert_eq!(IpcMessage::from_str(m.as_str()), Ok(m));
    }
}

#[test]
fn requests_have_fixed_wire_strings() {
    assert_eq!(IpcMessage::StartInspector.to_string(), "inspector");
    assert_eq!(IpcMessage::ReloadCSS.to_string(), "reload-css");
    assert_eq!(IpcMessage::from_str("inspector"), Ok(IpcMessage::StartInspector));
    assert_eq!(IpcMessage::from_str("reload-css"), Ok(IpcMessage::ReloadCSS));
}

#[test]
fn unknown_requests_are_errors() {
    for s in ["", "Inspector", "inspector ", " reload-css", "reload_css", "ok", "reload-css\n"] {
        assert_eq!(IpcMessage::from_str(s), Err(ParseError::VariantNotFound), "{:?}", s);
    }
    assert_eq!(ParseError::VariantNotFound.to_string(), "Matching variant not found");
}

#[test]
fn replies_have_fixed_texts() {
    assert_eq!(IpcResponse::Okay.to_string(), "ok");
    assert_eq!(
        IpcResponse::InspectorNotAvailable.to_string(),
        "Inspector is only available in debug mode"
    );
    assert_eq!(IpcResponse::Okay.as_str(), "ok");
}
