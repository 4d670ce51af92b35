use gnyprland::bar::{update, Effect, Message};
use gnyprland::frame::{encode, receive, send};
use gnyprland::message::{IpcMessage, IpcResponse};
use gnyprland::relay::RelayError;
use gnyprland::server::{parse_command, Action, ControlServer, Fault, Input, Stage, Step};

fn payload_of(frame: &[u8]) -> Vec<u8> {
    frame[8..].to_vec()
}

#[test]
fn scenario_reload_css() {
    let mut client: Vec<u8> = Vec::new();
    send(&mut client, String::from("reload-css"));

    let mut server = ControlServer::new();
    assert_eq!(server.current(), Stage::Listening);
    assert_eq!(server.step(Input::Accepted), Step { action: Action::Read, fault: None });
    assert_eq!(server.current(), Stage::Reading);

    let step = server.step(Input::Frame(payload_of(&client)));
    assert_eq!(step, Step { action: Action::Relay(IpcMessage::ReloadCSS), fault: None });
    assert_eq!(server.current(), Stage::Relayed);

    let handled = update(Message::Ipc(IpcMessage::ReloadCSS), false);
    assert_eq!(handled.effect, Effect::LoadCss);
    assert_eq!(handled.response, Some(IpcResponse::Okay));

    let step = server.step(Input::Reply(handled.response.unwrap()));
    assert_eq!(server.current(), Stage::Replying);
    let mut reply = match step.action {
        Action::Write(bytes) => bytes,
        other => panic!("unexpected action {:?}", other),
    };
    assert_eq!(step.fault, None);
    assert_eq!(reply, encode("ok"));

    assert_eq!(server.step(Input::Written), Step { action: Action::Close, fault: None });
    assert_eq!(server.current(), Stage::Listening);
    assert_eq!(receive(&mut reply), Ok(String::from("ok")));
}

#[test]
fn server_trims_the_command() {
    assert_eq!(parse_command(b"  inspector\n".to_vec()), Ok(IpcMessage::StartInspector));
    assert_eq!(parse_command(b"reload-css".to_vec()), Ok(IpcMessage::ReloadCSS));
    assert_eq!(parse_command(b"Reload-CSS".to_vec()), Err(Fault::UnknownCommand));
    assert_eq!(parse_command(b"".to_vec()), Err(Fault::UnknownCommand));
    assert_eq!(parse_command(vec![0xff, 0xfe]), Err(Fault::Read));
}

#[test]
fn server_closes_on_unknown_command_without_relaying() {
    let mut server = ControlServer::new();
    server.step(Input::Accepted);
    let step = server.step(Input::Frame(b"shutdown".to_vec()));
    assert_eq!(step, Step { action: Action::Close, fault: Some(Fault::UnknownCommand) });
    assert_eq!(server.current(), Stage::Listening);
}

#[test]
fn server_closes_on_read_failure() {
    let mut server = ControlServer::new();
    server.step(Input::Accepted);
    let step = server.step(Input::ReadFailed);
    assert_eq!(step, Step { action: Action::Close, fault: Some(Fault::Read) });
    assert_eq!(server.current(), Stage::Listening);

    server.step(Input::Accepted);
    let step = server.step(Input::Frame(vec![0xc0]));
    assert_eq!(step, Step { action: Action::Close, fault: Some(Fault::Read) });
    assert_eq!(server.current(), Stage::Listening);
}

#[test]
fn server_closes_on_relay_failure() {
    let mut server = ControlServer::new();
    server.step(Input::Accepted);
    server.step(Input::Frame(b"inspector".to_vec()));
    let step = server.step(Input::RelayFailed(RelayError::SendError));
    assert_eq!(step, Step { action: Action::Close, fault: Some(Fault::Relay) });
    assert_eq!(server.current(), Stage::Listening);
}

#[test]
fn server_closes_on_write_failure() {
    let mut server = ControlServer::new();
    server.step(Input::Accepted);
    server.step(Input::Frame(b"inspector".to_vec()));
    let step = server.step(Input::Reply(IpcResponse::InspectorNotAvailable));
    assert_eq!(
        step.action,
        Action::Write(encode("Inspector is only available in debug mode"))
    );
    let step = server.step(Input::WriteFailed);
    assert_eq!(step, Step { action: Action::Close, fault: Some(Fault::Write) });
    assert_eq!(server.current(), Stage::Listening);
}

#[test]
fn server_drops_the_connection_on_a_report_out_of_turn() {
    let mut server = ControlServer::new();
    let step = server.step(Input::Written);
    assert_eq!(step, Step { action: Action::Close, fault: Some(Fault::OutOfTurn) });
    server.step(Input::Accepted);
    let step = server.step(Input::Reply(IpcResponse::Okay));
    assert_eq!(step, Step { action: Action::Close, fault: Some(Fault::OutOfTurn) });
    assert_eq!(server.current(), Stage::Listening);
    server.step(Input::Accepted);
    let step = server.step(Input::Accepted);
    assert_eq!(step, Step { action: Action::Close, fault: Some(Fault::OutOfTurn) });
}

#[test]
fn server_serves_connections_one_after_another() {
    let mut server = ControlServer::new();
    for command in ["inspector", "reload-css", "inspector"] {
        assert_eq!(server.step(Input::Accepted).action, Action::Read);
        let expected = IpcMessage::from_str(command).unwrap();
        assert_eq!(
            server.step(Input::Frame(command.as_bytes().to_vec())).action,
            Action::Relay(expected)
        );
        assert_eq!(server.step(Input::Reply(IpcResponse::Okay)).action, Action::Write(encode("ok")));
        assert_eq!(server.step(Input::Written).action, Action::Close);
    }
}

#[test]
fn bar_answers_every_request() {
    let u = update(Message::Ipc(IpcMessage::StartInspector), true);
    assert_eq!((u.effect, u.response), (Effect::OpenInspector, Some(IpcResponse::Okay)));
    let u = update(Message::Ipc(IpcMessage::StartInspector), false);
    assert_eq!((u.effect, u.response), (Effect::Nothing, Some(IpcResponse::InspectorNotAvailable)));
    let u = update(Message::Ipc(IpcMessage::ReloadCSS), true);
    assert_eq!((u.effect, u.response), (Effect::LoadCss, Some(IpcResponse::Okay)));
    let u = update(Message::ReloadCSS, false);
    assert_eq!((u.effect, u.response), (Effect::LoadCss, None));
}
