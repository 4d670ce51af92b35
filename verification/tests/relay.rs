use gnyprland::message::{IpcMessage, IpcReceiver, IpcResponse, IpcSender};
use gnyprland::relay::{accepted, channel, completed, pulled, pushed, RelayError};

#[test]
fn relay_correlates_sequential_calls() {
    let (tx, mut rx) = channel::<u32, String>();
    let consumer = smol::unblock(move || {
        let mut seen = Vec::new();
        while let Ok(request) = rx.receive() {
            seen.push(request);
            rx.respond(format!("reply to {}", request)).unwrap();
        }
        seen
    });
    for request in [3u32, 1, 4, 1, 5, 9, 2, 6] {
        assert_eq!(tx.send(request), Ok(format!("reply to {}", request)));
    }
    drop(tx);
    assert_eq!(smol::block_on(consumer), vec![3, 1, 4, 1, 5, 9, 2, 6]);
}

#[test]
fn relay_reply_can_come_from_a_responder() {
    let (tx, mut rx) = channel::<u32, u32>();
    let consumer = smol::unblock(move || {
        let request = rx.receive().unwrap();
        let responder = rx.responder();
        let worker = smol::unblock(move || responder.respond(request + 100));
        smol::block_on(worker)
    });
    assert_eq!(tx.send(7), Ok(107));
    assert_eq!(smol::block_on(consumer), Ok(()));
}

#[test]
fn relay_send_fails_without_receiver() {
    let (tx, rx) = channel::<u32, u32>();
    drop(rx);
    assert_eq!(tx.send(1), Err(RelayError::SendError));
}

#[test]
fn relay_send_fails_when_no_reply_comes() {
    let (tx, mut rx) = channel::<u32, u32>();
    let consumer = smol::unblock(move || rx.receive());
    assert_eq!(tx.send(5), Err(RelayError::ReceiveError));
    assert_eq!(smol::block_on(consumer), Ok(5));
}

#[test]
fn relay_receive_fails_without_sender() {
    let (tx, mut rx) = channel::<u32, u32>();
    drop(tx);
    assert_eq!(rx.receive(), Err(RelayError::ReceiveError));
    assert_eq!(rx.respond(1), Err(RelayError::SendError));
    assert_eq!(rx.responder().respond(1), Err(RelayError::SendError));
}

#[test]
fn relay_senders_can_be_cloned() {
    let (tx, mut rx) = channel::<u32, u32>();
    let other = tx.clone();
    let consumer = smol::unblock(move || {
        while let Ok(request) = rx.receive() {
            rx.respond(request * 2).unwrap();
        }
    });
    assert_eq!(tx.send(2), Ok(4));
    assert_eq!(other.send(3), Ok(6));
    drop(tx);
    drop(other);
    smol::block_on(consumer);
}

#[test]
fn relay_overlapping_calls_get_their_own_replies() {
    let (tx, mut rx) = channel::<u32, u32>();
    let other = tx.clone();
    let first = smol::unblock(move || tx.send(1));
    let second = smol::unblock(move || other.send(2));

    let early = rx.receive().unwrap();
    let to_early = rx.responder();
    let late = rx.receive().unwrap();
    let to_late = rx.responder();
    assert_eq!(early + late, 3);

    assert_eq!(to_late.respond(late + 100), Ok(()));
    assert_eq!(to_early.respond(early + 100), Ok(()));

    assert_eq!(smol::block_on(first), Ok(101));
    assert_eq!(smol::block_on(second), Ok(102));
}

#[test]
fn relay_receiver_replies_to_the_request_it_received_last() {
    let (tx, mut rx) = channel::<u32, u32>();
    let other = tx.clone();
    let first = smol::unblock(move || tx.send(10));
    let early = rx.receive().unwrap();
    let to_early = rx.responder();
    let second = smol::unblock(move || other.send(20));
    let late = rx.receive().unwrap();
    assert_eq!((early, late), (10, 20));

    assert_eq!(rx.respond(late + 1), Ok(()));
    assert_eq!(smol::block_on(second), Ok(21));
    assert_eq!(to_early.respond(early + 1), Ok(()));
    assert_eq!(smol::block_on(first), Ok(11));
}

#[test]
fn relay_cannot_reply_before_a_request_came() {
    let (tx, rx) = channel::<u32, u32>();
    assert_eq!(rx.respond(1), Err(RelayError::SendError));
    assert_eq!(rx.responder().respond(1), Err(RelayError::SendError));
    drop(tx);
}

#[test]
fn relay_cannot_reply_to_a_caller_that_is_gone() {
    let (tx, mut rx) = channel::<u32, u32>();
    let call = smol::unblock(move || tx.send(5));
    assert_eq!(rx.receive(), Ok(5));
    assert_eq!(rx.respond(6), Ok(()));
    assert_eq!(smol::block_on(call), Ok(6));
    assert_eq!(rx.respond(7), Err(RelayError::SendError));
}

#[test]
fn relay_calls_are_completed_from_both_outcomes() {
    assert_eq!(completed::<u32, u32>(Ok(()), Some(4)), Ok(4));
    assert_eq!(completed::<u32, u32>(Ok(()), None), Err(RelayError::ReceiveError));
    assert_eq!(completed::<u32, u32>(Err(9), Some(4)), Err(RelayError::SendError));
    assert_eq!(completed::<u32, u32>(Err(9), None), Err(RelayError::SendError));
}

#[test]
fn relay_requests_are_accepted_with_their_slot() {
    let (old_slot, old_end) = smol::channel::unbounded::<u32>();
    let (new_slot, new_end) = smol::channel::unbounded::<u32>();

    let (request, slot) = accepted::<u32, u32>(None, Some(old_slot.clone()));
    assert_eq!(request, Err(RelayError::ReceiveError));
    assert!(slot.unwrap().same_channel(&old_slot));

    let (request, slot) = accepted(Some((7u32, new_slot.clone())), Some(old_slot));
    assert_eq!(request, Ok(7));
    slot.unwrap().send_blocking(8).unwrap();
    assert_eq!(new_end.recv_blocking(), Ok(8));
    assert!(old_end.is_empty());

    let (request, slot) = accepted::<u32, u32>(None, None);
    assert_eq!(request, Err(RelayError::ReceiveError));
    assert!(slot.is_none());
    drop(new_slot);
}

#[test]
fn relay_outcomes_are_reported() {
    assert_eq!(pushed::<u32>(Ok(())), Ok(()));
    assert_eq!(pushed(Err(3u32)), Err(RelayError::SendError));
    assert_eq!(pulled(Some(3u32)), Ok(3));
    assert_eq!(pulled::<u32>(None), Err(RelayError::ReceiveError));
    assert_eq!(RelayError::SendError.to_string(), "Failed to send message");
    assert_eq!(RelayError::ReceiveError.to_string(), "Failed to receive message");
}

#[test]
fn relay_carries_the_control_vocabulary() {
    let (tx, mut rx): (IpcSender, IpcReceiver) = channel();
    let consumer = smol::unblock(move || {
        let request = rx.receive().unwrap();
        rx.respond(IpcResponse::Okay).unwrap();
        request
    });
    assert_eq!(tx.send(IpcMessage::ReloadCSS), Ok(IpcResponse::Okay));
    assert_eq!(smol::block_on(consumer), IpcMessage::ReloadCSS);
}
