//! Exercises of the event handler: action ordering, the pre-identity
//! outbox, the registry, and repeated teardown.

use nsh::action::Action;
use nsh::command::LocalCommand;
use nsh::processor::{DialOutcome, Processor};
use nsh::server::{ErrorEvent, ListenerEvent, Server, TransportEvent};

fn drain(server: &mut Server) -> Vec<Action> {
    let mut out = Vec::new();
    while let Some(a) = server.next() {
        out.push(a);
    }
    out
}

fn is_send(a: &Action, id: u64, bytes: &[u8]) -> bool {
    match a {
        Action::Send(i, data) => *i == id && data.as_slice() == bytes,
        _ => false,
    }
}

#[test]
fn a_new_server_asks_to_register_the_listener() {
    let mut server = Server::with(Processor::with());
    let acts = drain(&mut server);
    assert_eq!(acts.len(), 1);
    assert!(matches!(acts[0], Action::RegisterListener));
    assert!(server.next().is_none());
}

#[test]
fn an_accepted_connection_is_registered() {
    let mut server = Server::with(Processor::with());
    let _ = drain(&mut server);
    server.handle_listener_event(1, ListenerEvent::Accepted { transport: Some(33) });
    let acts = drain(&mut server);
    assert_eq!(acts.len(), 1);
    assert!(matches!(acts[0], Action::RegisterTransport(33)));
}

#[test]
fn a_failed_accept_leaves_no_trace() {
    let mut server = Server::with(Processor::with());
    let _ = drain(&mut server);
    server.handle_listener_event(1, ListenerEvent::Accepted { transport: None });
    server.handle_listener_event(1, ListenerEvent::Failure);
    assert!(drain(&mut server).is_empty());
}

#[test]
fn established_flushes_delegate_sends_before_the_outbox() {
    let mut server = Server::with(Processor::with());
    let _ = drain(&mut server);

    // A forward succeeded: the command is queued under descriptor 21.
    server.forward_dialed(2, LocalCommand::Echo, DialOutcome::Connected(21));
    // Two messages wait in the pre-identity outbox for the same descriptor.
    server.queue_message(21, b"first".to_vec());
    server.queue_message(21, b"second".to_vec());
    let setup = drain(&mut server);
    assert_eq!(setup.len(), 1);
    assert!(matches!(setup[0], Action::RegisterTransport(21)));

    server.handle_registered(21, 9);
    let r = server.handle_transport_event(
        9,
        TransportEvent::Established { fd: 21, key: vec![0u8; 32] },
    );
    assert!(r.is_none());

    let acts = drain(&mut server);
    assert_eq!(acts.len(), 3);
    assert!(is_send(&acts[0], 9, b"ECHO"), "the delegate's send comes first");
    assert!(is_send(&acts[1], 9, b"first"));
    assert!(is_send(&acts[2], 9, b"second"));
}

#[test]
fn established_without_state_emits_nothing() {
    let mut server = Server::with(Processor::with());
    let _ = drain(&mut server);
    let r = server.handle_transport_event(
        4,
        TransportEvent::Established { fd: 77, key: vec![1u8; 32] },
    );
    assert!(r.is_none());
    assert!(drain(&mut server).is_empty());
}

#[test]
fn data_that_rejects_is_answered_in_place() {
    let mut server = Server::with(Processor::with());
    let _ = drain(&mut server);
    let r = server.handle_transport_event(6, TransportEvent::Data(vec![0xff, 0x00]));
    assert!(r.is_none());
    let acts = drain(&mut server);
    assert_eq!(acts.len(), 2);
    assert!(is_send(&acts[0], 6, b"NON_UTF8_COMMAND"));
    assert!(matches!(acts[1], Action::UnregisterTransport(6)));
}

#[test]
fn data_that_asks_for_outside_work_is_deferred() {
    let mut server = Server::with(Processor::with());
    let _ = drain(&mut server);
    let r = server.handle_transport_event(6, TransportEvent::Data(b"ECHO".to_vec()));
    assert!(r.is_some());
    assert!(drain(&mut server).is_empty());
    server.echo_done(6, Ok(b"\n".to_vec()));
    let acts = drain(&mut server);
    assert_eq!(acts.len(), 1);
    assert!(is_send(&acts[0], 6, b"\n"));
}

#[test]
fn terminated_unregisters_and_reaps_the_pending_entry() {
    let mut server = Server::with(Processor::with());
    let _ = drain(&mut server);

    server.forward_dialed(2, LocalCommand::Echo, DialOutcome::Connected(21));
    server.handle_registered(21, 9);
    let _ = drain(&mut server);

    // The outbound connection dies before it ever establishes.
    let r = server.handle_transport_event(9, TransportEvent::Terminated(b"reset".to_vec()));
    assert!(r.is_none());
    let acts = drain(&mut server);
    assert_eq!(acts.len(), 1);
    assert!(matches!(acts[0], Action::UnregisterTransport(9)));

    // The queued command is gone: a later established event for the same
    // descriptor delivers nothing.
    let r = server.handle_transport_event(
        10,
        TransportEvent::Established { fd: 21, key: vec![0u8; 32] },
    );
    assert!(r.is_none());
    assert!(drain(&mut server).is_empty());
}

#[test]
fn a_second_terminated_event_is_a_harmless_repeat() {
    let mut server = Server::with(Processor::with());
    let _ = drain(&mut server);
    server.handle_registered(21, 9);
    let _ = server.handle_transport_event(9, TransportEvent::Terminated(b"reset".to_vec()));
    let _ = server.handle_transport_event(9, TransportEvent::Terminated(b"reset".to_vec()));
    let acts = drain(&mut server);
    assert_eq!(acts.len(), 2);
    assert!(matches!(acts[0], Action::UnregisterTransport(9)));
    assert!(matches!(acts[1], Action::UnregisterTransport(9)));
}

#[test]
fn runtime_errors_only_unregister_a_lost_listener() {
    let mut server = Server::with(Processor::with());
    let _ = drain(&mut server);
    server.handle_error(ErrorEvent::TransportDisconnect(3));
    server.handle_error(ErrorEvent::Poll);
    assert!(drain(&mut server).is_empty());
    server.handle_error(ErrorEvent::ListenerDisconnect(0));
    let acts = drain(&mut server);
    assert_eq!(acts.len(), 1);
    assert!(matches!(acts[0], Action::UnregisterListener(0)));
}

#[test]
fn forwarding_failure_reaches_the_caller_through_the_mailbox() {
    let mut server = Server::with(Processor::with());
    let _ = drain(&mut server);
    server.forward_dialed(2, LocalCommand::Echo, DialOutcome::DialFailed(b"timed out".to_vec()));
    let acts = drain(&mut server);
    assert_eq!(acts.len(), 1);
    assert!(is_send(&acts[0], 2, b"Failure: timed out"));
}

#[test]
fn the_mailbox_is_drained_oldest_first() {
    let mut server = Server::with(Processor::with());
    server.handle_error(ErrorEvent::ListenerDisconnect(1));
    server.handle_error(ErrorEvent::ListenerDisconnect(2));
    let acts = drain(&mut server);
    assert_eq!(acts.len(), 3);
    assert!(matches!(acts[0], Action::RegisterListener));
    assert!(matches!(acts[1], Action::UnregisterListener(1)));
    assert!(matches!(acts[2], Action::UnregisterListener(2)));
}
