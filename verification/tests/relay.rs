//! End-to-end exercises of the relay's decision logic on concrete values.

use nsh::action::Action;
use nsh::command::LocalCommand;
use nsh::processor::{echo_done, DialOutcome, Pending, Processor, Reaction};

fn is_send(a: &Action, id: u64, bytes: &[u8]) -> bool {
    match a {
        Action::Send(i, data) => *i == id && data.as_slice() == bytes,
        _ => false,
    }
}

fn is_unregister_transport(a: &Action, id: u64) -> bool {
    matches!(a, Action::UnregisterTransport(i) if *i == id)
}

fn sample_hex_key() -> String {
    "00112233445566778899aabbccddeeff00112233445566778899aabbccddeeff".to_string()
}

#[test]
fn non_text_input_is_rejected_with_the_fixed_token() {
    let mut p = Processor::with();
    let data: Vec<u8> = vec![0xff, 0xfe, 0x41];
    match p.input(7, data) {
        Reaction::Done(acts) => {
            assert_eq!(acts.len(), 2);
            assert!(is_send(&acts[0], 7, b"NON_UTF8_COMMAND"));
            assert!(is_unregister_transport(&acts[1], 7));
        }
        _ => panic!("non-text input must be answered immediately"),
    }
}

#[test]
fn unparsable_text_is_rejected_with_the_fixed_token() {
    let mut p = Processor::with();
    match p.input(9, b"HELLO WORLD".to_vec()) {
        Reaction::Done(acts) => {
            assert_eq!(acts.len(), 2);
            assert!(is_send(&acts[0], 9, b"INVALID_COMMAND"));
            assert!(is_unregister_transport(&acts[1], 9));
        }
        _ => panic!("unparsable input must be answered immediately"),
    }
}

#[test]
fn empty_input_is_unparsable() {
    let mut p = Processor::with();
    match p.input(1, Vec::new()) {
        Reaction::Done(acts) => {
            assert_eq!(acts.len(), 2);
            assert!(is_send(&acts[0], 1, b"INVALID_COMMAND"));
            assert!(is_unregister_transport(&acts[1], 1));
        }
        _ => panic!("empty input must be answered immediately"),
    }
}

#[test]
fn echo_is_deferred_to_the_local_run() {
    let mut p = Processor::with();
    match p.input(3, b"ECHO".to_vec()) {
        Reaction::Defer(Pending::RunEcho { id }) => assert_eq!(id, 3),
        _ => panic!("ECHO must ask for the local echo run"),
    }
}

#[test]
fn echo_output_is_sent_back_without_unregistering() {
    let acts = echo_done(3, Ok(b"\n".to_vec()));
    assert_eq!(acts.len(), 1);
    assert!(is_send(&acts[0], 3, b"\n"));
}

#[test]
fn echo_failure_is_reported_and_the_caller_unregistered() {
    let acts = echo_done(3, Err(b"spawn failed".to_vec()));
    assert_eq!(acts.len(), 2);
    assert!(is_send(&acts[0], 3, b"spawn failed"));
    assert!(is_unregister_transport(&acts[1], 3));
}

#[test]
fn forward_parses_to_a_dial_request() {
    let mut p = Processor::with();
    let line = format!("FORWARD example.org:9999 {} ECHO", sample_hex_key());
    match p.input(5, line.into_bytes()) {
        Reaction::Defer(Pending::Dial { id, hop, command }) => {
            assert_eq!(id, 5);
            assert_eq!(hop.addr.as_slice(), b"example.org:9999");
            assert_eq!(hop.id.len(), 32);
            assert_eq!(
                hop.id,
                vec![
                    0x00, 0x11, 0x22, 0x33, 0x44, 0x55, 0x66, 0x77, 0x88, 0x99, 0xaa, 0xbb, 0xcc,
                    0xdd, 0xee, 0xff, 0x00, 0x11, 0x22, 0x33, 0x44, 0x55, 0x66, 0x77, 0x88, 0x99,
                    0xaa, 0xbb, 0xcc, 0xdd, 0xee, 0xff
                ]
            );
            assert!(matches!(command, LocalCommand::Echo));
        }
        _ => panic!("a well-formed forward must ask for a dial"),
    }
}

#[test]
fn forward_with_uppercase_hex_parses() {
    let mut p = Processor::with();
    let key = sample_hex_key().to_uppercase();
    let line = format!("FORWARD host:1 {key} ECHO");
    match p.input(5, line.into_bytes()) {
        Reaction::Defer(Pending::Dial { hop, .. }) => {
            assert_eq!(hop.id[10], 0xaa);
            assert_eq!(hop.id[15], 0xff);
        }
        _ => panic!("uppercase hexadecimal digits are part of the grammar"),
    }
}

#[test]
fn forward_with_bad_hex_is_invalid() {
    let mut p = Processor::with();
    let mut key = sample_hex_key();
    key.replace_range(10..11, "g");
    let line = format!("FORWARD example.org:9999 {key} ECHO");
    match p.input(5, line.into_bytes()) {
        Reaction::Done(acts) => {
            assert!(is_send(&acts[0], 5, b"INVALID_COMMAND"));
        }
        _ => panic!("a non-hexadecimal identity token must be rejected"),
    }
}

#[test]
fn forward_with_short_key_is_invalid() {
    let mut p = Processor::with();
    let line = "FORWARD example.org:9999 0011 ECHO".to_string();
    match p.input(5, line.into_bytes()) {
        Reaction::Done(acts) => {
            assert!(is_send(&acts[0], 5, b"INVALID_COMMAND"));
        }
        _ => panic!("a short identity token must be rejected"),
    }
}

#[test]
fn forward_with_empty_address_is_invalid() {
    let mut p = Processor::with();
    let line = format!("FORWARD  {} ECHO", sample_hex_key());
    match p.input(5, line.into_bytes()) {
        Reaction::Done(acts) => {
            assert!(is_send(&acts[0], 5, b"INVALID_COMMAND"));
        }
        _ => panic!("an empty address token must be rejected"),
    }
}

#[test]
fn forward_with_unknown_subcommand_is_invalid() {
    let mut p = Processor::with();
    let line = format!("FORWARD example.org:9999 {} NOPE", sample_hex_key());
    match p.input(5, line.into_bytes()) {
        Reaction::Done(acts) => {
            assert!(is_send(&acts[0], 5, b"INVALID_COMMAND"));
        }
        _ => panic!("an unknown sub-command must be rejected"),
    }
}

#[test]
fn failed_dial_reports_failure_and_leaks_no_entry() {
    let mut p = Processor::with();
    let acts = p.forward_dialed(5, LocalCommand::Echo, DialOutcome::DialFailed(b"unreachable".to_vec()));
    assert_eq!(acts.len(), 1);
    assert!(is_send(&acts[0], 5, b"Failure: unreachable"));
    // No entry was queued for any descriptor: an established event finds nothing.
    let later = p.new_client(11, 6);
    assert!(later.is_empty());
}

#[test]
fn wrapping_failure_reports_and_unregisters_the_caller() {
    let mut p = Processor::with();
    let acts = p.forward_dialed(5, LocalCommand::Echo, DialOutcome::WrapFailed(b"no descriptor".to_vec()));
    assert_eq!(acts.len(), 2);
    assert!(is_send(&acts[0], 5, b"Failure: no descriptor"));
    assert!(is_unregister_transport(&acts[1], 5));
}

#[test]
fn successful_dial_queues_the_command_once() {
    let mut p = Processor::with();
    let acts = p.forward_dialed(5, LocalCommand::Echo, DialOutcome::Connected(42));
    assert_eq!(acts.len(), 1);
    assert!(matches!(acts[0], Action::RegisterTransport(42)));

    // The established event delivers the queued command to the new identity.
    let delivery = p.new_client(42, 8);
    assert_eq!(delivery.len(), 1);
    assert!(is_send(&delivery[0], 8, b"ECHO"));

    // A second established event for the same descriptor finds nothing.
    let again = p.new_client(42, 8);
    assert!(again.is_empty());
}

#[test]
fn a_lost_client_drops_its_queued_command() {
    let mut p = Processor::with();
    let _ = p.forward_dialed(5, LocalCommand::Echo, DialOutcome::Connected(42));
    p.client_lost(42);
    let delivery = p.new_client(42, 8);
    assert!(delivery.is_empty());
    // Losing a descriptor that holds nothing is a no-op.
    p.client_lost(42);
}
