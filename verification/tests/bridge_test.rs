use local_bridge::bridge::{
    emit_failure_is_fatal, forwarder_step, Bridge, DrainOutcome, EmitError, ForwarderAction,
};
use local_bridge::channel::{Channel, RecvOutcome, SendOutcome, FORWARDING_CAPACITY};
use local_bridge::routes::handle_download_file_info;

#[test]
fn single_producer_messages_are_drained_in_enqueue_order() {
    let mut b = Bridge::new(FORWARDING_CAPACITY);
    b.install_sink();
    for m in ["first", "second", "third"] {
        assert_eq!(b.send(m.to_string()), SendOutcome::Sent);
    }
    for expected in ["first", "second", "third"] {
        match b.drain_one() {
            DrainOutcome::Forwarded(m) => assert_eq!(m, expected),
            _ => panic!("expected a forwarded message"),
        }
    }
    assert_eq!(b.emitted_so_far(), &["first", "second", "third"]);
}

#[test]
fn messages_drained_before_install_are_permanently_lost() {
    let mut b = Bridge::new(FORWARDING_CAPACITY);
    assert_eq!(b.send("early one".to_string()), SendOutcome::Sent);
    assert_eq!(b.send("early two".to_string()), SendOutcome::Sent);
    for expected in ["early one", "early two"] {
        match b.drain_one() {
            DrainOutcome::DroppedNoSink(m) => assert_eq!(m, expected),
            _ => panic!("expected a dropped message"),
        }
    }
    assert!(b.emitted_so_far().is_empty());
    b.install_sink();
    assert_eq!(b.send("late".to_string()), SendOutcome::Sent);
    match b.drain_one() {
        DrainOutcome::Forwarded(m) => assert_eq!(m, "late"),
        _ => panic!("expected a forwarded message"),
    }
    // The early messages were never replayed.
    assert_eq!(b.emitted_so_far(), &["late"]);
}

#[test]
fn a_full_channel_pushes_back_without_dropping() {
    let mut c = Channel::new(FORWARDING_CAPACITY);
    for i in 0..FORWARDING_CAPACITY {
        assert_eq!(c.try_send(format!("message {}", i)), SendOutcome::Sent);
    }
    // The thirty-third admission attempt is refused, not an error and not a
    // silent drop: the producer is expected to wait and retry.
    assert_eq!(c.try_send("overflow".to_string()), SendOutcome::Full);
    assert_eq!(c.queued_len(), FORWARDING_CAPACITY);
    // One drained slot readmits the waiting producer.
    match c.recv() {
        RecvOutcome::Message(m) => assert_eq!(m, "message 0"),
        _ => panic!("expected the front message"),
    }
    assert_eq!(c.try_send("overflow".to_string()), SendOutcome::Sent);
    assert_eq!(c.queued_len(), FORWARDING_CAPACITY);
}

#[test]
fn a_closed_channel_admits_nothing_but_drains_out() {
    let mut c = Channel::new(4);
    assert_eq!(c.try_send("kept".to_string()), SendOutcome::Sent);
    c.close();
    assert_eq!(c.try_send("refused".to_string()), SendOutcome::Closed);
    match c.recv() {
        RecvOutcome::Message(m) => assert_eq!(m, "kept"),
        _ => panic!("expected the queued message"),
    }
    assert!(matches!(c.recv(), RecvOutcome::Finished));
}

#[test]
fn an_empty_open_channel_asks_the_consumer_to_wait() {
    let mut c = Channel::new(4);
    assert!(matches!(c.recv(), RecvOutcome::Empty));
}

#[test]
fn forwarder_emits_under_the_fixed_event_name() {
    match forwarder_step(Some("payload".to_string()), true) {
        ForwarderAction::Emit(event, payload) => {
            assert_eq!(event, "axum_event");
            assert_eq!(payload, "payload");
        },
        _ => panic!("expected an emission"),
    }
}

#[test]
fn forwarder_drops_without_a_sink_and_stops_on_closure() {
    assert!(matches!(forwarder_step(Some("m".to_string()), false), ForwarderAction::DropMessage));
    assert!(matches!(forwarder_step(None, true), ForwarderAction::Stop));
    assert!(matches!(forwarder_step(None, false), ForwarderAction::Stop));
}

#[test]
fn no_emit_failure_is_fatal() {
    assert!(!emit_failure_is_fatal(&EmitError::NotInstalled));
    assert!(!emit_failure_is_fatal(&EmitError::SinkRejected));
}

#[test]
fn download_scenario_delivers_the_exact_json_text() {
    let raw = "{\"url\":\"http://x/a\",\"hash\":\"deadbeef\",\"remote_id\":7}";
    let mut b = Bridge::new(FORWARDING_CAPACITY);
    b.install_sink();
    let resp = handle_download_file_info(raw.to_string());
    assert_eq!(resp.status, 200);
    let message = resp.message.expect("valid JSON owes the channel a message");
    assert_eq!(b.send(message.clone()), SendOutcome::Sent);
    match b.drain_one() {
        DrainOutcome::Forwarded(m) => {
            // What reaches the sink is the original raw text, under the
            // bridge's event name.
            match forwarder_step(Some(m), b.has_sink()) {
                ForwarderAction::Emit(event, payload) => {
                    assert_eq!(event, "axum_event");
                    assert_eq!(payload, raw);
                },
                _ => panic!("expected an emission"),
            }
        },
        _ => panic!("expected a forwarded message"),
    }
    assert_eq!(b.emitted_so_far(), &[raw]);
}
