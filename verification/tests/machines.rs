use peer_chat::connector::{ConnectAction, Connector, RetryPolicy};
use peer_chat::event::Event;
use peer_chat::receiver::{start, step, Action, Fault, Input, LoopEnd, Phase};
use peer_chat::sender::{Outbound, SendAction, SendError, SendPhase};
use peer_chat::shutdown::{shutdown_step, watch, ShutdownAction, ShutdownInput, ShutdownPhase, CLEAN_EXIT};
use peer_chat::wire::{encode, DecodeError};

fn text(s: &str) -> String {
    String::from(s)
}

#[test]
fn a_new_connector_asks_for_an_attempt() {
    let c = Connector::new();
    assert_eq!(c.attempts(), 0);
    assert!(!c.is_connected());
    assert_eq!(c.next(), ConnectAction::Attempt { delay_ms: 0 });
}

#[test]
fn connector_retries_until_success() {
    let mut c = Connector::new();
    for n in 1..=5u64 {
        assert_eq!(c.record(false), ConnectAction::Attempt { delay_ms: 0 });
        assert_eq!(c.attempts(), n);
        assert!(!c.is_connected());
    }
    assert_eq!(c.record(true), ConnectAction::Finished);
    assert_eq!(c.attempts(), 6);
    assert!(c.is_connected());
    assert_eq!(c.next(), ConnectAction::Finished);
}

#[test]
fn connector_takes_exactly_one_more_attempt_than_failures() {
    for failures in 0..20usize {
        let mut script = vec![false; failures];
        script.push(true);
        let c = Connector::replay(RetryPolicy::relentless(), &script);
        assert!(c.is_connected());
        assert_eq!(c.attempts(), failures as u64 + 1);
        let c = Connector::replay(RetryPolicy::relentless(), &script[..failures]);
        assert!(!c.is_connected());
        assert_eq!(c.attempts(), failures as u64);
    }
}

#[test]
fn connector_ignores_reports_after_success() {
    let c = Connector::replay(RetryPolicy::relentless(), &[false, true, false, true, true]);
    assert!(c.is_connected());
    assert_eq!(c.attempts(), 2);
}

#[test]
fn connector_succeeds_at_once() {
    let c = Connector::replay(RetryPolicy::relentless(), &[true]);
    assert!(c.is_connected());
    assert_eq!(c.attempts(), 1);
    let c = Connector::replay(RetryPolicy::relentless(), &[]);
    assert!(!c.is_connected());
    assert_eq!(c.attempts(), 0);
}

#[test]
fn a_send_opens_writes_and_finishes() {
    let event = Event::Chat(text("A-1"), text("hello"));
    let mut send = Outbound::begin(&event).unwrap();
    assert_eq!(send.phase(), SendPhase::Opening);
    assert_eq!(send.pending(), SendAction::OpenStream);
    assert_eq!(send.payload(), &encode(&event).unwrap());
    assert_eq!(send.payload(), &b"{\"Chat\":[\"A-1\",\"hello\"]}".to_vec());
    assert_eq!(send.advance(true), SendAction::WritePayload);
    assert_eq!(send.phase(), SendPhase::Writing);
    assert_eq!(send.advance(true), SendAction::FinishStream);
    assert_eq!(send.phase(), SendPhase::Finishing);
    assert_eq!(send.advance(true), SendAction::Return(Ok(())));
    assert_eq!(send.phase(), SendPhase::Sent);
    assert_eq!(send.payload(), &encode(&event).unwrap());
}

#[test]
fn a_send_reports_the_step_that_failed() {
    let event = Event::Connected(text("A-1"));
    let mut send = Outbound::begin(&event).unwrap();
    assert_eq!(send.advance(false), SendAction::Return(Err(SendError::Open)));
    let mut send = Outbound::begin(&event).unwrap();
    send.advance(true);
    assert_eq!(send.advance(false), SendAction::Return(Err(SendError::Write)));
    let mut send = Outbound::begin(&event).unwrap();
    send.advance(true);
    send.advance(true);
    assert_eq!(send.advance(false), SendAction::Return(Err(SendError::Finish)));
    assert_eq!(send.phase(), SendPhase::Failed(SendError::Finish));
}

#[test]
fn a_send_is_not_retried() {
    let event = Event::Connected(text("A-1"));
    let mut send = Outbound::begin(&event).unwrap();
    send.advance(false);
    assert_eq!(send.advance(true), SendAction::Return(Err(SendError::Open)));
    assert_eq!(send.advance(true), SendAction::Return(Err(SendError::Open)));
    let mut send = Outbound::begin(&event).unwrap();
    send.advance(true);
    send.advance(true);
    send.advance(true);
    assert_eq!(send.advance(false), SendAction::Return(Ok(())));
}

#[test]
fn the_loop_starts_listening() {
    assert_eq!(start(), (Phase::Listening, Action::Accept));
}

#[test]
fn the_loop_cycles_through_its_phases() {
    let bytes = encode(&Event::Chat(text("A-1"), text("hello"))).unwrap();
    let (phase, action) = step(Phase::Listening, Input::Accepted);
    assert_eq!((phase, action), (Phase::Decoding, Action::Read(8192)));
    let (phase, action) = step(phase, Input::Message(bytes));
    assert_eq!(phase, Phase::Dispatching);
    assert_eq!(action, Action::Dispatch(Event::Chat(text("A-1"), text("hello"))));
    let (phase, action) = step(phase, Input::Dispatched);
    assert_eq!((phase, action), (Phase::Listening, Action::Accept));
}

#[test]
fn closing_while_listening_is_an_orderly_end() {
    let (phase, action) = step(Phase::Listening, Input::SessionClosed);
    assert_eq!(phase, Phase::Stopped(LoopEnd::Orderly));
    assert_eq!(action, Action::Stop(LoopEnd::Orderly));
}

#[test]
fn closing_while_reading_is_an_orderly_end() {
    let (phase, action) = step(Phase::Decoding, Input::SessionClosed);
    assert_eq!(phase, Phase::Stopped(LoopEnd::Orderly));
    assert_eq!(action, Action::Stop(LoopEnd::Orderly));
}

#[test]
fn a_transport_fault_ends_the_loop_as_a_fault() {
    let end = LoopEnd::Faulted(Fault::Transport);
    assert_eq!(step(Phase::Listening, Input::TransportFailed), (Phase::Stopped(end), Action::Stop(end)));
    assert_eq!(step(Phase::Decoding, Input::TransportFailed), (Phase::Stopped(end), Action::Stop(end)));
}

#[test]
fn an_oversized_stream_ends_the_loop_as_a_fault() {
    let end = LoopEnd::Faulted(Fault::TooLarge);
    assert_eq!(step(Phase::Decoding, Input::Oversized), (Phase::Stopped(end), Action::Stop(end)));
    let big = vec![b' '; 8193];
    assert_eq!(step(Phase::Decoding, Input::Message(big)), (Phase::Stopped(end), Action::Stop(end)));
}

#[test]
fn an_undecodable_stream_ends_the_loop_as_a_fault() {
    let end = LoopEnd::Faulted(Fault::Decode(DecodeError::Malformed));
    let got = step(Phase::Decoding, Input::Message(b"hello".to_vec()));
    assert_eq!(got, (Phase::Stopped(end), Action::Stop(end)));
    let end = LoopEnd::Faulted(Fault::Decode(DecodeError::Unrecognized));
    let got = step(Phase::Decoding, Input::Message(b"{\"Joined\":\"A-1\"}".to_vec()));
    assert_eq!(got, (Phase::Stopped(end), Action::Stop(end)));
}

#[test]
fn a_stopped_loop_stays_stopped() {
    let end = LoopEnd::Orderly;
    for input in [Input::Accepted, Input::Dispatched, Input::TransportFailed, Input::Message(vec![])] {
        assert_eq!(step(Phase::Stopped(end), input), (Phase::Stopped(end), Action::Stop(end)));
    }
}

#[test]
fn reports_out_of_place_are_ignored() {
    assert_eq!(step(Phase::Listening, Input::Dispatched), (Phase::Listening, Action::Ignore));
    assert_eq!(step(Phase::Listening, Input::Oversized), (Phase::Listening, Action::Ignore));
    assert_eq!(step(Phase::Listening, Input::Message(vec![])), (Phase::Listening, Action::Ignore));
    assert_eq!(step(Phase::Decoding, Input::Accepted), (Phase::Decoding, Action::Ignore));
    assert_eq!(step(Phase::Dispatching, Input::Accepted), (Phase::Dispatching, Action::Ignore));
    assert_eq!(step(Phase::Dispatching, Input::SessionClosed), (Phase::Dispatching, Action::Ignore));
}

#[test]
fn two_streams_decode_each_by_itself() {
    let first = encode(&Event::Chat(text("A-1"), text("one"))).unwrap();
    let second = encode(&Event::Chat(text("A-1"), text("two"))).unwrap();
    for order in [[first.clone(), second.clone()], [second, first]] {
        let mut phase = start().0;
        for bytes in order {
            let expected = peer_chat::wire::decode(&bytes).unwrap();
            phase = step(phase, Input::Accepted).0;
            let (next, action) = step(phase, Input::Message(bytes));
            assert_eq!(action, Action::Dispatch(expected));
            phase = step(next, Input::Dispatched).0;
            assert_eq!(phase, Phase::Listening);
        }
    }
}

#[test]
fn an_interrupt_closes_then_exits_with_zero() {
    let (phase, action) = watch();
    assert_eq!((phase, action), (ShutdownPhase::Watching, ShutdownAction::AwaitInterrupt));
    let (phase, action) = shutdown_step(phase, ShutdownInput::Interrupt);
    assert_eq!((phase, action), (ShutdownPhase::Closing, ShutdownAction::CloseSession));
    let (phase, action) = shutdown_step(phase, ShutdownInput::Closed);
    assert_eq!((phase, action), (ShutdownPhase::Exited, ShutdownAction::Exit(0)));
    assert_eq!(CLEAN_EXIT, 0);
}

#[test]
fn the_session_is_closed_once() {
    let (phase, action) = shutdown_step(ShutdownPhase::Closing, ShutdownInput::Interrupt);
    assert_eq!((phase, action), (ShutdownPhase::Closing, ShutdownAction::CloseSession));
    let (phase, action) = shutdown_step(ShutdownPhase::Exited, ShutdownInput::Interrupt);
    assert_eq!((phase, action), (ShutdownPhase::Exited, ShutdownAction::Exit(0)));
    let (phase, action) = shutdown_step(ShutdownPhase::Watching, ShutdownInput::Closed);
    assert_eq!((phase, action), (ShutdownPhase::Watching, ShutdownAction::AwaitInterrupt));
}

#[test]
fn a_send_always_starts() {
    for event in [
        Event::Connected(text("")),
        Event::Disconnected(text("\u{0000}")),
        Event::Chat(text("a"), text("\"")),
    ] {
        assert!(Outbound::begin(&event).is_ok());
    }
}

fn patient() -> RetryPolicy {
    RetryPolicy { max_attempts: Some(4), base_delay_ms: 100, max_delay_ms: 1000 }
}

#[test]
fn the_relentless_policy_has_no_limit_and_no_pause() {
    let policy = RetryPolicy::relentless();
    assert_eq!(policy, RetryPolicy { max_attempts: None, base_delay_ms: 0, max_delay_ms: 0 });
    for failures in [0u64, 1, 2, 63, 64, 65, u64::MAX] {
        assert_eq!(policy.delay_after(failures), 0);
    }
}

#[test]
fn the_pause_doubles_up_to_its_ceiling() {
    let policy = patient();
    assert_eq!(policy.delay_after(0), 0);
    assert_eq!(policy.delay_after(1), 100);
    assert_eq!(policy.delay_after(2), 200);
    assert_eq!(policy.delay_after(3), 400);
    assert_eq!(policy.delay_after(4), 800);
    assert_eq!(policy.delay_after(5), 1000);
    assert_eq!(policy.delay_after(6), 1000);
    assert_eq!(policy.delay_after(200), 1000);
    assert_eq!(policy.delay_after(u64::MAX), 1000);
}

#[test]
fn the_pause_survives_large_numbers() {
    let policy = RetryPolicy { max_attempts: None, base_delay_ms: 1 << 62, max_delay_ms: u64::MAX };
    assert_eq!(policy.delay_after(1), 1 << 62);
    assert_eq!(policy.delay_after(2), 1 << 63);
    assert_eq!(policy.delay_after(3), u64::MAX);
    let policy = RetryPolicy { max_attempts: None, base_delay_ms: 1, max_delay_ms: u64::MAX };
    assert_eq!(policy.delay_after(64), 1 << 63);
    assert_eq!(policy.delay_after(65), u64::MAX);
    let policy = RetryPolicy { max_attempts: None, base_delay_ms: 500, max_delay_ms: 100 };
    assert_eq!(policy.delay_after(1), 100);
    let policy = RetryPolicy { max_attempts: None, base_delay_ms: 500, max_delay_ms: 0 };
    assert_eq!(policy.delay_after(3), 0);
}

#[test]
fn a_patient_connector_pauses_and_gives_up() {
    let mut c = Connector::with_policy(patient());
    assert_eq!(c.next(), ConnectAction::Attempt { delay_ms: 0 });
    assert_eq!(c.record(false), ConnectAction::Attempt { delay_ms: 100 });
    assert_eq!(c.record(false), ConnectAction::Attempt { delay_ms: 200 });
    assert_eq!(c.record(false), ConnectAction::Attempt { delay_ms: 400 });
    assert_eq!(c.record(false), ConnectAction::GaveUp);
    assert_eq!(c.attempts(), 4);
    assert_eq!(c.record(true), ConnectAction::GaveUp);
    assert_eq!(c.attempts(), 4);
    assert!(!c.is_connected());
}

#[test]
fn a_patient_connector_connects_within_its_limit() {
    let c = Connector::replay(patient(), &[false, false, false, true]);
    assert!(c.is_connected());
    assert_eq!(c.attempts(), 4);
    assert_eq!(c.next(), ConnectAction::Finished);
    let c = Connector::replay(patient(), &[false, false, false, false, true]);
    assert!(!c.is_connected());
    assert_eq!(c.attempts(), 4);
    let c = Connector::replay(RetryPolicy { max_attempts: Some(0), base_delay_ms: 0, max_delay_ms: 0 }, &[true]);
    assert!(!c.is_connected());
    assert_eq!(c.attempts(), 0);
    assert_eq!(c.next(), ConnectAction::GaveUp);
}
