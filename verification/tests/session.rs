use loadgen::session::{jitter_millis, Action, Event, Failure, Phase, Session};

fn drive(session: &mut Session, events: &[Event]) -> Vec<Action> {
    let mut actions = Vec::new();
    for e in events {
        actions.push(session.step(*e));
    }
    actions
}

fn count_signals(actions: &[Action]) -> usize {
    actions.iter().filter(|a| matches!(a, Action::SendSignal)).count()
}

fn count_outbound(actions: &[Action]) -> usize {
    actions
        .iter()
        .filter(|a| matches!(a, Action::SendSignal | Action::SendAuth))
        .count()
}

#[test]
fn happy_path_actions_in_order() {
    let mut s = Session::new(3);
    assert_eq!(s.id, 3);
    assert_eq!(s.phase, Phase::Delaying);
    assert_eq!(s.step(Event::DelayElapsed), Action::Connect);
    assert_eq!(s.step(Event::ConnectSucceeded), Action::SendAuth);
    assert_eq!(s.step(Event::SendSucceeded), Action::Receive);
    assert_eq!(s.step(Event::MessageReceived), Action::Receive);
    assert_eq!(s.step(Event::MessageReceived), Action::SendSignal);
    assert_eq!(s.step(Event::SignalDelivered), Action::Receive);
    assert_eq!(s.phase, Phase::Draining);
    assert_eq!(s.step(Event::StreamClosed), Action::Stop);
    assert_eq!(s.phase, Phase::Finished);
    assert_eq!(s.id, 3);
}

#[test]
fn happy_path_signals_exactly_once() {
    let mut s = Session::new(0);
    let actions = drive(
        &mut s,
        &[
            Event::DelayElapsed,
            Event::ConnectSucceeded,
            Event::SendSucceeded,
            Event::MessageReceived,
            Event::MessageReceived,
            Event::SignalDelivered,
            Event::MessageReceived,
            Event::MessageReceived,
            Event::StreamClosed,
        ],
    );
    assert_eq!(count_signals(&actions), 1);
}

#[test]
fn connect_failure_is_silent() {
    let mut s = Session::new(1);
    assert_eq!(s.step(Event::DelayElapsed), Action::Connect);
    assert_eq!(s.step(Event::ConnectFailed), Action::Stop);
    assert_eq!(s.phase, Phase::Failed(Failure::Connect));
}

#[test]
fn all_connections_refused_no_signals() {
    for id in 0..5 {
        let mut s = Session::new(id);
        let actions = drive(&mut s, &[Event::DelayElapsed, Event::ConnectFailed]);
        assert_eq!(count_signals(&actions), 0);
        assert_eq!(s.phase, Phase::Failed(Failure::Connect));
    }
}

#[test]
fn auth_send_failure() {
    let mut s = Session::new(0);
    let actions = drive(
        &mut s,
        &[Event::DelayElapsed, Event::ConnectSucceeded, Event::SendFailed],
    );
    assert_eq!(s.phase, Phase::Failed(Failure::AuthSend));
    assert_eq!(count_signals(&actions), 0);
}

#[test]
fn one_intro_then_close_is_handshake_failure() {
    let mut s = Session::new(0);
    let actions = drive(
        &mut s,
        &[
            Event::DelayElapsed,
            Event::ConnectSucceeded,
            Event::SendSucceeded,
            Event::MessageReceived,
            Event::StreamClosed,
        ],
    );
    assert_eq!(*actions.last().unwrap(), Action::Stop);
    assert_eq!(s.phase, Phase::Failed(Failure::Handshake));
    assert_eq!(count_signals(&actions), 0);
}

#[test]
fn close_before_first_intro_is_handshake_failure() {
    let mut s = Session::new(0);
    drive(
        &mut s,
        &[
            Event::DelayElapsed,
            Event::ConnectSucceeded,
            Event::SendSucceeded,
            Event::StreamFailed,
        ],
    );
    assert_eq!(s.phase, Phase::Failed(Failure::Handshake));
}

#[test]
fn signal_rejected_ends_session() {
    let mut s = Session::new(0);
    drive(
        &mut s,
        &[
            Event::DelayElapsed,
            Event::ConnectSucceeded,
            Event::SendSucceeded,
            Event::MessageReceived,
            Event::MessageReceived,
            Event::SignalRejected,
        ],
    );
    assert_eq!(s.phase, Phase::Failed(Failure::Signal));
}

#[test]
fn long_drain_is_silent() {
    let mut s = Session::new(0);
    drive(
        &mut s,
        &[
            Event::DelayElapsed,
            Event::ConnectSucceeded,
            Event::SendSucceeded,
            Event::MessageReceived,
            Event::MessageReceived,
            Event::SignalDelivered,
        ],
    );
    assert_eq!(s.phase, Phase::Draining);
    let mut drained: Vec<Action> = Vec::new();
    for _ in 0..100 {
        drained.push(s.step(Event::MessageReceived));
    }
    assert_eq!(count_outbound(&drained), 0);
    assert!(drained.iter().all(|a| matches!(a, Action::Receive)));
    assert_eq!(s.step(Event::StreamFailed), Action::Stop);
    assert_eq!(s.phase, Phase::Finished);
}

#[test]
fn auth_is_sent_at_most_once() {
    let mut s = Session::new(0);
    let mut actions = drive(
        &mut s,
        &[
            Event::DelayElapsed,
            Event::ConnectSucceeded,
            Event::SendSucceeded,
            Event::MessageReceived,
            Event::MessageReceived,
            Event::SignalDelivered,
        ],
    );
    for _ in 0..50 {
        actions.push(s.step(Event::MessageReceived));
    }
    actions.push(s.step(Event::StreamClosed));
    let auths = actions.iter().filter(|a| matches!(a, Action::SendAuth)).count();
    assert_eq!(auths, 1);
}

#[test]
fn unexpected_event_fails_session() {
    let mut s = Session::new(0);
    assert_eq!(s.step(Event::MessageReceived), Action::Stop);
    assert_eq!(s.phase, Phase::Failed(Failure::UnexpectedEvent));
}

#[test]
fn terminal_phases_stay_put() {
    let mut s = Session::new(0);
    drive(&mut s, &[Event::DelayElapsed, Event::ConnectFailed]);
    assert_eq!(s.step(Event::MessageReceived), Action::Stop);
    assert_eq!(s.phase, Phase::Failed(Failure::Connect));
}

#[test]
fn jitter_is_below_ten() {
    for _ in 0..1000 {
        assert!(jitter_millis() < 10);
    }
}
