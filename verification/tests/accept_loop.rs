use std::io::{Error, ErrorKind};

use tide_openssl::accept::step;
use tide_openssl::{
    is_transient_error, AcceptAction, AcceptErrorKind, AcceptEvent, Phase, ACCEPT_BACKOFF_MILLIS,
};

#[test]
fn connection_errors_are_transient() {
    assert!(is_transient_error(&Error::from(ErrorKind::ConnectionRefused)));
    assert!(is_transient_error(&Error::from(ErrorKind::ConnectionAborted)));
    assert!(is_transient_error(&Error::from(ErrorKind::ConnectionReset)));
}

#[test]
fn other_errors_are_not_transient() {
    assert!(!is_transient_error(&Error::from(ErrorKind::Other)));
    assert!(!is_transient_error(&Error::from(ErrorKind::PermissionDenied)));
    assert!(!is_transient_error(&Error::from(ErrorKind::NotConnected)));
    assert!(!is_transient_error(&Error::from(ErrorKind::BrokenPipe)));
    assert!(!is_transient_error(&Error::from(ErrorKind::TimedOut)));
    assert!(!is_transient_error(&Error::new(ErrorKind::InvalidInput, "too many open files")));
}

#[test]
fn kinds_know_whether_they_are_transient() {
    assert!(AcceptErrorKind::ConnectionRefused.is_transient());
    assert!(AcceptErrorKind::ConnectionAborted.is_transient());
    assert!(AcceptErrorKind::ConnectionReset.is_transient());
    assert!(!AcceptErrorKind::Other.is_transient());
}

#[test]
fn an_error_becomes_the_event_of_its_kind() {
    assert_eq!(
        AcceptEvent::failed(&Error::from(ErrorKind::ConnectionRefused)),
        AcceptEvent::Failed(AcceptErrorKind::ConnectionRefused)
    );
    assert_eq!(
        AcceptEvent::failed(&Error::from(ErrorKind::ConnectionAborted)),
        AcceptEvent::Failed(AcceptErrorKind::ConnectionAborted)
    );
    assert_eq!(
        AcceptEvent::failed(&Error::from(ErrorKind::ConnectionReset)),
        AcceptEvent::Failed(AcceptErrorKind::ConnectionReset)
    );
    assert_eq!(
        AcceptEvent::failed(&Error::from(ErrorKind::OutOfMemory)),
        AcceptEvent::Failed(AcceptErrorKind::Other)
    );
}

#[test]
fn the_backoff_is_half_a_second() {
    assert_eq!(ACCEPT_BACKOFF_MILLIS, 500);
}

#[test]
fn an_accepted_connection_is_served() {
    assert_eq!(
        step(Phase::Accepting, AcceptEvent::Incoming),
        (Phase::Accepting, AcceptAction::Serve)
    );
}

#[test]
fn a_transient_failure_is_retried_at_once() {
    for kind in [
        AcceptErrorKind::ConnectionRefused,
        AcceptErrorKind::ConnectionAborted,
        AcceptErrorKind::ConnectionReset,
    ] {
        let (phase, action) = step(Phase::Accepting, AcceptEvent::Failed(kind));
        assert_eq!(phase, Phase::Accepting);
        assert_eq!(action, AcceptAction::Retry);
        assert_eq!(action.delay_millis(), 0);
    }
}

#[test]
fn a_persistent_failure_waits_the_fixed_delay_and_goes_on() {
    let (phase, action) =
        step(Phase::Accepting, AcceptEvent::Failed(AcceptErrorKind::Other));
    assert_eq!(phase, Phase::Accepting);
    assert_eq!(action, AcceptAction::Backoff { millis: 500 });
    assert_eq!(action.delay_millis(), 500);
}

#[test]
fn transient_failures_then_a_success_spawn_once_and_never_pause() {
    for n in [0usize, 1, 2, 7, 100] {
        let mut phase = Phase::Accepting;
        let mut served = 0;
        let mut paused = 0;
        let mut paused_millis = 0u64;
        let kinds = [
            AcceptErrorKind::ConnectionReset,
            AcceptErrorKind::ConnectionAborted,
            AcceptErrorKind::ConnectionRefused,
        ];
        let mut events: Vec<AcceptEvent> =
            (0..n).map(|i| AcceptEvent::Failed(kinds[i % 3])).collect();
        events.push(AcceptEvent::Incoming);
        for event in events {
            let (next, action) = step(phase, event);
            phase = next;
            if let AcceptAction::Serve = action {
                served += 1;
            }
            if let AcceptAction::Backoff { .. } = action {
                paused += 1;
            }
            paused_millis += action.delay_millis();
        }
        assert_eq!(phase, Phase::Accepting);
        assert_eq!(served, 1);
        assert_eq!(paused, 0);
        assert_eq!(paused_millis, 0);
    }
}

#[test]
fn failures_of_any_kind_never_end_the_loop() {
    let kinds = [
        AcceptErrorKind::Other,
        AcceptErrorKind::ConnectionReset,
        AcceptErrorKind::Other,
        AcceptErrorKind::Other,
        AcceptErrorKind::ConnectionRefused,
    ];
    let mut phase = Phase::Accepting;
    let mut paused_millis = 0u64;
    for kind in kinds {
        let (next, action) = step(phase, AcceptEvent::Failed(kind));
        phase = next;
        paused_millis += action.delay_millis();
        assert!(matches!(action, AcceptAction::Retry | AcceptAction::Backoff { .. }));
    }
    assert_eq!(phase, Phase::Accepting);
    assert_eq!(paused_millis, 1500);
}

#[test]
fn the_end_of_the_incoming_stream_stops_the_listener() {
    assert_eq!(
        step(Phase::Accepting, AcceptEvent::Closed),
        (Phase::Stopped, AcceptAction::Finish)
    );
}

#[test]
fn options_that_cannot_be_set_cost_the_connection_and_nothing_else() {
    let (phase, action) = step(Phase::Accepting, AcceptEvent::OptionsRejected);
    assert_eq!(phase, Phase::Accepting);
    assert_eq!(action, AcceptAction::Discard);
    assert_eq!(action.delay_millis(), 0);
    assert_eq!(step(phase, AcceptEvent::Incoming), (Phase::Accepting, AcceptAction::Serve));
}

#[test]
fn arrivals_one_after_another_are_all_served() {
    for n in [0usize, 1, 2, 50] {
        let mut phase = Phase::Accepting;
        let mut served = 0;
        for _ in 0..n {
            let (next, action) = step(phase, AcceptEvent::Incoming);
            phase = next;
            assert_eq!(action, AcceptAction::Serve);
            assert_eq!(action.delay_millis(), 0);
            served += 1;
        }
        assert_eq!(served, n);
        assert_eq!(phase, Phase::Accepting);
    }
}

#[test]
fn each_event_of_a_mixed_run_is_answered_by_itself() {
    let run = [
        (AcceptEvent::Incoming, AcceptAction::Serve),
        (AcceptEvent::Failed(AcceptErrorKind::Other), AcceptAction::Backoff { millis: 500 }),
        (AcceptEvent::Incoming, AcceptAction::Serve),
        (AcceptEvent::OptionsRejected, AcceptAction::Discard),
        (AcceptEvent::Failed(AcceptErrorKind::ConnectionReset), AcceptAction::Retry),
        (AcceptEvent::Incoming, AcceptAction::Serve),
        (AcceptEvent::Failed(AcceptErrorKind::ConnectionRefused), AcceptAction::Retry),
        (AcceptEvent::Failed(AcceptErrorKind::Other), AcceptAction::Backoff { millis: 500 }),
        (AcceptEvent::OptionsRejected, AcceptAction::Discard),
        (AcceptEvent::Failed(AcceptErrorKind::ConnectionAborted), AcceptAction::Retry),
        (AcceptEvent::Incoming, AcceptAction::Serve),
    ];
    let mut phase = Phase::Accepting;
    let mut served = 0;
    let mut paused_millis = 0u64;
    for (event, expected) in run {
        let (next, action) = step(phase, event);
        phase = next;
        assert_eq!(action, expected);
        assert_eq!(phase, Phase::Accepting);
        if action == AcceptAction::Serve {
            served += 1;
        }
        paused_millis += action.delay_millis();
    }
    assert_eq!(served, 4);
    assert_eq!(paused_millis, 1000);
    assert_eq!(step(phase, AcceptEvent::Closed), (Phase::Stopped, AcceptAction::Finish));
}

#[test]
fn a_stopped_listener_stays_stopped() {
    for event in [
        AcceptEvent::Incoming,
        AcceptEvent::Failed(AcceptErrorKind::Other),
        AcceptEvent::Failed(AcceptErrorKind::ConnectionReset),
        AcceptEvent::OptionsRejected,
        AcceptEvent::Closed,
    ] {
        assert_eq!(
            step(Phase::Stopped, event),
            (Phase::Stopped, AcceptAction::Finish)
        );
    }
}

#[test]
fn an_accept_event_out_of_order_fails_the_listener() {
    for phase in [Phase::Configuring, Phase::Binding, Phase::Fatal] {
        for event in [
            AcceptEvent::Incoming,
            AcceptEvent::Failed(AcceptErrorKind::Other),
            AcceptEvent::Failed(AcceptErrorKind::ConnectionAborted),
            AcceptEvent::OptionsRejected,
            AcceptEvent::Closed,
        ] {
            assert_eq!(step(phase, event), (Phase::Fatal, AcceptAction::Fail));
        }
    }
}

#[test]
fn only_stopped_and_fatal_are_terminal() {
    assert!(!Phase::Configuring.is_terminal());
    assert!(!Phase::Binding.is_terminal());
    assert!(!Phase::Accepting.is_terminal());
    assert!(Phase::Stopped.is_terminal());
    assert!(Phase::Fatal.is_terminal());
}
