use vindskrivare::acquisition::{
    Acquisition, PollOutcome, RawSample, SensorFault, FAILURE_THRESHOLD,
};
use vindskrivare::fanout::{fan_out, Lane, LANE_CAPACITY};
use vindskrivare::publish::{
    PublishAction, PublishEvent, PublishPhase, PublishWorker,
};
use vindskrivare::readings::Readings;

fn flat_sample(v: i64) -> RawSample {
    RawSample {
        pm1_0: v,
        pm2_5: v,
        pm4_0: v,
        pm10_0: v,
        voc_index: v,
        nox_index: v,
        temperature: v,
        humidity: v,
    }
}

#[test]
fn reinit_after_exactly_threshold_plus_one_faults() {
    let mut acq = Acquisition::new();
    let faults = [
        PollOutcome::NotReady,
        PollOutcome::ReadinessFault(SensorFault::Checksum),
        PollOutcome::ReadinessFault(SensorFault::Transport),
        PollOutcome::MeasurementFault(SensorFault::Internal),
        PollOutcome::MeasurementFault(SensorFault::SelfTest),
        PollOutcome::ReadinessFault(SensorFault::Disallowed),
        PollOutcome::NotReady,
        PollOutcome::NotReady,
        PollOutcome::NotReady,
        PollOutcome::NotReady,
    ];
    // threshold faults: still no reinitialization asked for
    for outcome in faults.iter().take(FAILURE_THRESHOLD as usize) {
        assert_eq!(acq.on_poll(outcome), None);
        assert!(!acq.needs_reinit());
    }
    // fault number threshold + 1 crosses the line, exactly once
    assert_eq!(acq.on_poll(&PollOutcome::NotReady), None);
    assert!(acq.needs_reinit());
    acq.on_reinit_result(true);
    assert!(!acq.needs_reinit());
    assert_eq!(acq.failures, 0);
    // the next successful measurement leaves the counter at zero
    assert_eq!(acq.on_poll(&PollOutcome::NotReady), None);
    assert_eq!(acq.failures, 1);
    let snapshot = acq.on_poll(&PollOutcome::Sample(flat_sample(1_000)));
    assert!(snapshot.is_some());
    assert_eq!(acq.failures, 0);
}

#[test]
fn reinit_failure_is_fatal() {
    let mut acq = Acquisition::new();
    assert!(!acq.is_fatal());
    acq.on_reinit_result(false);
    assert!(acq.is_fatal());
}

#[test]
fn snapshot_metrics_appear_as_their_windows_fill() {
    let mut acq = Acquisition::new();
    let mut last = None;
    for _ in 0..30 {
        last = acq.on_poll(&PollOutcome::Sample(flat_sample(2_000)));
    }
    let r = last.unwrap();
    // the particulate windows (30 samples) are warm, the others not yet
    assert_eq!(r.pm1_0, Some(2_000));
    assert_eq!(r.pm2_5, Some(2_000));
    assert_eq!(r.pm4_0, Some(2_000));
    assert_eq!(r.pm10_0, Some(2_000));
    assert_eq!(r.voc_index, None);
    assert_eq!(r.nox_index, None);
    assert_eq!(r.temperature, None);
    assert_eq!(r.humidity, None);
    for _ in 0..30 {
        last = acq.on_poll(&PollOutcome::Sample(flat_sample(2_000)));
    }
    let r = last.unwrap();
    assert_eq!(r.voc_index, Some(2_000));
    assert_eq!(r.nox_index, Some(2_000));
    assert_eq!(r.temperature, None);
    for _ in 0..30 {
        last = acq.on_poll(&PollOutcome::Sample(flat_sample(2_000)));
    }
    let r = last.unwrap();
    assert_eq!(r.temperature, Some(2_000));
    assert_eq!(r.humidity, Some(2_000));
}

fn tagged(v: i64) -> Readings {
    Readings {
        pm1_0: Some(v),
        pm2_5: None,
        pm4_0: None,
        pm10_0: None,
        voc_index: None,
        nox_index: None,
        temperature: None,
        humidity: None,
    }
}

#[test]
fn full_best_effort_lane_drops_newest_and_spares_guaranteed() {
    let mut guaranteed = Lane::new(LANE_CAPACITY);
    let mut best_effort = Lane::new(1);
    let a = tagged(1);
    let b = tagged(2);
    assert!(!fan_out(&mut guaranteed, &mut best_effort, a));
    // the consumer has not drained; the second snapshot must be dropped
    assert!(fan_out(&mut guaranteed, &mut best_effort, b));
    assert_eq!(best_effort.len(), 1);
    assert_eq!(best_effort.recv(), Some(a));
    assert_eq!(best_effort.recv(), None);
    // the guaranteed lane kept both, in production order
    assert_eq!(guaranteed.len(), 2);
    assert_eq!(guaranteed.recv(), Some(a));
    assert_eq!(guaranteed.recv(), Some(b));
}

#[test]
fn lanes_deliver_in_production_order() {
    let mut lane = Lane::new(4);
    for v in 1..=4 {
        assert!(lane.try_send(tagged(v)));
    }
    assert!(!lane.try_send(tagged(5)));
    for v in 1..=4 {
        assert_eq!(lane.recv(), Some(tagged(v)));
    }
    assert_eq!(lane.recv(), None);
}

#[test]
fn publish_worker_walks_the_connection_lifecycle() {
    let mut w = PublishWorker::new();
    assert_eq!(w.phase, PublishPhase::Disconnected);
    assert_eq!(w.next_action(), PublishAction::Backoff);
    w.on_event(&PublishEvent::BackoffElapsed);
    assert_eq!(w.next_action(), PublishAction::Resolve);
    w.on_event(&PublishEvent::ResolveOk);
    assert_eq!(w.next_action(), PublishAction::Connect);
    w.on_event(&PublishEvent::ConnectOk);
    assert_eq!(w.next_action(), PublishAction::Handshake);
    w.on_event(&PublishEvent::HandshakeOk);
    // announcement exactly once per connection, before steady state
    assert_eq!(w.next_action(), PublishAction::SendAnnouncement);
    w.on_event(&PublishEvent::AnnounceOk);
    assert_eq!(w.next_action(), PublishAction::PublishSnapshot);
    w.on_event(&PublishEvent::PublishOk);
    assert_eq!(w.next_action(), PublishAction::PublishSnapshot);
}

#[test]
fn transport_errors_reconnect_from_backoff() {
    for event in [
        PublishEvent::PublishNetworkError,
        PublishEvent::PublishOtherError,
        PublishEvent::PublishSerializeFailed,
    ] {
        let mut w = PublishWorker::new();
        w.phase = PublishPhase::Publishing;
        w.on_event(&event);
        if event == PublishEvent::PublishNetworkError {
            assert_eq!(w.phase, PublishPhase::Disconnected);
        } else {
            // non-transport faults skip the one publish and stay connected
            assert_eq!(w.phase, PublishPhase::Publishing);
        }
    }
}

#[test]
fn announcement_errors_follow_their_taxonomy() {
    let cases = [
        (PublishEvent::AnnounceNetworkError, PublishPhase::Disconnected),
        (PublishEvent::AnnounceOtherError, PublishPhase::Publishing),
        (PublishEvent::AnnounceSerializeFailed, PublishPhase::Publishing),
    ];
    for (event, expected) in cases {
        let mut w = PublishWorker::new();
        w.phase = PublishPhase::Announced;
        w.on_event(&event);
        assert_eq!(w.phase, expected);
    }
}

#[test]
fn resolve_connect_and_handshake_failures_restart() {
    for (start, event) in [
        (PublishPhase::Resolving, PublishEvent::ResolveFailed),
        (PublishPhase::Connecting, PublishEvent::ConnectFailed),
        (PublishPhase::Handshaking, PublishEvent::HandshakeFailed),
    ] {
        let mut w = PublishWorker::new();
        w.phase = start;
        w.on_event(&event);
        assert_eq!(w.phase, PublishPhase::Disconnected);
    }
}

#[test]
fn stray_events_leave_the_phase_alone() {
    let mut w = PublishWorker::new();
    w.on_event(&PublishEvent::PublishOk);
    assert_eq!(w.phase, PublishPhase::Disconnected);
    w.phase = PublishPhase::Publishing;
    w.on_event(&PublishEvent::BackoffElapsed);
    assert_eq!(w.phase, PublishPhase::Publishing);
}
