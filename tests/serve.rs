use quinn_conn::connection::check_stop;
use tokio_util::sync::CancellationToken;
use quinn_conn::serve::{ConnAction, ConnEvent, ServeLoop, StreamOutcome, H3_NO_ERROR};

#[test]
fn stop_waits_for_in_flight_stream() {
    let mut l = ServeLoop::new(true);
    assert_eq!(l.step(ConnEvent::StreamOpened(0)).action, ConnAction::Serve(0));
    assert_eq!(l.step(ConnEvent::StopSignaled).action, ConnAction::Wait);
    assert!(l.is_stopping());
    assert!(!l.is_closed());
    assert_eq!(l.step(ConnEvent::StreamOpened(4)).action, ConnAction::Refuse(4));
    assert_eq!(l.in_flight_count(), 1);
    let r = l.step(ConnEvent::StreamEnded(0, StreamOutcome::Completed));
    assert_eq!(r.action, ConnAction::Close(H3_NO_ERROR));
    assert!(!r.report_health);
    assert!(l.is_closed());
}

#[test]
fn stop_with_nothing_in_flight_closes_at_once() {
    let mut l = ServeLoop::new(false);
    assert_eq!(l.step(ConnEvent::StopSignaled).action, ConnAction::Close(0x100));
    assert!(l.is_closed());
    assert_eq!(l.step(ConnEvent::StreamOpened(8)).action, ConnAction::Wait);
}

#[test]
fn peer_failures_reported_handler_failures_not() {
    let mut l = ServeLoop::new(true);
    l.step(ConnEvent::StreamOpened(0));
    l.step(ConnEvent::StreamOpened(4));
    l.step(ConnEvent::StreamOpened(8));
    assert!(l.step(ConnEvent::StreamEnded(0, StreamOutcome::PeerReset)).report_health);
    assert!(!l.step(ConnEvent::StreamEnded(4, StreamOutcome::HandlerFailed)).report_health);
    assert!(l.step(ConnEvent::StreamEnded(8, StreamOutcome::TransportFailed)).report_health);
    assert_eq!(l.in_flight_count(), 0);
    assert!(!l.is_closed());
}

#[test]
fn no_sink_no_report() {
    let mut l = ServeLoop::new(false);
    l.step(ConnEvent::StreamOpened(0));
    assert!(!l.step(ConnEvent::StreamEnded(0, StreamOutcome::PeerReset)).report_health);
}

#[test]
fn duplicate_stream_id_served_once() {
    let mut l = ServeLoop::new(false);
    assert_eq!(l.step(ConnEvent::StreamOpened(12)).action, ConnAction::Serve(12));
    assert_eq!(l.step(ConnEvent::StreamOpened(12)).action, ConnAction::Wait);
    assert_eq!(l.in_flight_count(), 1);
}

#[test]
fn streams_end_in_any_order() {
    let mut l = ServeLoop::new(false);
    for id in [0u64, 4, 8] {
        l.step(ConnEvent::StreamOpened(id));
    }
    l.step(ConnEvent::StopSignaled);
    assert_eq!(l.step(ConnEvent::StreamEnded(8, StreamOutcome::Completed)).action, ConnAction::Wait);
    assert_eq!(l.step(ConnEvent::StreamEnded(0, StreamOutcome::Completed)).action, ConnAction::Wait);
    assert_eq!(l.step(ConnEvent::StreamEnded(4, StreamOutcome::Completed)).action, ConnAction::Close(H3_NO_ERROR));
}

#[test]
fn peer_close_finishes() {
    let mut l = ServeLoop::new(true);
    l.step(ConnEvent::StreamOpened(0));
    let r = l.step(ConnEvent::PeerClosed);
    assert_eq!(r.action, ConnAction::Finish);
    assert!(l.is_closed());
}

#[test]
fn outcome_classification() {
    assert!(StreamOutcome::PeerReset.is_peer_or_network());
    assert!(StreamOutcome::TransportFailed.is_peer_or_network());
    assert!(!StreamOutcome::HandlerFailed.is_peer_or_network());
    assert!(!StreamOutcome::Completed.is_peer_or_network());
}

#[test]
fn stop_token_checked_at_yield_point() {
    let token = CancellationToken::new();
    let mut l = ServeLoop::new(false);
    l.step(ConnEvent::StreamOpened(0));
    let r = check_stop(&mut l, &token);
    assert_eq!(r.action, ConnAction::Wait);
    assert!(!l.is_stopping());
    token.cancel();
    let r = check_stop(&mut l, &token);
    assert_eq!(r.action, ConnAction::Wait);
    assert!(l.is_stopping());
    assert_eq!(l.step(ConnEvent::StreamOpened(4)).action, ConnAction::Refuse(4));
    assert_eq!(
        l.step(ConnEvent::StreamEnded(0, StreamOutcome::Completed)).action,
        ConnAction::Close(H3_NO_ERROR)
    );
}

#[test]
fn stop_token_on_idle_connection_closes() {
    let token = CancellationToken::new();
    token.cancel();
    let mut l = ServeLoop::new(true);
    assert_eq!(check_stop(&mut l, &token).action, ConnAction::Close(H3_NO_ERROR));
    assert!(l.is_closed());
}
