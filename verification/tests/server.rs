use grpcweb_proxy::server::{next_action, ProxyAction, ProxyEvent};

#[test]
fn accepted_connections_are_served() {
    assert!(matches!(next_action(&ProxyEvent::Accepted), ProxyAction::Serve));
}

#[test]
fn failed_accepts_do_not_stop_the_loop() {
    assert!(matches!(next_action(&ProxyEvent::AcceptFailed), ProxyAction::ReportAndContinue));
}

#[test]
fn only_a_raised_signal_stops_the_loop() {
    assert!(matches!(next_action(&ProxyEvent::ShutdownSignal(true)), ProxyAction::Stop));
    assert!(matches!(next_action(&ProxyEvent::ShutdownSignal(false)), ProxyAction::Continue));
}
