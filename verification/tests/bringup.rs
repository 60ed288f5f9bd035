use vindskrivare::netup::{NetBringUp, NetEvent, NetPhase, DHCP_RETRIES, LINK_RETRIES};
use vindskrivare::render::ConnectionStage;

#[test]
fn join_is_retried_for_as_long_as_it_takes() {
    let mut net = NetBringUp::new();
    assert_eq!(net.stage_screen(), Some(ConnectionStage::Wifi));
    for _ in 0..1000 {
        net.on_event(&NetEvent::JoinFailed);
        assert_eq!(net.phase, NetPhase::Joining);
    }
    net.on_event(&NetEvent::JoinOk);
    assert_eq!(net.phase, NetPhase::WaitingDhcp);
    assert_eq!(net.stage_screen(), Some(ConnectionStage::Dhcp));
}

#[test]
fn address_wait_fails_after_its_budget() {
    let mut net = NetBringUp::new();
    net.on_event(&NetEvent::JoinOk);
    for _ in 0..DHCP_RETRIES - 1 {
        net.on_event(&NetEvent::DhcpNotYet);
        assert_eq!(net.phase, NetPhase::WaitingDhcp);
        assert!(!net.is_failed());
    }
    net.on_event(&NetEvent::DhcpNotYet);
    assert_eq!(net.phase, NetPhase::Failed);
    assert!(net.is_failed());
    assert_eq!(net.stage_screen(), None);
}

#[test]
fn link_wait_fails_after_its_budget() {
    let mut net = NetBringUp::new();
    net.on_event(&NetEvent::JoinOk);
    net.on_event(&NetEvent::DhcpUp);
    assert_eq!(net.phase, NetPhase::WaitingLink);
    for _ in 0..LINK_RETRIES - 1 {
        net.on_event(&NetEvent::LinkNotYet);
        assert_eq!(net.phase, NetPhase::WaitingLink);
    }
    net.on_event(&NetEvent::LinkNotYet);
    assert!(net.is_failed());
}

#[test]
fn clean_bring_up_reaches_ready() {
    let mut net = NetBringUp::new();
    net.on_event(&NetEvent::JoinOk);
    net.on_event(&NetEvent::DhcpNotYet);
    net.on_event(&NetEvent::DhcpUp);
    net.on_event(&NetEvent::LinkNotYet);
    net.on_event(&NetEvent::LinkUp);
    assert!(net.is_up());
    assert_eq!(net.stage_screen(), Some(ConnectionStage::Ready));
}

#[test]
fn stray_events_change_nothing() {
    let mut net = NetBringUp::new();
    net.on_event(&NetEvent::DhcpUp);
    net.on_event(&NetEvent::LinkUp);
    assert_eq!(net.phase, NetPhase::Joining);
}
