use opendeck_ajazz_n1::faults::{should_continue, Fault};
use opendeck_ajazz_n1::registry::Registry;
use opendeck_ajazz_n1::session::{Session, SessionAction, SessionEvent, SessionState};
use opendeck_ajazz_n1::supervisor::Supervisor;

#[test]
fn fault_policy() {
    assert!(!should_continue(Fault::Transport));
    assert!(should_continue(Fault::Protocol));
    assert!(should_continue(Fault::Image));
    assert!(should_continue(Fault::Consumer));
}

#[test]
fn session_startup_with_handshake() {
    let (mut s, first) = Session::new(true);
    assert_eq!(first, SessionAction::Open);
    assert_eq!(s.handle(SessionEvent::Done), SessionAction::SetMode(3));
    assert_eq!(s.state, SessionState::ModeHandshake);
    assert_eq!(s.handle(SessionEvent::Done), SessionAction::Initialize);
    assert_eq!(s.handle(SessionEvent::Done), SessionAction::Serve);
    assert_eq!(s.state, SessionState::Running);
}

#[test]
fn session_startup_without_handshake() {
    let (mut s, _) = Session::new(false);
    assert_eq!(s.handle(SessionEvent::Done), SessionAction::Initialize);
    assert_eq!(s.state, SessionState::Ready);
}

#[test]
fn connect_failure_aborts_before_registration() {
    let (mut s, _) = Session::new(true);
    assert_eq!(s.handle(SessionEvent::Failed(Fault::Transport)), SessionAction::Abort);
    assert!(s.is_closed());
    let (mut h, _) = Session::new(true);
    h.handle(SessionEvent::Done);
    assert_eq!(h.handle(SessionEvent::Failed(Fault::Transport)), SessionAction::Abort);
    assert!(h.is_closed());
}

#[test]
fn cancel_after_registration_tears_down() {
    let (mut s, _) = Session::new(false);
    assert_eq!(s.handle(SessionEvent::Done), SessionAction::Initialize);
    assert_eq!(s.handle(SessionEvent::Cancelled), SessionAction::Teardown);
    assert_eq!(s.state, SessionState::Draining);
    let (mut f, _) = Session::new(false);
    f.handle(SessionEvent::Done);
    assert_eq!(f.handle(SessionEvent::Failed(Fault::Consumer)), SessionAction::Abort);
    assert!(f.is_closed());
}

#[test]
fn session_numbers_advance() {
    let mut s: Supervisor<&str, u32> = Supervisor::new();
    assert_eq!(s.on_connected("N1-A".to_string(), 1), Some(0));
    assert_eq!(s.next_number, 1);
    assert_eq!(s.on_connected("N1-A".to_string(), 2), None);
    assert_eq!(s.next_number, 1);
    assert_eq!(s.on_connected("N1-B".to_string(), 3), Some(1));
    s.next_number = u64::MAX;
    assert_eq!(s.on_connected("N1-C".to_string(), 4), Some(u64::MAX));
    assert_eq!(s.next_number, 0);
}

fn running() -> Session {
    let (mut s, _) = Session::new(false);
    s.handle(SessionEvent::Done);
    s.handle(SessionEvent::Done);
    s
}

#[test]
fn transient_faults_keep_serving() {
    let mut s = running();
    assert_eq!(s.handle(SessionEvent::Failed(Fault::Protocol)), SessionAction::Serve);
    assert_eq!(s.handle(SessionEvent::Failed(Fault::Image)), SessionAction::Serve);
    assert_eq!(s.handle(SessionEvent::Failed(Fault::Consumer)), SessionAction::Serve);
    assert_eq!(s.state, SessionState::Running);
    assert_eq!(s.handle(SessionEvent::Failed(Fault::Transport)), SessionAction::Teardown);
    assert_eq!(s.state, SessionState::Draining);
}

#[test]
fn cancellation_tears_down_once() {
    let mut s = running();
    let mut teardowns = 0;
    let events = [
        SessionEvent::Cancelled,
        SessionEvent::Cancelled,
        SessionEvent::Failed(Fault::Transport),
        SessionEvent::Done,
        SessionEvent::Cancelled,
    ];
    for e in events {
        if s.handle(e) == SessionAction::Teardown {
            teardowns += 1;
        }
        assert_ne!(s.state, SessionState::Running);
    }
    assert_eq!(teardowns, 1);
    assert!(s.is_closed());
}

#[test]
fn registry_operations() {
    let mut r: Registry<u32> = Registry::new();
    let a = "N1-A".to_string();
    let b = "N1-B".to_string();
    assert_eq!(r.insert(a.clone(), 1), None);
    assert_eq!(r.insert(b.clone(), 2), None);
    assert_eq!(r.insert(a.clone(), 3), Some(1));
    assert_eq!(r.len(), 2);
    assert_eq!(r.get(&a), Some(&3));
    assert!(r.contains(&b));
    assert_eq!(r.remove(&b), Some(2));
    assert_eq!(r.remove(&b), None);
    assert!(!r.contains(&b));
    assert_eq!(r.ids(), vec![a]);
}

#[test]
fn duplicate_connect_spawns_once() {
    let mut s: Supervisor<&str, u32> = Supervisor::new();
    let id = "N1-SERIAL".to_string();
    assert_eq!(s.on_connected(id.clone(), 1), Some(0));
    assert_eq!(s.on_connected(id.clone(), 2), None);
    assert_eq!(s.live_ids(), vec![id.clone()]);
    assert_eq!(s.token(&id), Some(&1));
}

#[test]
fn disconnect_and_reconnect() {
    let mut s: Supervisor<&str, u32> = Supervisor::new();
    let id = "N1-X".to_string();
    let first = s.on_connected(id.clone(), 1).unwrap();
    assert_eq!(s.attach_device(id.clone(), first, "dev"), None);
    assert_eq!(s.device(&id), Some(&"dev"));
    assert_eq!(s.disconnect(&id), Some(1));
    assert!(!s.is_live(&id));
    assert_eq!(s.device(&id), None);
    assert_eq!(s.disconnect(&id), None);
    let second = s.on_connected(id.clone(), 2).unwrap();
    assert_ne!(first, second);
    assert_eq!(s.attach_device(id.clone(), first, "stale"), Some("stale"));
    assert_eq!(s.attach_device("N1-OTHER".to_string(), second, "stray"), Some("stray"));
    assert_eq!(s.live_ids().len(), 1);
}

#[test]
fn stale_teardown_leaves_new_session() {
    let mut s: Supervisor<&str, u32> = Supervisor::new();
    let id = "N1-Y".to_string();
    let old = s.on_connected(id.clone(), 10).unwrap();
    assert_eq!(s.disconnect(&id), Some(10));
    let new = s.on_connected(id.clone(), 11).unwrap();
    assert_eq!(s.attach_device(id.clone(), new, "dev"), None);
    assert_eq!(s.end_session(&id, old), None);
    assert!(s.is_live(&id));
    assert_eq!(s.device(&id), Some(&"dev"));
    assert_eq!(s.end_session(&id, new), Some(11));
    assert!(!s.is_live(&id));
    assert_eq!(s.device(&id), None);
}
