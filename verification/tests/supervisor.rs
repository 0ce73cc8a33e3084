use drill::manager::{StartAction, TunnelManager};
use drill::tunnels::{StatusUpdate, Tunnel, TunnelError, TunnelStatus};

fn db_tunnel() -> Tunnel {
    Tunnel {
        id: String::from("id-db"),
        name: String::from("db"),
        local_host: String::from("127.0.0.1"),
        local_port: String::from("5432"),
        remote_host: String::from("127.0.0.1"),
        remote_port: String::from("5432"),
        ssh_user: String::from("alice"),
        ssh_host: String::from("bastion.example.com"),
        ssh_port: String::from("22"),
        private_key: String::new(),
    }
}

fn start_connected(m: &mut TunnelManager, t: &Tunnel, pid: u32) {
    match m.start_tunnel(t) {
        StartAction::Spawn(_) => {}
        StartAction::AlreadyActive => panic!("expected a spawn request"),
    }
    m.register_spawn(&t.name, pid, 1_000);
    m.confirm_start(&t.name, None, 1_500).expect("child alive after grace period");
}

#[test]
fn start_spawns_the_documented_invocation() {
    let mut m = TunnelManager::new();
    let t = db_tunnel();
    let args = match m.start_tunnel(&t) {
        StartAction::Spawn(args) => args,
        StartAction::AlreadyActive => panic!("no handle exists yet"),
    };
    let expected = vec![
        "-L",
        "5432:127.0.0.1:5432",
        "-N",
        "-v",
        "-o",
        "ServerAliveInterval=60",
        "-o",
        "ServerAliveCountMax=3",
        "-o",
        "ExitOnForwardFailure=yes",
        "-o",
        "ConnectTimeout=10",
        "-p",
        "22",
        "alice@bastion.example.com",
    ];
    assert_eq!(args, expected);
}

#[test]
fn second_start_is_a_noop_with_one_handle() {
    let mut m = TunnelManager::new();
    let t = db_tunnel();
    start_connected(&mut m, &t, 4242);
    assert!(m.is_tunnel_active("db"));
    match m.start_tunnel(&t) {
        StartAction::AlreadyActive => {}
        StartAction::Spawn(_) => panic!("a second start must not respawn"),
    }
    assert!(m.is_tunnel_active("db"));
    assert!(matches!(m.get_tunnel_status("db"), TunnelStatus::Connected { .. }));
}

#[test]
fn successful_start_emits_exactly_connecting_then_connected() {
    let mut m = TunnelManager::new();
    let t = db_tunnel();
    let sub = m.subscribe();
    start_connected(&mut m, &t, 7);
    let events = m.poll_updates(sub);
    assert_eq!(events.len(), 2);
    assert!(matches!(&events[0], StatusUpdate::Connecting(n) if n == "db"));
    assert!(matches!(&events[1], StatusUpdate::Connected(n) if n == "db"));
    assert!(matches!(m.get_tunnel_status("db"), TunnelStatus::Connected { .. }));
}

#[test]
fn early_exit_fails_the_start_without_any_connected_event() {
    let mut m = TunnelManager::new();
    let t = db_tunnel();
    let sub = m.subscribe();
    match m.start_tunnel(&t) {
        StartAction::Spawn(_) => {}
        StartAction::AlreadyActive => panic!("no handle exists yet"),
    }
    m.register_spawn("db", 7, 0);
    let err = m
        .confirm_start("db", Some(String::from("exit status: 255")), 500)
        .expect_err("an early exit must fail the start");
    match &err {
        TunnelError::UnexpectedTermination(detail) => {
            assert_eq!(detail, "Process exited immediately with status: exit status: 255");
        }
        other => panic!("wrong error kind: {}", other.message()),
    }
    assert!(!m.is_tunnel_active("db"));
    assert!(matches!(m.get_tunnel_status("db"), TunnelStatus::Error { .. }));
    let events = m.poll_updates(sub);
    assert_eq!(events.len(), 2);
    assert!(matches!(&events[0], StatusUpdate::Connecting(n) if n == "db"));
    assert!(matches!(&events[1], StatusUpdate::Error(n, _) if n == "db"));
}

#[test]
fn spawn_failure_fails_the_start_without_any_connected_event() {
    let mut m = TunnelManager::new();
    let t = db_tunnel();
    let sub = m.subscribe();
    match m.start_tunnel(&t) {
        StartAction::Spawn(_) => {}
        StartAction::AlreadyActive => panic!("no handle exists yet"),
    }
    let err = m.fail_spawn("db", String::from("No such file or directory"), 500);
    assert_eq!(err.message(), "Process spawn failed: No such file or directory");
    assert!(!m.is_tunnel_active("db"));
    match m.get_tunnel_status("db") {
        TunnelStatus::Error { error, .. } => {
            assert_eq!(error, "Process spawn failed: No such file or directory");
        }
        _ => panic!("status must be Error after a failed spawn"),
    }
    let events = m.poll_updates(sub);
    assert_eq!(events.len(), 2);
    assert!(matches!(&events[0], StatusUpdate::Connecting(n) if n == "db"));
    assert!(matches!(&events[1], StatusUpdate::Error(n, _) if n == "db"));
}

#[test]
fn stop_without_handle_is_success_with_zero_transitions() {
    let mut m = TunnelManager::new();
    let sub = m.subscribe();
    assert_eq!(m.stop_tunnel("db"), None);
    assert!(m.poll_updates(sub).is_empty());
    assert!(matches!(m.get_tunnel_status("db"), TunnelStatus::Disconnected));
}

#[test]
fn stop_while_connected_ends_disconnected_never_error() {
    let mut m = TunnelManager::new();
    let t = db_tunnel();
    start_connected(&mut m, &t, 31337);
    let sub = m.subscribe();
    assert_eq!(m.stop_tunnel("db"), Some(31337));
    assert!(matches!(m.get_tunnel_status("db"), TunnelStatus::Disconnected));
    // The monitor races with the kill and sees the deliberately terminated
    // child; with the handle gone it must stay quiet.
    let keep = m.monitor_tick("db", Some(String::from("signal: 9")), 9_999);
    assert!(!keep);
    let events = m.poll_updates(sub);
    assert_eq!(events.len(), 1);
    assert!(matches!(&events[0], StatusUpdate::Disconnected(n) if n == "db"));
    assert!(matches!(m.get_tunnel_status("db"), TunnelStatus::Disconnected));
}

#[test]
fn monitor_reports_a_crash_once_and_stops() {
    let mut m = TunnelManager::new();
    let t = db_tunnel();
    start_connected(&mut m, &t, 8);
    let sub = m.subscribe();
    assert!(m.monitor_tick("db", None, 2_000));
    let keep = m.monitor_tick("db", Some(String::from("exit status: 1")), 3_000);
    assert!(!keep);
    assert!(!m.is_tunnel_active("db"));
    match m.get_tunnel_status("db") {
        TunnelStatus::Error { error, .. } => {
            assert_eq!(error, "Tunnel unexpectedly terminated: Exit status: exit status: 1");
        }
        _ => panic!("status must be Error after a crash"),
    }
    let events = m.poll_updates(sub);
    assert_eq!(events.len(), 1);
    assert!(matches!(&events[0], StatusUpdate::Error(n, _) if n == "db"));
    // a later tick finds no handle and does nothing
    assert!(!m.monitor_tick("db", Some(String::from("exit status: 1")), 4_000));
    assert!(m.poll_updates(sub).is_empty());
}

#[test]
fn cleanup_deactivates_every_tunnel_and_is_idempotent() {
    let mut m = TunnelManager::new();
    let mut web = db_tunnel();
    web.name = String::from("web");
    web.id = String::from("id-web");
    let t = db_tunnel();
    start_connected(&mut m, &t, 100);
    start_connected(&mut m, &web, 200);
    let mut pids = m.cleanup();
    pids.sort();
    assert_eq!(pids, vec![100, 200]);
    assert!(!m.is_tunnel_active("db"));
    assert!(!m.is_tunnel_active("web"));
    assert!(m.cleanup().is_empty());
}

#[test]
fn late_subscribers_see_no_history() {
    let mut m = TunnelManager::new();
    let t = db_tunnel();
    let early = m.subscribe();
    start_connected(&mut m, &t, 1);
    let late = m.subscribe();
    assert!(m.poll_updates(late).is_empty());
    assert_eq!(m.poll_updates(early).len(), 2);
    m.stop_tunnel("db");
    assert_eq!(m.poll_updates(late).len(), 1);
    assert_eq!(m.poll_updates(early).len(), 1);
}

#[test]
fn registry_add_get_set() {
    let mut m = TunnelManager::new();
    assert!(m.get_tunnels().is_empty());
    m.add_tunnel(db_tunnel());
    assert_eq!(m.get_tunnels().len(), 1);
    assert_eq!(m.get_tunnels()[0].name, "db");
    m.set_tunnels(Vec::new());
    assert!(m.get_tunnels().is_empty());
}

#[test]
fn update_tunnel_replaces_the_record_by_id() {
    let mut m = TunnelManager::new();
    m.add_tunnel(db_tunnel());
    let mut changed = db_tunnel();
    changed.local_port = String::from("15432");
    m.update_tunnel("id-db", changed).expect("the id is registered");
    assert_eq!(m.get_tunnels()[0].local_port, "15432");
}

#[test]
fn update_tunnel_with_unknown_id_is_a_registry_error() {
    let mut m = TunnelManager::new();
    m.add_tunnel(db_tunnel());
    let err = m.update_tunnel("id-ghost", db_tunnel()).expect_err("unknown id");
    match err {
        TunnelError::RegistryNotFound(detail) => assert_eq!(detail, "id-ghost"),
        other => panic!("wrong error kind: {}", other.message()),
    }
    assert_eq!(m.get_tunnels().len(), 1);
}

#[test]
fn remove_tunnel_stops_and_unregisters() {
    let mut m = TunnelManager::new();
    let t = db_tunnel();
    m.add_tunnel(t.duplicate());
    start_connected(&mut m, &t, 55);
    let pid = m.remove_tunnel("db").expect("the name is registered");
    assert_eq!(pid, Some(55));
    assert!(!m.is_tunnel_active("db"));
    assert!(m.get_tunnels().is_empty());
}

#[test]
fn remove_of_an_unknown_name_is_a_registry_error_and_keeps_the_registry() {
    let mut m = TunnelManager::new();
    m.add_tunnel(db_tunnel());
    let err = m.remove_tunnel("ghost").expect_err("the name is not registered");
    match err {
        TunnelError::RegistryNotFound(detail) => assert_eq!(detail, "ghost"),
        other => panic!("wrong error kind: {}", other.message()),
    }
    assert_eq!(m.get_tunnels().len(), 1);
    assert_eq!(m.get_tunnels()[0].name, "db");
}

#[test]
fn status_of_a_never_started_tunnel_is_disconnected() {
    let m = TunnelManager::new();
    assert!(matches!(m.get_tunnel_status("nowhere"), TunnelStatus::Disconnected));
}

#[test]
fn error_messages_carry_their_kind_and_detail() {
    assert_eq!(
        TunnelError::ProcessSpawnFailed(String::from("x")).message(),
        "Process spawn failed: x"
    );
    assert_eq!(
        TunnelError::UnexpectedTermination(String::from("x")).message(),
        "Tunnel unexpectedly terminated: x"
    );
    assert_eq!(TunnelError::ProbeFailure(String::from("x")).message(), "SSH connection failed: x");
    assert_eq!(
        TunnelError::RegistryNotFound(String::from("x")).message(),
        "Not found in registry: x"
    );
    assert_eq!(
        TunnelError::PersistenceFailure(String::from("x")).message(),
        "Tunnel store failure: x"
    );
}
