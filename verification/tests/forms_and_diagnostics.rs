use drill::command::{build_probe_args, build_start_args, is_blank};
use drill::diagnose::{classify_stderr_line, interpret_probe_output, trim_text, LineDiagnostic};
use drill::tunnels::{Tunnel, TunnelError, TunnelStatus};
use drill::windows::{
    get_tunnel_display_name, tunnel_menu_action, update_tunnel_form_field,
    validate_and_create_tunnel, FormMode, MenuAction, TunnelFormField, WindowType,
};

fn keyed_tunnel() -> Tunnel {
    Tunnel {
        id: String::from("id-db"),
        name: String::from("db"),
        local_host: String::from("127.0.0.1"),
        local_port: String::from("5432"),
        remote_host: String::from("127.0.0.1"),
        remote_port: String::from("5432"),
        ssh_user: String::from("alice"),
        ssh_host: String::from("bastion.example.com"),
        ssh_port: String::from("22"),
        private_key: String::from("/home/alice/.ssh/id_ed25519"),
    }
}

#[test]
fn a_configured_key_adds_the_identity_flag_first() {
    let t = keyed_tunnel();
    let args = build_start_args(&t);
    assert_eq!(args[0], "-i");
    assert_eq!(args[1], "/home/alice/.ssh/id_ed25519");
    assert_eq!(args[2], "-L");
}

#[test]
fn a_blank_key_adds_no_identity_flag() {
    let mut t = keyed_tunnel();
    t.private_key = String::from("   ");
    let args = build_start_args(&t);
    assert_eq!(args[0], "-L");
    assert!(!args.contains(&String::from("-i")));
}

#[test]
fn probe_arguments_are_batch_mode_with_a_short_timeout() {
    let mut t = keyed_tunnel();
    t.private_key = String::new();
    let args = build_probe_args(&t);
    let expected = vec![
        "-o",
        "BatchMode=yes",
        "-o",
        "ConnectTimeout=5",
        "-p",
        "22",
        "alice@bastion.example.com",
        "echo",
        "'SSH connection test successful'",
    ];
    assert_eq!(args, expected);
}

#[test]
fn blankness_follows_ascii_whitespace() {
    assert!(is_blank(""));
    assert!(is_blank(" \t\r\n"));
    assert!(!is_blank(" x "));
}

#[test]
fn auth_failures_are_detected_case_insensitively() {
    assert_eq!(
        classify_stderr_line("Permission denied (publickey,password)."),
        LineDiagnostic::AuthenticationFailure
    );
    assert_eq!(
        classify_stderr_line("AUTHENTICATION FAILED for user"),
        LineDiagnostic::AuthenticationFailure
    );
}

#[test]
fn connection_failures_are_detected() {
    assert_eq!(
        classify_stderr_line("connect to host x port 22: Connection refused"),
        LineDiagnostic::ConnectionFailure
    );
    assert_eq!(
        classify_stderr_line("connect to host x port 22: Connection timed out"),
        LineDiagnostic::ConnectionFailure
    );
}

#[test]
fn port_in_use_needs_both_patterns() {
    assert_eq!(
        classify_stderr_line("bind [127.0.0.1]:5432: Address already in use"),
        LineDiagnostic::PortInUse
    );
    assert_eq!(classify_stderr_line("bind failed somehow"), LineDiagnostic::Unremarkable);
}

#[test]
fn dns_failures_are_detected() {
    assert_eq!(
        classify_stderr_line("ssh: Could not resolve hostname bastion: Name or service not known"),
        LineDiagnostic::DnsFailure
    );
}

#[test]
fn ordinary_verbose_output_is_unremarkable() {
    assert_eq!(
        classify_stderr_line("debug1: Reading configuration data /etc/ssh/ssh_config"),
        LineDiagnostic::Unremarkable
    );
}

#[test]
fn probe_success_yields_the_fixed_message() {
    let msg = interpret_probe_output(true, "").expect("success outcome");
    assert_eq!(msg, "✓ SSH connection successful! You can now create the tunnel.");
}

#[test]
fn probe_failure_carries_the_trimmed_diagnostics() {
    let err = interpret_probe_output(false, "  Permission denied (publickey).\n")
        .expect_err("failure outcome");
    match err {
        TunnelError::ProbeFailure(detail) => {
            assert_eq!(detail, "Permission denied (publickey).");
        }
        other => panic!("wrong error kind: {}", other.message()),
    }
}

#[test]
fn trimming_strips_both_ends_only() {
    assert_eq!(trim_text("  a b \n"), "a b");
    assert_eq!(trim_text(""), "");
    assert_eq!(trim_text(" \t "), "");
    assert_eq!(trim_text("x"), "x");
}

#[test]
fn validation_reports_the_first_missing_field() {
    let e = |r: Result<Tunnel, String>| r.expect_err("a required field is blank");
    assert_eq!(
        e(validate_and_create_tunnel("", "h", "1", "rh", "2", "u", "sh", "22", "")),
        "Name is required"
    );
    assert_eq!(
        e(validate_and_create_tunnel("n", "h", " ", "rh", "2", "u", "sh", "22", "")),
        "Local port is required"
    );
    assert_eq!(
        e(validate_and_create_tunnel("n", "h", "1", "", "2", "u", "sh", "22", "")),
        "Remote host is required"
    );
    assert_eq!(
        e(validate_and_create_tunnel("n", "h", "1", "rh", "\t", "u", "sh", "22", "")),
        "Remote port is required"
    );
    assert_eq!(
        e(validate_and_create_tunnel("n", "h", "1", "rh", "2", "", "sh", "22", "")),
        "SSH user is required"
    );
    assert_eq!(
        e(validate_and_create_tunnel("n", "h", "1", "rh", "2", "u", "  ", "22", "")),
        "SSH host is required"
    );
}

#[test]
fn validation_builds_the_record_with_a_fresh_id() {
    let a = validate_and_create_tunnel(
        "db", "127.0.0.1", "5432", "10.0.0.5", "5432", "alice", "bastion", "22", "",
    )
    .expect("every required field is present");
    assert_eq!(a.id.len(), 36);
    assert_eq!(a.name, "db");
    assert_eq!(a.local_host, "127.0.0.1");
    assert_eq!(a.local_port, "5432");
    assert_eq!(a.remote_host, "10.0.0.5");
    assert_eq!(a.remote_port, "5432");
    assert_eq!(a.ssh_user, "alice");
    assert_eq!(a.ssh_host, "bastion");
    assert_eq!(a.ssh_port, "22");
    assert_eq!(a.private_key, "");
    let b = validate_and_create_tunnel(
        "db", "127.0.0.1", "5432", "10.0.0.5", "5432", "alice", "bastion", "22", "",
    )
    .expect("every required field is present");
    assert_ne!(a.id, b.id);
}

#[test]
fn creation_form_starts_with_the_customary_defaults() {
    match WindowType::new_tunnel_form_create() {
        WindowType::TunnelForm { mode, name, local_host, ssh_port, error_message, .. } => {
            assert!(matches!(mode, FormMode::Create));
            assert_eq!(name, "");
            assert_eq!(local_host, "127.0.0.1");
            assert_eq!(ssh_port, "22");
            assert!(error_message.is_none());
        }
        WindowType::About => panic!("a creation form is a tunnel form"),
    }
}

#[test]
fn edit_form_is_preloaded_with_the_tunnel() {
    let t = keyed_tunnel();
    match WindowType::new_tunnel_form_edit(&t) {
        WindowType::TunnelForm { mode, name, private_key, .. } => {
            assert!(matches!(mode, FormMode::Edit { tunnel_id } if tunnel_id == "id-db"));
            assert_eq!(name, "db");
            assert_eq!(private_key, "/home/alice/.ssh/id_ed25519");
        }
        WindowType::About => panic!("an edit form is a tunnel form"),
    }
}

#[test]
fn editing_one_field_leaves_the_others() {
    let w = WindowType::new_tunnel_form_create();
    let w = update_tunnel_form_field(w, TunnelFormField::Name(String::from("db")));
    let w = update_tunnel_form_field(w, TunnelFormField::LocalPort(String::from("5432")));
    match w {
        WindowType::TunnelForm { name, local_host, local_port, ssh_port, .. } => {
            assert_eq!(name, "db");
            assert_eq!(local_port, "5432");
            assert_eq!(local_host, "127.0.0.1");
            assert_eq!(ssh_port, "22");
        }
        WindowType::About => panic!("still a tunnel form"),
    }
}

#[test]
fn the_tray_offers_connect_only_when_nothing_runs() {
    assert_eq!(tunnel_menu_action(&TunnelStatus::Disconnected), MenuAction::Connect);
    assert_eq!(
        tunnel_menu_action(&TunnelStatus::Error {
            error: String::from("x"),
            occurred_at_millis: 1
        }),
        MenuAction::Connect
    );
    assert_eq!(tunnel_menu_action(&TunnelStatus::Connecting), MenuAction::Disconnect);
    assert_eq!(
        tunnel_menu_action(&TunnelStatus::Connected { connected_at_millis: 1 }),
        MenuAction::Disconnect
    );
}

#[test]
fn display_names_carry_the_status_indicator() {
    assert_eq!(get_tunnel_display_name("db", TunnelStatus::Disconnected), "○ db");
    assert_eq!(get_tunnel_display_name("db", TunnelStatus::Connecting), "◐ db");
    assert_eq!(
        get_tunnel_display_name("db", TunnelStatus::Connected { connected_at_millis: 1 }),
        "● db"
    );
    assert_eq!(
        get_tunnel_display_name(
            "db",
            TunnelStatus::Error { error: String::from("x"), occurred_at_millis: 1 }
        ),
        "✗ db"
    );
}
