use drill::store::{parse_tunnel_store, render_tunnel_store};
use drill::tunnels::{Tunnel, TunnelError};

fn sample(name: &str, port: &str) -> Tunnel {
    Tunnel {
        id: format!("id-{}", name),
        name: String::from(name),
        local_host: String::from("127.0.0.1"),
        local_port: String::from(port),
        remote_host: String::from("10.0.0.5"),
        remote_port: String::from(port),
        ssh_user: String::from("alice"),
        ssh_host: String::from("bastion.example.com"),
        ssh_port: String::from("22"),
        private_key: String::from("/home/alice/.ssh/id_ed25519"),
    }
}

fn fields(t: &Tunnel) -> Vec<String> {
    vec![
        t.id.clone(),
        t.name.clone(),
        t.local_host.clone(),
        t.local_port.clone(),
        t.remote_host.clone(),
        t.remote_port.clone(),
        t.ssh_user.clone(),
        t.ssh_host.clone(),
        t.ssh_port.clone(),
        t.private_key.clone(),
    ]
}

#[test]
fn empty_store_renders_as_the_empty_marker() {
    let none: Vec<Tunnel> = Vec::new();
    assert_eq!(render_tunnel_store(&none), "[]\n");
}

#[test]
fn missing_and_empty_content_both_load_as_no_tunnels() {
    assert!(parse_tunnel_store("").unwrap().is_empty());
    assert!(parse_tunnel_store("[]\n").unwrap().is_empty());
}

#[test]
fn one_record_renders_line_by_line() {
    let t = Tunnel {
        id: String::from("abc"),
        name: String::from("db"),
        local_host: String::from("127.0.0.1"),
        local_port: String::from("5432"),
        remote_host: String::from("127.0.0.1"),
        remote_port: String::from("5432"),
        ssh_user: String::from("alice"),
        ssh_host: String::from("bastion.example.com"),
        ssh_port: String::from("22"),
        private_key: String::new(),
    };
    let text = render_tunnel_store(&vec![t]);
    let expected = "- id: \"abc\"\n  name: \"db\"\n  local_host: \"127.0.0.1\"\n  local_port: \"5432\"\n  remote_host: \"127.0.0.1\"\n  remote_port: \"5432\"\n  ssh_user: \"alice\"\n  ssh_host: \"bastion.example.com\"\n  ssh_port: \"22\"\n  private_key: \"\"\n";
    assert_eq!(text, expected);
}

#[test]
fn round_trip_preserves_every_record() {
    let tunnels = vec![sample("db", "5432"), sample("web", "8080")];
    let text = render_tunnel_store(&tunnels);
    let loaded = parse_tunnel_store(&text).expect("a rendered store parses");
    assert_eq!(loaded.len(), 2);
    for (a, b) in tunnels.iter().zip(loaded.iter()) {
        assert_eq!(fields(a), fields(b));
    }
}

#[test]
fn round_trip_preserves_special_characters() {
    let mut t = sample("odd", "1");
    t.name = String::from("a\"b\\c\nd");
    t.private_key = String::from("  spaces kept  ");
    let text = render_tunnel_store(&vec![t.duplicate()]);
    let loaded = parse_tunnel_store(&text).expect("escaped values parse back");
    assert_eq!(loaded.len(), 1);
    assert_eq!(loaded[0].name, "a\"b\\c\nd");
    assert_eq!(loaded[0].private_key, "  spaces kept  ");
}

#[test]
fn save_after_load_is_byte_identical() {
    let tunnels = vec![sample("db", "5432"), sample("web", "8080"), sample("odd", "1")];
    // the first save of what was loaded
    let s1 = render_tunnel_store(&parse_tunnel_store(&render_tunnel_store(&tunnels)).unwrap());
    // load it back and save again
    let l2 = parse_tunnel_store(&s1).unwrap();
    let s2 = render_tunnel_store(&l2);
    assert_eq!(s1, s2);
}

#[test]
fn a_wellformed_store_is_reproduced_byte_for_byte() {
    let text = "- id: \"abc\"\n  name: \"db\"\n  local_host: \"127.0.0.1\"\n  local_port: \"5432\"\n  remote_host: \"127.0.0.1\"\n  remote_port: \"5432\"\n  ssh_user: \"alice\"\n  ssh_host: \"bastion.example.com\"\n  ssh_port: \"22\"\n  private_key: \"\"\n";
    let loaded = parse_tunnel_store(text).expect("the text is well-formed");
    assert_eq!(render_tunnel_store(&loaded), text);
    assert_eq!(render_tunnel_store(&parse_tunnel_store("[]\n").unwrap()), "[]\n");
}

#[test]
fn malformed_store_text_is_a_persistence_failure() {
    let err = parse_tunnel_store("- id: unquoted\n").expect_err("malformed text");
    match err {
        TunnelError::PersistenceFailure(detail) => {
            assert_eq!(detail, "malformed tunnel store");
        }
        other => panic!("wrong error kind: {}", other.message()),
    }
    assert!(parse_tunnel_store("garbage").is_err());
    // a truncated record is rejected, not half-read
    let full = render_tunnel_store(&vec![sample("db", "5432")]);
    let truncated = &full[..full.len() - 2];
    assert!(parse_tunnel_store(truncated).is_err());
}
