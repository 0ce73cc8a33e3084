//! Construction of the argument lists handed to the external SSH client:
//! one list for a forwarding tunnel, one for a one-shot connectivity probe.

use vstd::prelude::*;
use vstd::string::*;
use crate::tunnels::Tunnel;
use crate::tunnels::TunnelView;

verus! {

/// An ASCII blank: space, tab, carriage return or line feed.
pub open spec fn is_space_char(c: char) -> bool {
    c == ' ' || c == '\t' || c == '\n' || c == '\r'
}

/// A string is blank when every character is an ASCII blank.
pub open spec fn spec_is_blank(s: Seq<char>) -> bool {
    forall|i: int| 0 <= i < s.len() ==> is_space_char(s[i])
}

/// Whether the string holds nothing but ASCII blanks.
pub fn is_blank(text: &str) -> (r: bool)
    ensures
        r == spec_is_blank(text@),
{
    let n = text.unicode_len();
    let mut i: usize = 0;
    while i < n
        invariant
            n == text@.len(),
            i <= n,
            forall|j: int| 0 <= j < i ==> is_space_char(text@[j]),
        decreases n - i,
    {
        let c = text.get_char(i);
        if !(c == ' ' || c == '\t' || c == '\n' || c == '\r') {
            return false;
        }
        i = i + 1;
    }
    true
}

/// The local-forwarding specification `localPort:remoteHost:remotePort`.
pub open spec fn spec_local_forward(t: TunnelView) -> Seq<char> {
    t.local_port + ":"@ + t.remote_host + ":"@ + t.remote_port
}

/// The SSH destination `user@host`.
pub open spec fn spec_ssh_target(t: TunnelView) -> Seq<char> {
    t.ssh_user + "@"@ + t.ssh_host
}

/// The identity-file arguments: present exactly when a key path is configured.
pub open spec fn spec_key_args(t: TunnelView) -> Seq<Seq<char>> {
    if spec_is_blank(t.private_key) {
        Seq::empty()
    } else {
        seq!["-i"@, t.private_key]
    }
}

/// The full argument list of a forwarding invocation: local forwarding, no
/// remote command, verbose diagnostics, keep-alive cadence, fail-fast on a
/// failed forward, a short connect timeout, the port flag and the target.
pub open spec fn spec_start_args(t: TunnelView) -> Seq<Seq<char>> {
    spec_key_args(t) + seq![
        "-L"@,
        spec_local_forward(t),
        "-N"@,
        "-v"@,
        "-o"@,
        "ServerAliveInterval=60"@,
        "-o"@,
        "ServerAliveCountMax=3"@,
        "-o"@,
        "ExitOnForwardFailure=yes"@,
        "-o"@,
        "ConnectTimeout=10"@,
        "-p"@,
        t.ssh_port,
        spec_ssh_target(t),
    ]
}

/// The argument list of a one-shot probe: non-interactive batch mode, an
/// aggressive connect timeout, the port flag, the target, and a harmless
/// remote no-op.
pub open spec fn spec_probe_args(t: TunnelView) -> Seq<Seq<char>> {
    spec_key_args(t) + seq![
        "-o"@,
        "BatchMode=yes"@,
        "-o"@,
        "ConnectTimeout=5"@,
        "-p"@,
        t.ssh_port,
        spec_ssh_target(t),
        "echo"@,
        "'SSH connection test successful'"@,
    ]
}

/// The `localPort:remoteHost:remotePort` forwarding specification.
pub fn local_forward(tunnel: &Tunnel) -> (r: String)
    ensures
        r@ == spec_local_forward(tunnel@),
{
    tunnel.local_port.clone().concat(":").concat(tunnel.remote_host.as_str()).concat(
        ":",
    ).concat(tunnel.remote_port.as_str())
}

/// The `user@host` SSH destination.
pub fn ssh_target(tunnel: &Tunnel) -> (r: String)
    ensures
        r@ == spec_ssh_target(tunnel@),
{
    tunnel.ssh_user.clone().concat("@").concat(tunnel.ssh_host.as_str())
}

/// Arguments for spawning the forwarding subprocess for `tunnel`.
pub fn build_start_args(tunnel: &Tunnel) -> (r: Vec<String>)
    ensures
        r.deep_view() == spec_start_args(tunnel@),
{
    let mut r: Vec<String> = Vec::new();
    if !is_blank(tunnel.private_key.as_str()) {
        r.push(String::from_str("-i"));
        r.push(tunnel.private_key.clone());
    }
    r.push(String::from_str("-L"));
    r.push(local_forward(tunnel));
    r.push(String::from_str("-N"));
    r.push(String::from_str("-v"));
    r.push(String::from_str("-o"));
    r.push(String::from_str("ServerAliveInterval=60"));
    r.push(String::from_str("-o"));
    r.push(String::from_str("ServerAliveCountMax=3"));
    r.push(String::from_str("-o"));
    r.push(String::from_str("ExitOnForwardFailure=yes"));
    r.push(String::from_str("-o"));
    r.push(String::from_str("ConnectTimeout=10"));
    r.push(String::from_str("-p"));
    r.push(tunnel.ssh_port.clone());
    r.push(ssh_target(tunnel));
    proof {
        assert(r.deep_view() =~= spec_start_args(tunnel@));
    }
    r
}

/// Arguments for spawning the one-shot connectivity probe for `tunnel`.
pub fn build_probe_args(tunnel: &Tunnel) -> (r: Vec<String>)
    ensures
        r.deep_view() == spec_probe_args(tunnel@),
{
    let mut r: Vec<String> = Vec::new();
    if !is_blank(tunnel.private_key.as_str()) {
        r.push(String::from_str("-i"));
        r.push(tunnel.private_key.clone());
    }
    r.push(String::from_str("-o"));
    r.push(String::from_str("BatchMode=yes"));
    r.push(String::from_str("-o"));
    r.push(String::from_str("ConnectTimeout=5"));
    r.push(String::from_str("-p"));
    r.push(tunnel.ssh_port.clone());
    r.push(ssh_target(tunnel));
    r.push(String::from_str("echo"));
    r.push(String::from_str("'SSH connection test successful'"));
    proof {
        assert(r.deep_view() =~= spec_probe_args(tunnel@));
    }
    r
}

} // verus!
