//! The on-disk tunnel store: a human-editable, line-oriented text format,
//! one block of `key: "value"` lines per tunnel, values quoted with
//! backslash escapes so that every string round-trips. An empty store is
//! written as `[]` on a line of its own. Rendering and parsing are defined
//! here as mathematical functions and the executable encoder and parser
//! are proved against them. Parsing what was rendered is proved to give
//! back exactly what was rendered, and conversely the parser accepts
//! nothing but canonical renderings — so loading a well-formed store and
//! saving it back reproduces the file byte for byte.

use vstd::prelude::*;
use vstd::string::*;
use crate::tunnels::{ErrorView, Tunnel, TunnelError, TunnelView};

verus! {

/// How one character is written inside a quoted value: backslash, newline
/// and double quote are escaped, everything else stands for itself.
pub open spec fn esc_char(c: char) -> Seq<char> {
    if c == '\\' {
        seq!['\\', '\\']
    } else if c == '\n' {
        seq!['\\', 'n']
    } else if c == '"' {
        seq!['\\', '"']
    } else {
        seq![c]
    }
}

/// A whole value, written character for character.
pub open spec fn spec_escape(s: Seq<char>) -> Seq<char>
    decreases s.len(),
{
    if s.len() == 0 {
        Seq::empty()
    } else {
        esc_char(s[0]) + spec_escape(s.skip(1))
    }
}

/// One line of the store: its key prefix (which ends with the opening
/// quote), the escaped value, the closing quote and the line break.
pub open spec fn spec_line(prefix: Seq<char>, v: Seq<char>) -> Seq<char> {
    prefix + spec_escape(v) + seq!['"', '\n']
}

/// One tunnel record: its ten fields, in the store's fixed order.
pub open spec fn spec_encode_tunnel(t: TunnelView) -> Seq<char> {
    spec_line("- id: \""@, t.id) + spec_line("  name: \""@, t.name) + spec_line(
        "  local_host: \""@,
        t.local_host,
    ) + spec_line("  local_port: \""@, t.local_port) + spec_line(
        "  remote_host: \""@,
        t.remote_host,
    ) + spec_line("  remote_port: \""@, t.remote_port) + spec_line(
        "  ssh_user: \""@,
        t.ssh_user,
    ) + spec_line("  ssh_host: \""@, t.ssh_host) + spec_line(
        "  ssh_port: \""@,
        t.ssh_port,
    ) + spec_line("  private_key: \""@, t.private_key)
}

/// A sequence of records, one block after the other.
pub open spec fn spec_encode_list(ts: Seq<TunnelView>) -> Seq<char>
    decreases ts.len(),
{
    if ts.len() == 0 {
        Seq::empty()
    } else {
        spec_encode_tunnel(ts[0]) + spec_encode_list(ts.skip(1))
    }
}

/// The rendered store: the empty marker for no tunnels, else the blocks.
pub open spec fn spec_encode(ts: Seq<TunnelView>) -> Seq<char> {
    if ts.len() == 0 {
        "[]\n"@
    } else {
        spec_encode_list(ts)
    }
}

/// Escaping distributes over concatenation.
pub proof fn lemma_escape_concat(a: Seq<char>, b: Seq<char>)
    ensures
        spec_escape(a + b) == spec_escape(a) + spec_escape(b),
    decreases a.len(),
{
    if a.len() == 0 {
        assert(a + b =~= b);
        assert(spec_escape(a) + spec_escape(b) =~= spec_escape(b));
    } else {
        assert((a + b).skip(1) =~= a.skip(1) + b);
        lemma_escape_concat(a.skip(1), b);
        assert(spec_escape(a + b) =~= spec_escape(a) + spec_escape(b));
    }
}

/// Escaping one more character appends that character's image.
pub proof fn lemma_escape_snoc(s: Seq<char>, i: int)
    requires
        0 <= i < s.len(),
    ensures
        spec_escape(s.take(i + 1)) == spec_escape(s.take(i)) + esc_char(s[i]),
{
    assert(s.take(i + 1) =~= s.take(i) + seq![s[i]]);
    lemma_escape_concat(s.take(i), seq![s[i]]);
    assert(seq![s[i]].skip(1) =~= Seq::<char>::empty());
    assert(esc_char(s[i]) + spec_escape(Seq::<char>::empty()) =~= esc_char(s[i]));
}

/// Append the characters of `piece` to `out`.
pub fn append_str(out: &mut Vec<char>, piece: &str)
    ensures
        final(out)@ == old(out)@ + piece@,
{
    let n = piece.unicode_len();
    let mut i: usize = 0;
    while i < n
        invariant
            n == piece@.len(),
            i <= n,
            out@ =~= old(out)@ + piece@.take(i as int),
        decreases n - i,
    {
        out.push(piece.get_char(i));
        proof {
            assert(out@ =~= old(out)@ + piece@.take(i as int + 1));
        }
        i = i + 1;
    }
    proof {
        assert(out@ =~= old(out)@ + piece@);
    }
}

/// Append the escaped image of `field` to `out`.
fn append_escaped(out: &mut Vec<char>, field: &String)
    ensures
        final(out)@ == old(out)@ + spec_escape(field@),
{
    let text = field.as_str();
    let n = text.unicode_len();
    let mut i: usize = 0;
    while i < n
        invariant
            n == text@.len(),
            text@ == field@,
            i <= n,
            out@ =~= old(out)@ + spec_escape(field@.take(i as int)),
        decreases n - i,
    {
        let c = text.get_char(i);
        if c == '\\' {
            out.push('\\');
            out.push('\\');
        } else if c == '\n' {
            out.push('\\');
            out.push('n');
        } else if c == '"' {
            out.push('\\');
            out.push('"');
        } else {
            out.push(c);
        }
        proof {
            lemma_escape_snoc(field@, i as int);
            assert(out@ =~= old(out)@ + spec_escape(field@.take(i as int + 1)));
        }
        i = i + 1;
    }
    proof {
        assert(field@.take(n as int) =~= field@);
    }
}

/// Append one `key: "value"` line to `out`.
fn append_line(out: &mut Vec<char>, prefix: &str, field: &String)
    ensures
        final(out)@ == old(out)@ + spec_line(prefix@, field@),
{
    append_str(out, prefix);
    append_escaped(out, field);
    out.push('"');
    out.push('\n');
    proof {
        assert(out@ =~= old(out)@ + spec_line(prefix@, field@));
    }
}

/// Append one tunnel's block to `out`.
fn append_tunnel(out: &mut Vec<char>, t: &Tunnel)
    ensures
        final(out)@ == old(out)@ + spec_encode_tunnel(t@),
{
    append_line(out, "- id: \"", &t.id);
    append_line(out, "  name: \"", &t.name);
    append_line(out, "  local_host: \"", &t.local_host);
    append_line(out, "  local_port: \"", &t.local_port);
    append_line(out, "  remote_host: \"", &t.remote_host);
    append_line(out, "  remote_port: \"", &t.remote_port);
    append_line(out, "  ssh_user: \"", &t.ssh_user);
    append_line(out, "  ssh_host: \"", &t.ssh_host);
    append_line(out, "  ssh_port: \"", &t.ssh_port);
    append_line(out, "  private_key: \"", &t.private_key);
    proof {
        assert(out@ =~= old(out)@ + spec_encode_tunnel(t@));
    }
}

/// One block more at the end of the rendered list.
proof fn lemma_encode_list_snoc(ts: Seq<TunnelView>, i: int)
    requires
        0 <= i < ts.len(),
    ensures
        spec_encode_list(ts.take(i + 1)) == spec_encode_list(ts.take(i)) + spec_encode_tunnel(
            ts[i],
        ),
    decreases i,
{
    if i == 0 {
        assert(ts.take(1) =~= seq![ts[0]]);
        assert(ts.take(1).skip(1) =~= Seq::<TunnelView>::empty());
        assert(ts.take(0) =~= Seq::<TunnelView>::empty());
        assert(spec_encode_list(ts.take(1)) =~= spec_encode_list(ts.take(0)) + spec_encode_tunnel(
            ts[0],
        ));
    } else {
        assert(ts.take(i + 1).skip(1) =~= ts.skip(1).take(i));
        assert(ts.take(i).skip(1) =~= ts.skip(1).take(i - 1));
        lemma_encode_list_snoc(ts.skip(1), i - 1);
        assert(spec_encode_list(ts.take(i + 1)) =~= spec_encode_list(ts.take(i))
            + spec_encode_tunnel(ts[i]));
    }
}

/// Build a `String` from a character vector.
pub fn chars_to_string(v: &Vec<char>) -> (r: String)
    ensures
        r@ == v@,
{
    let mut r = String::new();
    let n = v.len();
    let mut i: usize = 0;
    while i < n
        invariant
            n == v@.len(),
            i <= n,
            r@ =~= v@.take(i as int),
        decreases n - i,
    {
        push_char(&mut r, v[i]);
        proof {
            assert(r@ =~= v@.take(i as int + 1));
        }
        i = i + 1;
    }
    proof {
        assert(v@.take(n as int) =~= v@);
    }
    r
}

/// Relies on `String::push`: appends exactly the one character.
#[verifier::external_body]
fn push_char(s: &mut String, c: char)
    ensures
        final(s)@ == old(s)@.push(c),
{
    s.push(c);
}

/// The characters of a string slice, in order.
pub fn str_to_chars(text: &str) -> (r: Vec<char>)
    ensures
        r@ == text@,
{
    let n = text.unicode_len();
    let mut r: Vec<char> = Vec::new();
    let mut i: usize = 0;
    while i < n
        invariant
            n == text@.len(),
            i <= n,
            r@ =~= text@.take(i as int),
        decreases n - i,
    {
        r.push(text.get_char(i));
        proof {
            assert(r@ =~= text@.take(i as int + 1));
        }
        i = i + 1;
    }
    proof {
        assert(text@.take(n as int) =~= text@);
    }
    r
}

/// One quoted value read from the front of `s`: the characters up to the
/// closing quote, unescaped, and what follows that quote. There is no
/// value on an empty rest, a bare newline, an unknown escape or a missing
/// closing quote.
pub open spec fn spec_unescape_value(s: Seq<char>) -> Option<(Seq<char>, Seq<char>)>
    decreases s.len(),
{
    if s.len() == 0 {
        None
    } else if s[0] == '"' {
        Some((Seq::empty(), s.skip(1)))
    } else if s[0] == '\\' {
        if s.len() >= 2 {
            let c = if s[1] == '\\' {
                Some('\\')
            } else if s[1] == 'n' {
                Some('\n')
            } else if s[1] == '"' {
                Some('"')
            } else {
                None::<char>
            };
            match c {
                None => None,
                Some(d) => match spec_unescape_value(s.skip(2)) {
                    None => None,
                    Some(vr) => Some((seq![d] + vr.0, vr.1)),
                },
            }
        } else {
            None
        }
    } else if s[0] == '\n' {
        None
    } else {
        match spec_unescape_value(s.skip(1)) {
            None => None,
            Some(vr) => Some((seq![s[0]] + vr.0, vr.1)),
        }
    }
}

/// One line read from the front of `s`: its key prefix, then the quoted
/// value, then the line break.
pub open spec fn spec_parse_field(s: Seq<char>, prefix: Seq<char>) -> Option<
    (Seq<char>, Seq<char>),
> {
    if prefix.len() <= s.len() && s.take(prefix.len() as int) == prefix {
        match spec_unescape_value(s.skip(prefix.len() as int)) {
            None => None,
            Some(vr) => if vr.1.len() >= 1 && vr.1[0] == '\n' {
                Some((vr.0, vr.1.skip(1)))
            } else {
                None
            },
        }
    } else {
        None
    }
}

/// One tunnel block read from the front of `s`: its ten lines in the
/// store's fixed order.
pub open spec fn spec_parse_tunnel(s: Seq<char>) -> Option<(TunnelView, Seq<char>)> {
    match spec_parse_field(s, "- id: \""@) {
        None => None,
        Some(f0) => match spec_parse_field(f0.1, "  name: \""@) {
            None => None,
            Some(f1) => match spec_parse_field(f1.1, "  local_host: \""@) {
                None => None,
                Some(f2) => match spec_parse_field(f2.1, "  local_port: \""@) {
                    None => None,
                    Some(f3) => match spec_parse_field(f3.1, "  remote_host: \""@) {
                        None => None,
                        Some(f4) => match spec_parse_field(f4.1, "  remote_port: \""@) {
                            None => None,
                            Some(f5) => match spec_parse_field(f5.1, "  ssh_user: \""@) {
                                None => None,
                                Some(f6) => match spec_parse_field(f6.1, "  ssh_host: \""@) {
                                    None => None,
                                    Some(f7) => match spec_parse_field(f7.1, "  ssh_port: \""@) {
                                        None => None,
                                        Some(f8) => match spec_parse_field(
                                            f8.1,
                                            "  private_key: \""@,
                                        ) {
                                            None => None,
                                            Some(f9) => Some(
                                                (
                                                    TunnelView {
                                                        id: f0.0,
                                                        name: f1.0,
                                                        local_host: f2.0,
                                                        local_port: f3.0,
                                                        remote_host: f4.0,
                                                        remote_port: f5.0,
                                                        ssh_user: f6.0,
                                                        ssh_host: f7.0,
                                                        ssh_port: f8.0,
                                                        private_key: f9.0,
                                                    },
                                                    f9.1,
                                                ),
                                            ),
                                        },
                                    },
                                },
                            },
                        },
                    },
                },
            },
        },
    }
}

/// Every tunnel block of `s`, which must be consumed exactly.
pub open spec fn spec_parse_list(s: Seq<char>) -> Option<Seq<TunnelView>>
    decreases s.len(),
{
    if s.len() == 0 {
        Some(Seq::empty())
    } else {
        match spec_parse_tunnel(s) {
            None => None,
            Some(tr) => if tr.1.len() < s.len() {
                match spec_parse_list(tr.1) {
                    None => None,
                    Some(ts) => Some(seq![tr.0] + ts),
                }
            } else {
                None
            },
        }
    }
}

/// The parsed store: nothing at all and the empty marker both stand for no
/// tunnels; anything else must be a well-formed list of blocks.
pub open spec fn spec_decode(s: Seq<char>) -> Option<Seq<TunnelView>> {
    if s.len() == 0 {
        Some(Seq::empty())
    } else if s == "[]\n"@ {
        Some(Seq::empty())
    } else {
        spec_parse_list(s)
    }
}

/// Read one quoted value starting at `i`.
fn parse_value(v: &Vec<char>, i: usize) -> (r: Option<(Vec<char>, usize)>)
    requires
        i <= v@.len(),
    ensures
        match r {
            Some(vn) => i < vn.1 <= v@.len() && spec_unescape_value(v@.skip(i as int)) == Some(
                (vn.0@, v@.skip(vn.1 as int)),
            ),
            None => spec_unescape_value(v@.skip(i as int)) is None,
        },
    decreases v@.len() - i,
{
    if i == v.len() {
        return None;
    }
    let c = v[i];
    if c == '"' {
        proof {
            assert(v@.skip(i as int).skip(1) =~= v@.skip(i as int + 1));
        }
        Some((Vec::new(), i + 1))
    } else if c == '\\' {
        if i + 1 < v.len() {
            let c2 = v[i + 1];
            let dec: Option<char> = if c2 == '\\' {
                Some('\\')
            } else if c2 == 'n' {
                Some('\n')
            } else if c2 == '"' {
                Some('"')
            } else {
                None
            };
            match dec {
                None => None,
                Some(d) => {
                    proof {
                        assert(v@.skip(i as int).skip(2) =~= v@.skip(i as int + 2));
                    }
                    match parse_value(v, i + 2) {
                        None => None,
                        Some(vn) => {
                            let (mut val, next) = vn;
                            let ghost prev = val@;
                            val.insert(0, d);
                            proof {
                                assert(val@ =~= seq![d] + prev);
                            }
                            Some((val, next))
                        },
                    }
                },
            }
        } else {
            None
        }
    } else if c == '\n' {
        None
    } else {
        proof {
            assert(v@.skip(i as int).skip(1) =~= v@.skip(i as int + 1));
        }
        match parse_value(v, i + 1) {
            None => None,
            Some(vn) => {
                let (mut val, next) = vn;
                let ghost prev = val@;
                val.insert(0, c);
                proof {
                    assert(val@ =~= seq![c] + prev);
                }
                Some((val, next))
            },
        }
    }
}

/// Whether the characters of `prefix` stand at `i`.
fn match_prefix(v: &Vec<char>, i: usize, prefix: &str) -> (r: bool)
    requires
        i <= v@.len(),
    ensures
        r == (prefix@.len() + i <= v@.len() && v@.skip(i as int).take(prefix@.len() as int)
            == prefix@),
{
    let plen = prefix.unicode_len();
    let n = v.len();
    if plen > n - i {
        return false;
    }
    let mut k: usize = 0;
    while k < plen
        invariant
            n == v@.len(),
            i + plen <= n,
            k <= plen,
            plen == prefix@.len(),
            forall|j: int| 0 <= j < k ==> v@[i + j] == prefix@[j],
        decreases plen - k,
    {
        if v[i + k] != prefix.get_char(k) {
            proof {
                assert(v@.skip(i as int).take(plen as int)[k as int] == v@[i + k]);
            }
            return false;
        }
        k = k + 1;
    }
    proof {
        assert(v@.skip(i as int).take(plen as int) =~= prefix@);
    }
    true
}

/// Read one `key: "value"` line starting at `i`.
fn parse_field(v: &Vec<char>, i: usize, prefix: &str) -> (r: Option<(Vec<char>, usize)>)
    requires
        i <= v@.len(),
    ensures
        match r {
            Some(vn) => i < vn.1 <= v@.len() && spec_parse_field(v@.skip(i as int), prefix@)
                == Some((vn.0@, v@.skip(vn.1 as int))),
            None => spec_parse_field(v@.skip(i as int), prefix@) is None,
        },
{
    if !match_prefix(v, i, prefix) {
        return None;
    }
    let n = v.len();
    let plen = prefix.unicode_len();
    proof {
        assert(i + plen <= n);
    }
    proof {
        assert(v@.skip(i as int).skip(plen as int) =~= v@.skip(i as int + plen as int));
    }
    match parse_value(v, i + plen) {
        None => None,
        Some(vn) => {
            let (val, j) = vn;
            if j < v.len() {
                let c = v[j];
                if c == '\n' {
                    proof {
                        assert(v@.skip(j as int)[0] == v@[j as int]);
                        assert(v@.skip(j as int).skip(1) =~= v@.skip(j as int + 1));
                    }
                    return Some((val, j + 1));
                }
            }
            None
        },
    }
}

/// Read one tunnel block starting at `i`.
fn parse_tunnel(v: &Vec<char>, i: usize) -> (r: Option<(Tunnel, usize)>)
    requires
        i <= v@.len(),
    ensures
        match r {
            Some(tn) => i < tn.1 <= v@.len() && spec_parse_tunnel(v@.skip(i as int)) == Some(
                (tn.0@, v@.skip(tn.1 as int)),
            ),
            None => spec_parse_tunnel(v@.skip(i as int)) is None,
        },
{
    let f0 = match parse_field(v, i, "- id: \"") {
        None => {
            return None;
        },
        Some(x) => x,
    };
    let f1 = match parse_field(v, f0.1, "  name: \"") {
        None => {
            return None;
        },
        Some(x) => x,
    };
    let f2 = match parse_field(v, f1.1, "  local_host: \"") {
        None => {
            return None;
        },
        Some(x) => x,
    };
    let f3 = match parse_field(v, f2.1, "  local_port: \"") {
        None => {
            return None;
        },
        Some(x) => x,
    };
    let f4 = match parse_field(v, f3.1, "  remote_host: \"") {
        None => {
            return None;
        },
        Some(x) => x,
    };
    let f5 = match parse_field(v, f4.1, "  remote_port: \"") {
        None => {
            return None;
        },
        Some(x) => x,
    };
    let f6 = match parse_field(v, f5.1, "  ssh_user: \"") {
        None => {
            return None;
        },
        Some(x) => x,
    };
    let f7 = match parse_field(v, f6.1, "  ssh_host: \"") {
        None => {
            return None;
        },
        Some(x) => x,
    };
    let f8 = match parse_field(v, f7.1, "  ssh_port: \"") {
        None => {
            return None;
        },
        Some(x) => x,
    };
    let f9 = match parse_field(v, f8.1, "  private_key: \"") {
        None => {
            return None;
        },
        Some(x) => x,
    };
    let t = Tunnel {
        id: chars_to_string(&f0.0),
        name: chars_to_string(&f1.0),
        local_host: chars_to_string(&f2.0),
        local_port: chars_to_string(&f3.0),
        remote_host: chars_to_string(&f4.0),
        remote_port: chars_to_string(&f5.0),
        ssh_user: chars_to_string(&f6.0),
        ssh_host: chars_to_string(&f7.0),
        ssh_port: chars_to_string(&f8.0),
        private_key: chars_to_string(&f9.0),
    };
    Some((t, f9.1))
}

/// Read every tunnel block from `i` to the very end.
fn parse_list(v: &Vec<char>, i: usize) -> (r: Option<Vec<Tunnel>>)
    requires
        i <= v@.len(),
    ensures
        match r {
            Some(ts) => spec_parse_list(v@.skip(i as int)) == Some(ts.deep_view()),
            None => spec_parse_list(v@.skip(i as int)) is None,
        },
    decreases v@.len() - i,
{
    if i == v.len() {
        let ts: Vec<Tunnel> = Vec::new();
        proof {
            assert(ts.deep_view() =~= Seq::<TunnelView>::empty());
        }
        return Some(ts);
    }
    match parse_tunnel(v, i) {
        None => None,
        Some(tn) => {
            let (t, next) = tn;
            match parse_list(v, next) {
                None => None,
                Some(mut ts) => {
                    let ghost prev = ts.deep_view();
                    let ghost tv = t@;
                    ts.insert(0, t);
                    proof {
                        assert(ts.deep_view() =~= seq![tv] + prev);
                    }
                    Some(ts)
                },
            }
        },
    }
}

/// Parse the store's text, as read from the backing file, into the list
/// of tunnel records it holds. Malformed text is a persistence failure.
pub fn parse_tunnel_store(text: &str) -> (r: Result<Vec<Tunnel>, TunnelError>)
    ensures
        match r {
            Ok(ts) => spec_decode(text@) == Some(ts.deep_view()),
            Err(e) => spec_decode(text@) is None && e@ == ErrorView::PersistenceFailure(
                "malformed tunnel store"@,
            ),
        },
{
    let v = str_to_chars(text);
    if v.len() == 0 {
        let ts: Vec<Tunnel> = Vec::new();
        proof {
            assert(ts.deep_view() =~= Seq::<TunnelView>::empty());
        }
        return Ok(ts);
    }
    if v.len() == 3 {
        let empty_marker = v[0] == '[' && v[1] == ']' && v[2] == '\n';
        if empty_marker {
            proof {
                reveal_strlit("[]\n");
                assert(text@ =~= "[]\n"@);
            }
            let ts: Vec<Tunnel> = Vec::new();
            proof {
                assert(ts.deep_view() =~= Seq::<TunnelView>::empty());
            }
            return Ok(ts);
        }
    }
    proof {
        reveal_strlit("[]\n");
        assert(text@ != "[]\n"@);
        assert(v@.skip(0) =~= text@);
    }
    match parse_list(&v, 0) {
        Some(ts) => Ok(ts),
        None => Err(TunnelError::PersistenceFailure(String::from_str("malformed tunnel store"))),
    }
}

/// Unescaping undoes escaping: reading a value from its escaped image,
/// the closing quote and any rest gives back the value and that rest.
pub proof fn lemma_unescape_escape(v: Seq<char>, rest: Seq<char>)
    ensures
        spec_unescape_value(spec_escape(v) + seq!['"'] + rest) == Some((v, rest)),
    decreases v.len(),
{
    let s = spec_escape(v) + seq!['"'] + rest;
    if v.len() == 0 {
        assert(spec_escape(v) =~= Seq::<char>::empty());
        assert(s[0] == '"');
        assert(s.skip(1) =~= rest);
    } else {
        let c = v[0];
        let v1 = v.skip(1);
        lemma_unescape_escape(v1, rest);
        let s1 = spec_escape(v1) + seq!['"'] + rest;
        assert(spec_escape(v) == esc_char(c) + spec_escape(v1));
        assert(seq![c] + v1 =~= v);
        if c == '\\' || c == '\n' || c == '"' {
            assert(s[0] == '\\');
            assert(s[1] == esc_char(c)[1]);
            assert(s.skip(2) =~= s1);
        } else {
            assert(s[0] == c);
            assert(s.skip(1) =~= s1);
        }
    }
}

/// Parsing one line of the rendered store gives back its value.
pub proof fn lemma_parse_field_of_line(prefix: Seq<char>, v: Seq<char>, rest: Seq<char>)
    ensures
        spec_parse_field(spec_line(prefix, v) + rest, prefix) == Some((v, rest)),
{
    let s = spec_line(prefix, v) + rest;
    assert(s.take(prefix.len() as int) =~= prefix);
    assert(s.skip(prefix.len() as int) =~= spec_escape(v) + seq!['"'] + (seq!['\n'] + rest));
    lemma_unescape_escape(v, seq!['\n'] + rest);
    assert((seq!['\n'] + rest)[0] == '\n');
    assert((seq!['\n'] + rest).skip(1) =~= rest);
}

/// Parsing one rendered tunnel block gives back its record.
pub proof fn lemma_parse_tunnel_of_encode(t: TunnelView, rest: Seq<char>)
    ensures
        spec_parse_tunnel(spec_encode_tunnel(t) + rest) == Some((t, rest)),
{
    let s9 = spec_line("  private_key: \""@, t.private_key) + rest;
    let s8 = spec_line("  ssh_port: \""@, t.ssh_port) + s9;
    let s7 = spec_line("  ssh_host: \""@, t.ssh_host) + s8;
    let s6 = spec_line("  ssh_user: \""@, t.ssh_user) + s7;
    let s5 = spec_line("  remote_port: \""@, t.remote_port) + s6;
    let s4 = spec_line("  remote_host: \""@, t.remote_host) + s5;
    let s3 = spec_line("  local_port: \""@, t.local_port) + s4;
    let s2 = spec_line("  local_host: \""@, t.local_host) + s3;
    let s1 = spec_line("  name: \""@, t.name) + s2;
    let s0 = spec_line("- id: \""@, t.id) + s1;
    assert(spec_encode_tunnel(t) + rest =~= s0);
    lemma_parse_field_of_line("- id: \""@, t.id, s1);
    lemma_parse_field_of_line("  name: \""@, t.name, s2);
    lemma_parse_field_of_line("  local_host: \""@, t.local_host, s3);
    lemma_parse_field_of_line("  local_port: \""@, t.local_port, s4);
    lemma_parse_field_of_line("  remote_host: \""@, t.remote_host, s5);
    lemma_parse_field_of_line("  remote_port: \""@, t.remote_port, s6);
    lemma_parse_field_of_line("  ssh_user: \""@, t.ssh_user, s7);
    lemma_parse_field_of_line("  ssh_host: \""@, t.ssh_host, s8);
    lemma_parse_field_of_line("  ssh_port: \""@, t.ssh_port, s9);
    lemma_parse_field_of_line("  private_key: \""@, t.private_key, rest);
    assert((TunnelView {
        id: t.id,
        name: t.name,
        local_host: t.local_host,
        local_port: t.local_port,
        remote_host: t.remote_host,
        remote_port: t.remote_port,
        ssh_user: t.ssh_user,
        ssh_host: t.ssh_host,
        ssh_port: t.ssh_port,
        private_key: t.private_key,
    }) =~= t);
}

/// Parsing a whole rendered list gives back exactly its records.
#[verifier::rlimit(60)]
pub proof fn lemma_parse_list_of_encode(ts: Seq<TunnelView>)
    ensures
        spec_parse_list(spec_encode_list(ts)) == Some(ts),
    decreases ts.len(),
{
    reveal_strlit("- id: \"");
    if ts.len() == 0 {
        assert(spec_encode_list(ts).len() == 0);
        assert(ts =~= Seq::<TunnelView>::empty());
    } else {
        let s = spec_encode_list(ts);
        let tail = spec_encode_list(ts.skip(1));
        assert(s == spec_encode_tunnel(ts[0]) + tail);
        lemma_parse_tunnel_of_encode(ts[0], tail);
        lemma_parse_list_of_encode(ts.skip(1));
        assert("- id: \""@.len() == 7);
        assert(spec_line("- id: \""@, ts[0].id).len() >= 7);
        assert(spec_encode_tunnel(ts[0]).len() >= 7);
        assert(tail.len() < s.len());
        assert(seq![ts[0]] + ts.skip(1) =~= ts);
    }
}

/// Parsing what was rendered gives back exactly the rendered tunnels.
pub proof fn lemma_store_round_trip(ts: Seq<TunnelView>)
    ensures
        spec_decode(spec_encode(ts)) == Some(ts),
{
    reveal_strlit("[]\n");
    reveal_strlit("- id: \"");
    if ts.len() == 0 {
        assert("[]\n"@.len() == 3);
        assert(ts =~= Seq::<TunnelView>::empty());
    } else {
        let s = spec_encode_list(ts);
        assert(spec_line("- id: \""@, ts[0].id).len() >= 7);
        assert(spec_encode_tunnel(ts[0]).len() >= 7);
        assert(s.len() >= 7);
        assert(s[0] == spec_encode_tunnel(ts[0])[0]);
        assert(spec_encode_tunnel(ts[0])[0] == spec_line("- id: \""@, ts[0].id)[0]);
        assert(spec_line("- id: \""@, ts[0].id)[0] == '-');
        assert(s != "[]\n"@) by {
            if s == "[]\n"@ {
                assert(s[0] == '[');
            }
        }
        lemma_parse_list_of_encode(ts);
    }
}

/// A value only parses out of its own escaped image: the parser accepts
/// nothing but the canonical escaping.
pub proof fn lemma_unescape_strict(s: Seq<char>, v: Seq<char>, rest: Seq<char>)
    requires
        spec_unescape_value(s) == Some((v, rest)),
    ensures
        s == spec_escape(v) + seq!['"'] + rest,
    decreases s.len(),
{
    if s[0] == '"' {
        assert(v =~= Seq::<char>::empty());
        assert(spec_escape(v) + seq!['"'] + rest =~= seq!['"'] + s.skip(1));
        assert(seq!['"'] + s.skip(1) =~= s);
    } else if s[0] == '\\' {
        let d = if s[1] == '\\' {
            '\\'
        } else if s[1] == 'n' {
            '\n'
        } else {
            '"'
        };
        let inner = spec_unescape_value(s.skip(2));
        let v1 = inner->Some_0.0;
        let rest1 = inner->Some_0.1;
        lemma_unescape_strict(s.skip(2), v1, rest1);
        assert(v == seq![d] + v1);
        assert(v.skip(1) =~= v1);
        assert(v[0] == d);
        assert(esc_char(d) =~= seq!['\\', s[1]]);
        assert(spec_escape(v) + seq!['"'] + rest =~= esc_char(d) + (spec_escape(v1) + seq!['"']
            + rest1));
        assert(esc_char(d) + s.skip(2) =~= s);
    } else {
        let c = s[0];
        let inner = spec_unescape_value(s.skip(1));
        let v1 = inner->Some_0.0;
        let rest1 = inner->Some_0.1;
        lemma_unescape_strict(s.skip(1), v1, rest1);
        assert(v == seq![c] + v1);
        assert(v.skip(1) =~= v1);
        assert(v[0] == c);
        assert(esc_char(c) =~= seq![c]);
        assert(spec_escape(v) + seq!['"'] + rest =~= esc_char(c) + (spec_escape(v1) + seq!['"']
            + rest1));
        assert(esc_char(c) + s.skip(1) =~= s);
    }
}

/// A line only parses out of its own rendering.
pub proof fn lemma_parse_field_strict(s: Seq<char>, prefix: Seq<char>, v: Seq<char>, rest: Seq<char>)
    requires
        spec_parse_field(s, prefix) == Some((v, rest)),
    ensures
        s == spec_line(prefix, v) + rest,
{
    let after = s.skip(prefix.len() as int);
    let inner = spec_unescape_value(after);
    let rest1 = inner->Some_0.1;
    lemma_unescape_strict(after, v, rest1);
    assert(rest1 =~= seq!['\n'] + rest);
    assert(s =~= s.take(prefix.len() as int) + after);
    assert(spec_line(prefix, v) + rest =~= prefix + (spec_escape(v) + seq!['"'] + (seq!['\n']
        + rest)));
}

/// A tunnel block only parses out of its own rendering.
#[verifier::rlimit(100)]
pub proof fn lemma_parse_tunnel_strict(s: Seq<char>, t: TunnelView, rest: Seq<char>)
    requires
        spec_parse_tunnel(s) == Some((t, rest)),
    ensures
        s == spec_encode_tunnel(t) + rest,
{
    let f0 = spec_parse_field(s, "- id: \""@)->Some_0;
    let f1 = spec_parse_field(f0.1, "  name: \""@)->Some_0;
    let f2 = spec_parse_field(f1.1, "  local_host: \""@)->Some_0;
    let f3 = spec_parse_field(f2.1, "  local_port: \""@)->Some_0;
    let f4 = spec_parse_field(f3.1, "  remote_host: \""@)->Some_0;
    let f5 = spec_parse_field(f4.1, "  remote_port: \""@)->Some_0;
    let f6 = spec_parse_field(f5.1, "  ssh_user: \""@)->Some_0;
    let f7 = spec_parse_field(f6.1, "  ssh_host: \""@)->Some_0;
    let f8 = spec_parse_field(f7.1, "  ssh_port: \""@)->Some_0;
    let f9 = spec_parse_field(f8.1, "  private_key: \""@)->Some_0;
    lemma_parse_field_strict(s, "- id: \""@, f0.0, f0.1);
    lemma_parse_field_strict(f0.1, "  name: \""@, f1.0, f1.1);
    lemma_parse_field_strict(f1.1, "  local_host: \""@, f2.0, f2.1);
    lemma_parse_field_strict(f2.1, "  local_port: \""@, f3.0, f3.1);
    lemma_parse_field_strict(f3.1, "  remote_host: \""@, f4.0, f4.1);
    lemma_parse_field_strict(f4.1, "  remote_port: \""@, f5.0, f5.1);
    lemma_parse_field_strict(f5.1, "  ssh_user: \""@, f6.0, f6.1);
    lemma_parse_field_strict(f6.1, "  ssh_host: \""@, f7.0, f7.1);
    lemma_parse_field_strict(f7.1, "  ssh_port: \""@, f8.0, f8.1);
    lemma_parse_field_strict(f8.1, "  private_key: \""@, f9.0, f9.1);
    let s9 = spec_line("  private_key: \""@, t.private_key) + rest;
    let s8 = spec_line("  ssh_port: \""@, t.ssh_port) + s9;
    let s7 = spec_line("  ssh_host: \""@, t.ssh_host) + s8;
    let s6 = spec_line("  ssh_user: \""@, t.ssh_user) + s7;
    let s5 = spec_line("  remote_port: \""@, t.remote_port) + s6;
    let s4 = spec_line("  remote_host: \""@, t.remote_host) + s5;
    let s3 = spec_line("  local_port: \""@, t.local_port) + s4;
    let s2 = spec_line("  local_host: \""@, t.local_host) + s3;
    let s1 = spec_line("  name: \""@, t.name) + s2;
    let s0 = spec_line("- id: \""@, t.id) + s1;
    assert(f8.1 == s9);
    assert(f7.1 == s8);
    assert(f6.1 == s7);
    assert(f5.1 == s6);
    assert(f4.1 == s5);
    assert(f3.1 == s4);
    assert(f2.1 == s3);
    assert(f1.1 == s2);
    assert(f0.1 == s1);
    assert(s == s0);
    assert(spec_encode_tunnel(t) + rest =~= s0);
}

/// A list of blocks only parses out of its own rendering.
#[verifier::rlimit(60)]
pub proof fn lemma_parse_list_strict(s: Seq<char>, ts: Seq<TunnelView>)
    requires
        spec_parse_list(s) == Some(ts),
    ensures
        s == spec_encode_list(ts),
    decreases s.len(),
{
    if s.len() == 0 {
        assert(ts =~= Seq::<TunnelView>::empty());
        assert(spec_encode_list(ts) =~= Seq::<char>::empty());
    } else {
        let tr = spec_parse_tunnel(s)->Some_0;
        let ts1 = spec_parse_list(tr.1)->Some_0;
        lemma_parse_tunnel_strict(s, tr.0, tr.1);
        lemma_parse_list_strict(tr.1, ts1);
        assert(ts == seq![tr.0] + ts1);
        assert(ts[0] == tr.0);
        assert(ts.skip(1) =~= ts1);
        assert(spec_encode_list(ts) =~= spec_encode_tunnel(tr.0) + spec_encode_list(ts1));
    }
}

/// A well-formed store is reproduced byte for byte: whatever text `load`
/// accepts, `save` of what was loaded writes back that very text — except
/// that loading nothing at all still saves the empty marker.
pub proof fn lemma_load_save_exact(s: Seq<char>, loaded: Seq<TunnelView>)
    requires
        spec_decode(s) == Some(loaded),
    ensures
        s.len() == 0 ==> loaded.len() == 0,
        s.len() > 0 ==> spec_encode(loaded) == s,
{
    reveal_strlit("[]\n");
    if s.len() > 0 {
        if s == "[]\n"@ {
            assert(loaded.len() == 0);
        } else {
            lemma_parse_list_strict(s, loaded);
            assert(loaded.len() > 0) by {
                if loaded.len() == 0 {
                    assert(spec_encode_list(loaded).len() == 0);
                }
            }
        }
    }
}

/// Loading then saving is idempotent. For any store text that loads at
/// all, saving what was loaded, loading that, and saving again writes the
/// very same text, byte for byte: the reload gives back exactly what the
/// first save wrote, so every further load/save round repeats it.
pub proof fn lemma_save_load_idempotent(s: Seq<char>, loaded: Seq<TunnelView>)
    requires
        spec_decode(s) == Some(loaded),
    ensures
        spec_decode(spec_encode(loaded)) == Some(loaded),
        ({
            let reloaded = spec_decode(spec_encode(loaded));
            reloaded matches Some(l2) && spec_encode(l2) == spec_encode(loaded)
        }),
{
    lemma_store_round_trip(loaded);
}

/// Render the whole store for these tunnels. `save` writes exactly this
/// text, overwriting the backing file.
pub fn render_tunnel_store(tunnels: &Vec<Tunnel>) -> (r: String)
    ensures
        r@ == spec_encode(tunnels.deep_view()),
{
    let mut out: Vec<char> = Vec::new();
    let n = tunnels.len();
    if n == 0 {
        append_str(&mut out, "[]\n");
        return chars_to_string(&out);
    }
    let mut i: usize = 0;
    while i < n
        invariant
            n == tunnels@.len(),
            i <= n,
            out@ =~= spec_encode_list(tunnels.deep_view().take(i as int)),
        decreases n - i,
    {
        append_tunnel(&mut out, &tunnels[i]);
        proof {
            lemma_encode_list_snoc(tunnels.deep_view(), i as int);
            assert(tunnels.deep_view()[i as int] == tunnels@[i as int]@);
            assert(out@ =~= spec_encode_list(tunnels.deep_view().take(i as int + 1)));
        }
        i = i + 1;
    }
    proof {
        assert(tunnels.deep_view().take(n as int) =~= tunnels.deep_view());
    }
    chars_to_string(&out)
}

} // verus!
