//! Reading the SSH client's diagnostic stream: case-insensitive
//! classification of known failure patterns (for logging only — the
//! classification feeds no status transition), and the interpretation of a
//! one-shot connectivity probe's outcome.

use vstd::prelude::*;
use vstd::string::*;
use crate::command::is_space_char;
use crate::store::{chars_to_string, str_to_chars};
use crate::tunnels::{ErrorView, TunnelError};

verus! {

/// An ASCII letter folded to lower case; every other character stands.
pub open spec fn lower_char(c: char) -> char {
    if c == 'A' {
        'a'
    } else if c == 'B' {
        'b'
    } else if c == 'C' {
        'c'
    } else if c == 'D' {
        'd'
    } else if c == 'E' {
        'e'
    } else if c == 'F' {
        'f'
    } else if c == 'G' {
        'g'
    } else if c == 'H' {
        'h'
    } else if c == 'I' {
        'i'
    } else if c == 'J' {
        'j'
    } else if c == 'K' {
        'k'
    } else if c == 'L' {
        'l'
    } else if c == 'M' {
        'm'
    } else if c == 'N' {
        'n'
    } else if c == 'O' {
        'o'
    } else if c == 'P' {
        'p'
    } else if c == 'Q' {
        'q'
    } else if c == 'R' {
        'r'
    } else if c == 'S' {
        's'
    } else if c == 'T' {
        't'
    } else if c == 'U' {
        'u'
    } else if c == 'V' {
        'v'
    } else if c == 'W' {
        'w'
    } else if c == 'X' {
        'x'
    } else if c == 'Y' {
        'y'
    } else if c == 'Z' {
        'z'
    } else {
        c
    }
}

/// A string folded to lower case, character for character.
pub open spec fn lower_seq(s: Seq<char>) -> Seq<char> {
    Seq::new(s.len(), |i: int| lower_char(s[i]))
}

/// Whether `needle` occurs somewhere in `hay`.
pub open spec fn seq_contains(hay: Seq<char>, needle: Seq<char>) -> bool {
    exists|i: int|
        0 <= i && i + needle.len() <= hay.len() && #[trigger] hay.subrange(
            i,
            i + needle.len() as int,
        ) == needle
}

/// What one diagnostic line of the SSH client indicates.
#[derive(Clone, Copy, Debug, PartialEq, Eq, Structural)]
pub enum LineDiagnostic {
    /// The server rejected the credentials.
    AuthenticationFailure,
    /// The connection was refused or timed out.
    ConnectionFailure,
    /// The local forwarding port is already taken.
    PortInUse,
    /// The host name could not be resolved.
    DnsFailure,
    /// No known failure pattern.
    Unremarkable,
}

/// The classification of one diagnostic line: the known failure patterns,
/// matched case-insensitively, in fixed precedence order.
pub open spec fn spec_classify(line: Seq<char>) -> LineDiagnostic {
    let lower = lower_seq(line);
    if seq_contains(lower, "permission denied"@) || seq_contains(
        lower,
        "authentication failed"@,
    ) {
        LineDiagnostic::AuthenticationFailure
    } else if seq_contains(lower, "connection refused"@) || seq_contains(
        lower,
        "connection timed out"@,
    ) {
        LineDiagnostic::ConnectionFailure
    } else if seq_contains(lower, "bind"@) && seq_contains(lower, "address already in use"@) {
        LineDiagnostic::PortInUse
    } else if seq_contains(lower, "could not resolve hostname"@) {
        LineDiagnostic::DnsFailure
    } else {
        LineDiagnostic::Unremarkable
    }
}

/// One character folded to lower case.
fn to_lower_char(c: char) -> (r: char)
    ensures
        r == lower_char(c),
{
    if c >= 'A' && c <= 'Z' {
        if c == 'A' {
            'a'
        } else if c == 'B' {
            'b'
        } else if c == 'C' {
            'c'
        } else if c == 'D' {
            'd'
        } else if c == 'E' {
            'e'
        } else if c == 'F' {
            'f'
        } else if c == 'G' {
            'g'
        } else if c == 'H' {
            'h'
        } else if c == 'I' {
            'i'
        } else if c == 'J' {
            'j'
        } else if c == 'K' {
            'k'
        } else if c == 'L' {
            'l'
        } else if c == 'M' {
            'm'
        } else if c == 'N' {
            'n'
        } else if c == 'O' {
            'o'
        } else if c == 'P' {
            'p'
        } else if c == 'Q' {
            'q'
        } else if c == 'R' {
            'r'
        } else if c == 'S' {
            's'
        } else if c == 'T' {
            't'
        } else if c == 'U' {
            'u'
        } else if c == 'V' {
            'v'
        } else if c == 'W' {
            'w'
        } else if c == 'X' {
            'x'
        } else if c == 'Y' {
            'y'
        } else {
            'z'
        }
    } else {
        c
    }
}

/// Whether the characters of `needle` stand at position `i` of `hay`.
fn matches_at(hay: &Vec<char>, needle: &Vec<char>, i: usize) -> (r: bool)
    requires
        i + needle@.len() <= hay@.len(),
    ensures
        r == (hay@.subrange(i as int, i + needle@.len() as int) == needle@),
{
    let nn = needle.len();
    let hn = hay.len();
    let mut j: usize = 0;
    while j < nn
        invariant
            i + nn <= hn,
            hn == hay@.len(),
            nn == needle@.len(),
            j <= nn,
            forall|l: int| 0 <= l < j ==> hay@[i + l] == needle@[l],
        decreases nn - j,
    {
        if hay[i + j] != needle[j] {
            proof {
                assert(hay@.subrange(i as int, i + nn as int)[j as int] == hay@[i + j]);
            }
            return false;
        }
        j = j + 1;
    }
    proof {
        assert(hay@.subrange(i as int, i + nn as int) =~= needle@);
    }
    true
}

/// Whether the characters of `needle` occur in order and adjacently in `hay`.
fn contains_chars(hay: &Vec<char>, needle: &Vec<char>) -> (r: bool)
    ensures
        r == seq_contains(hay@, needle@),
{
    let hn = hay.len();
    let nn = needle.len();
    if nn > hn {
        return false;
    }
    if nn == 0 {
        proof {
            assert(hay@.subrange(0, 0 + needle@.len() as int) =~= needle@);
        }
        return true;
    }
    let mut i: usize = 0;
    while i <= hn - nn
        invariant
            1 <= nn <= hn,
            hn == hay@.len(),
            nn == needle@.len(),
            i <= hn - nn + 1,
            forall|k: int|
                0 <= k < i ==> #[trigger] hay@.subrange(k, k + nn as int) != needle@,
        decreases hn - nn + 1 - i,
    {
        if matches_at(hay, needle, i) {
            proof {
                assert(hay@.subrange(i as int, i as int + needle@.len() as int) == needle@);
            }
            return true;
        }
        i = i + 1;
    }
    false
}

/// Classify one line of the SSH client's diagnostic stream against the
/// known failure patterns. The result is logged by the caller; it feeds no
/// status transition.
pub fn classify_stderr_line(line: &str) -> (r: LineDiagnostic)
    ensures
        r == spec_classify(line@),
{
    let chars = str_to_chars(line);
    let n = chars.len();
    let mut lower: Vec<char> = Vec::new();
    let mut i: usize = 0;
    while i < n
        invariant
            n == chars@.len(),
            chars@ == line@,
            i <= n,
            lower@.len() == i,
            forall|j: int| 0 <= j < i ==> lower@[j] == lower_char(line@[j]),
        decreases n - i,
    {
        lower.push(to_lower_char(chars[i]));
        i = i + 1;
    }
    proof {
        assert(lower@ =~= lower_seq(line@));
    }
    let p_denied = str_to_chars("permission denied");
    let p_auth = str_to_chars("authentication failed");
    let p_refused = str_to_chars("connection refused");
    let p_timeout = str_to_chars("connection timed out");
    let p_bind = str_to_chars("bind");
    let p_in_use = str_to_chars("address already in use");
    let p_resolve = str_to_chars("could not resolve hostname");
    if contains_chars(&lower, &p_denied) || contains_chars(&lower, &p_auth) {
        LineDiagnostic::AuthenticationFailure
    } else if contains_chars(&lower, &p_refused) || contains_chars(&lower, &p_timeout) {
        LineDiagnostic::ConnectionFailure
    } else if contains_chars(&lower, &p_bind) && contains_chars(&lower, &p_in_use) {
        LineDiagnostic::PortInUse
    } else if contains_chars(&lower, &p_resolve) {
        LineDiagnostic::DnsFailure
    } else {
        LineDiagnostic::Unremarkable
    }
}

/// The string without its leading ASCII blanks.
pub open spec fn spec_trim_front(s: Seq<char>) -> Seq<char>
    decreases s.len(),
{
    if s.len() > 0 && is_space_char(s[0]) {
        spec_trim_front(s.skip(1))
    } else {
        s
    }
}

/// The string without its trailing ASCII blanks.
pub open spec fn spec_trim_back(s: Seq<char>) -> Seq<char>
    decreases s.len(),
{
    if s.len() > 0 && is_space_char(s[s.len() - 1]) {
        spec_trim_back(s.take(s.len() - 1))
    } else {
        s
    }
}

/// The string without leading and trailing ASCII blanks.
pub open spec fn spec_trim(s: Seq<char>) -> Seq<char> {
    spec_trim_back(spec_trim_front(s))
}

/// Whether the character is an ASCII blank.
fn is_space(c: char) -> (r: bool)
    ensures
        r == is_space_char(c),
{
    c == ' ' || c == '\t' || c == '\n' || c == '\r'
}

/// The text without leading and trailing ASCII blanks.
pub fn trim_text(text: &str) -> (r: String)
    ensures
        r@ == spec_trim(text@),
{
    let chars = str_to_chars(text);
    let n = chars.len();
    let mut a: usize = 0;
    proof {
        assert(text@.skip(0) =~= text@);
    }
    while a < n && is_space(chars[a])
        invariant
            n == chars@.len(),
            chars@ == text@,
            a <= n,
            spec_trim_front(text@) == spec_trim_front(text@.skip(a as int)),
        decreases n - a,
    {
        proof {
            assert(text@.skip(a as int).skip(1) =~= text@.skip(a as int + 1));
        }
        a = a + 1;
    }
    proof {
        if a == n {
            assert(text@.skip(a as int).len() == 0);
        }
        assert(spec_trim_front(text@) == text@.skip(a as int));
    }
    let mut b: usize = n;
    proof {
        assert(text@.skip(a as int).take(n - a as int) =~= text@.skip(a as int));
    }
    while b > a && is_space(chars[b - 1])
        invariant
            n == chars@.len(),
            chars@ == text@,
            a <= b <= n,
            spec_trim_front(text@) == text@.skip(a as int),
            spec_trim_back(text@.skip(a as int)) == spec_trim_back(
                text@.skip(a as int).take(b - a as int),
            ),
        decreases b,
    {
        proof {
            let sub = text@.skip(a as int).take(b - a as int);
            assert(sub[sub.len() - 1] == text@[b - 1]);
            assert(sub.take(sub.len() - 1) =~= text@.skip(a as int).take(b - 1 - a as int));
        }
        b = b - 1;
    }
    proof {
        let sub = text@.skip(a as int).take(b - a as int);
        if b == a {
            assert(sub.len() == 0);
        } else {
            assert(sub[sub.len() - 1] == text@[b - 1]);
        }
        assert(spec_trim(text@) == sub);
    }
    let mut out: Vec<char> = Vec::new();
    let mut k: usize = a;
    while k < b
        invariant
            a <= k <= b <= n,
            n == chars@.len(),
            chars@ == text@,
            out@ =~= text@.skip(a as int).take(k - a as int),
        decreases b - k,
    {
        out.push(chars[k]);
        proof {
            assert(out@ =~= text@.skip(a as int).take(k + 1 - a as int));
        }
        k = k + 1;
    }
    chars_to_string(&out)
}

/// What a one-shot connectivity probe's outcome means for the caller: a
/// fixed success message when the probe's remote no-op succeeded, else a
/// probe failure carrying the trimmed diagnostics.
pub fn interpret_probe_output(success: bool, diagnostics: &str) -> (r: Result<
    String,
    TunnelError,
>)
    ensures
        success ==> (r matches Ok(m) && m@
            == "✓ SSH connection successful! You can now create the tunnel."@),
        !success ==> (r matches Err(e) && e@ == ErrorView::ProbeFailure(spec_trim(diagnostics@))),
{
    if success {
        Ok(String::from_str("✓ SSH connection successful! You can now create the tunnel."))
    } else {
        Err(TunnelError::ProbeFailure(trim_text(diagnostics)))
    }
}

} // verus!
