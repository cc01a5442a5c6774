use vstd::prelude::*;

use crate::config::{parse_u16, parsed_unsigned};
use crate::search::{first_index, lemma_first_index_absent, lemma_first_index_found};

verus! {

/// Where a scan of a connection URL stands: before the authority, inside it,
/// or inside a password being hidden.
#[derive(Debug, Clone, Copy, PartialEq, Eq, Structural)]
pub enum UrlPart {
    Scheme,
    Authority,
    Secret,
}

/// The URL with the password of its authority replaced by `***`. Text up to
/// the first `//` is kept; in the authority a `:` not followed by `/` starts
/// hidden text, which runs to the next `@`; the authority ends at `/`, after
/// which everything is kept.
pub open spec fn redacted(s: Seq<char>, part: UrlPart) -> Seq<char>
    decreases s.len(),
{
    if s.len() == 0 {
        Seq::empty()
    } else {
        match part {
            UrlPart::Scheme => if s[0] == '/' && s.len() > 1 && s[1] == '/' {
                seq!['/', '/'] + redacted(s.subrange(2, s.len() as int), UrlPart::Authority)
            } else {
                seq![s[0]] + redacted(s.drop_first(), UrlPart::Scheme)
            },
            UrlPart::Authority => if s[0] == ':' && s.len() > 1 && s[1] != '/' {
                seq![':', '*', '*', '*'] + redacted(s.drop_first(), UrlPart::Secret)
            } else if s[0] == '/' {
                s
            } else {
                seq![s[0]] + redacted(s.drop_first(), UrlPart::Authority)
            },
            UrlPart::Secret => if s[0] == '@' {
                seq!['@'] + redacted(s.drop_first(), UrlPart::Authority)
            } else {
                redacted(s.drop_first(), UrlPart::Secret)
            },
        }
    }
}

/// The connection URL with its password hidden, fit for a log line.
pub fn redact_db_url(url: &str) -> (r: String)
    ensures
        r@ == redacted(url@, UrlPart::Scheme),
{
    let n = url.unicode_len();
    let mut out = String::new();
    let mut part = UrlPart::Scheme;
    let mut i: usize = 0;
    assert(url@.subrange(0, n as int) =~= url@);
    while i < n
        invariant
            n == url@.len(),
            i <= n,
            out@ + redacted(url@.subrange(i as int, n as int), part) == redacted(url@, UrlPart::Scheme),
        decreases n - i,
    {
        let ghost s = url@.subrange(i as int, n as int);
        let ghost tail = url@.subrange(i + 1, n as int);
        assert(s.drop_first() =~= tail);
        let ch = url.get_char(i);
        let next: Option<char> = if i + 1 < n {
            Some(url.get_char(i + 1))
        } else {
            None
        };
        match part {
            UrlPart::Scheme => {
                if ch == '/' && next == Some('/') {
                    assert(s.subrange(2, s.len() as int) =~= url@.subrange(i + 2, n as int));
                    out.append(url.substring_char(i, i + 2));
                    assert(url@.subrange(i as int, i + 2) =~= seq!['/', '/']);
                    part = UrlPart::Authority;
                    i = i + 2;
                } else {
                    out.append(url.substring_char(i, i + 1));
                    assert(url@.subrange(i as int, i + 1) =~= seq![ch]);
                    i = i + 1;
                }
            },
            UrlPart::Authority => {
                if ch == ':' && next.is_some() && next != Some('/') {
                    out.append(":***");
                    proof {
                        reveal_strlit(":***");
                    }
                    assert(":***"@ =~= seq![':', '*', '*', '*']);
                    part = UrlPart::Secret;
                    i = i + 1;
                } else if ch == '/' {
                    out.append(url.substring_char(i, n));
                    return out;
                } else {
                    out.append(url.substring_char(i, i + 1));
                    assert(url@.subrange(i as int, i + 1) =~= seq![ch]);
                    i = i + 1;
                }
            },
            UrlPart::Secret => {
                if ch == '@' {
                    out.append(url.substring_char(i, i + 1));
                    assert(url@.subrange(i as int, i + 1) =~= seq![ch]);
                    part = UrlPart::Authority;
                }
                i = i + 1;
            },
        }
        proof {
            assert(out@ + redacted(url@.subrange(i as int, n as int), part) == redacted(
                url@,
                UrlPart::Scheme,
            )) by {
                assert(seq![ch] + redacted(tail, part) == seq![ch] + redacted(tail, part));
            }
        }
    }
    assert(url@.subrange(n as int, n as int) =~= Seq::<char>::empty());
    out
}

/// Whether `://` starts at position `i` of `s`.
pub open spec fn sep_at(s: Seq<char>, i: int) -> bool {
    0 <= i && i + 3 <= s.len() && s[i] == ':' && s[i + 1] == '/' && s[i + 2] == '/'
}

/// The first position at or after `i` where `://` starts.
pub open spec fn find_sep(s: Seq<char>, i: int) -> Option<int>
    decreases s.len() - i,
{
    if i < 0 || i + 3 > s.len() {
        None
    } else if sep_at(s, i) {
        Some(i)
    } else {
        find_sep(s, i + 1)
    }
}

pub open spec fn is_char(c: char) -> spec_fn(char) -> bool {
    |x: char| x == c
}

/// `s` up to its first `c`, or all of it.
pub open spec fn before_char(s: Seq<char>, c: char) -> Seq<char> {
    match first_index(s, is_char(c)) {
        Some(p) => s.subrange(0, p),
        None => s,
    }
}

/// The last position of `c` in `s`.
pub open spec fn last_pos(s: Seq<char>, c: char) -> Option<int>
    decreases s.len(),
{
    if s.len() == 0 {
        None
    } else if s.last() == c {
        Some(s.len() - 1)
    } else {
        last_pos(s.drop_last(), c)
    }
}

/// `s` after its last `c`, or all of it.
pub open spec fn after_last_char(s: Seq<char>, c: char) -> Seq<char> {
    match last_pos(s, c) {
        Some(p) => s.subrange(p + 1, s.len() as int),
        None => s,
    }
}

/// The host and port that a connection URL names: the text between the first
/// `://` and the next, up to `/`, after the last `@`; the host runs to the
/// first `:`, and the port is the next `:`-separated part read as a number,
/// 5432 when missing or unreadable. No `://` gives nothing.
pub open spec fn host_port_of(url: Seq<char>) -> Option<(Seq<char>, u16)> {
    match find_sep(url, 0) {
        None => None,
        Some(k) => {
            let rest = url.subrange(k + 3, url.len() as int);
            let after = match find_sep(rest, 0) {
                Some(m) => rest.subrange(0, m),
                None => rest,
            };
            let hp = after_last_char(before_char(after, '/'), '@');
            let port = match first_index(hp, is_char(':')) {
                Some(p) => match parsed_unsigned(
                    before_char(hp.subrange(p + 1, hp.len() as int), ':'),
                    u16::MAX as nat,
                ) {
                    Some(v) => v as u16,
                    None => 5432,
                },
                None => 5432,
            };
            Some((before_char(hp, ':'), port))
        },
    }
}

proof fn lemma_find_sep(s: Seq<char>, i: int)
    ensures
        find_sep(s, i) matches Some(k) ==> sep_at(s, k),
    decreases s.len() - i,
{
    if 0 <= i && i + 3 <= s.len() && !sep_at(s, i) {
        lemma_find_sep(s, i + 1);
    }
}

fn find_sep_in(s: &str) -> (r: Option<usize>)
    ensures
        r matches Some(k) ==> find_sep(s@, 0) == Some(k as int) && k + 3 <= s@.len(),
        r is None ==> find_sep(s@, 0) is None,
{
    let n = s.unicode_len();
    let mut i: usize = 0;
    proof {
        lemma_find_sep(s@, 0);
    }
    while n >= 3 && i <= n - 3
        invariant
            n == s@.len(),
            find_sep(s@, 0) == find_sep(s@, i as int),
            find_sep(s@, 0) matches Some(k) ==> sep_at(s@, k),
        decreases n - i,
    {
        if s.get_char(i) == ':' && s.get_char(i + 1) == '/' && s.get_char(i + 2) == '/' {
            return Some(i);
        }
        i = i + 1;
    }
    None
}

fn first_pos(s: &str, c: char) -> (r: Option<usize>)
    ensures
        r matches Some(p) ==> first_index(s@, is_char(c)) == Some(p as int),
        r is None ==> first_index(s@, is_char(c)) is None,
{
    let n = s.unicode_len();
    let mut i: usize = 0;
    while i < n
        invariant
            n == s@.len(),
            i <= n,
            forall|j: int| 0 <= j < i ==> !is_char(c)(#[trigger] s@[j]),
        decreases n - i,
    {
        if s.get_char(i) == c {
            proof {
                lemma_first_index_found(s@, is_char(c), i as int);
            }
            return Some(i);
        }
        i = i + 1;
    }
    proof {
        lemma_first_index_absent(s@, is_char(c));
    }
    None
}

fn before_char_of(s: &str, c: char) -> (r: &str)
    ensures
        r@ == before_char(s@, c),
{
    match first_pos(s, c) {
        Some(p) => s.substring_char(0, p),
        None => s,
    }
}

fn after_last_char_of(s: &str, c: char) -> (r: &str)
    ensures
        r@ == after_last_char(s@, c),
{
    let n = s.unicode_len();
    let mut k: usize = n;
    assert(s@.subrange(0, n as int) =~= s@);
    while k > 0
        invariant
            n == s@.len(),
            k <= n,
            last_pos(s@, c) == last_pos(s@.subrange(0, k as int), c),
        decreases k,
    {
        assert(s@.subrange(0, k as int).drop_last() =~= s@.subrange(0, k - 1));
        if s.get_char(k - 1) == c {
            return s.substring_char(k, n);
        }
        k = k - 1;
    }
    s
}

/// The host and port of a connection URL, for a reachability check.
pub fn extract_host_port(url: &str) -> (r: Option<(String, u16)>)
    ensures
        match host_port_of(url@) {
            Some((h, p)) => r matches Some((rh, rp)) && rh@ == h && rp == p,
            None => r is None,
        },
{
    let k = find_sep_in(url)?;
    let n = url.unicode_len();
    let rest = url.substring_char(k + 3, n);
    let after = match find_sep_in(rest) {
        Some(m) => rest.substring_char(0, m),
        None => rest,
    };
    let authority = before_char_of(after, '/');
    let hostport = after_last_char_of(authority, '@');
    let host = before_char_of(hostport, ':');
    let port: u16 = match first_pos(hostport, ':') {
        Some(p) => {
            let m = hostport.unicode_len();
            let part = before_char_of(hostport.substring_char(p + 1, m), ':');
            match parse_u16(part) {
                Some(v) => v,
                None => 5432,
            }
        },
        None => 5432,
    };
    Some((host.to_string(), port))
}

} // verus!
