use vstd::prelude::*;

use crate::format::digit_char;
use crate::item::{Item, ItemType};
use crate::strings::{chars_eq, chars_to_string, to_chars, to_lower_chars, lower_seq};

verus! {

// ---------------------------------------------------------------------------
// URL encoding: unreserved characters pass, a space becomes `+`, and every
// other character is percent-encoded byte by byte.
// ---------------------------------------------------------------------------

pub open spec fn is_unreserved(c: char) -> bool {
    ('a' <= c && c <= 'z') || ('A' <= c && c <= 'Z') || ('0' <= c && c <= '9') || c == '-'
        || c == '_' || c == '.' || c == '~'
}

/// Uppercase hexadecimal digit.
pub open spec fn hex_char(d: nat) -> char
    recommends
        d < 16,
{
    if d < 10 {
        digit_char(d)
    } else {
        ((d + 55) as u8) as char
    }
}

/// The percent-escapes of a byte sequence.
pub open spec fn pct_bytes(bs: Seq<u8>) -> Seq<char>
    decreases bs.len(),
{
    if bs.len() == 0 {
        Seq::empty()
    } else {
        pct_bytes(bs.drop_last()) + seq![
            '%',
            hex_char(bs.last() as nat / 16),
            hex_char(bs.last() as nat % 16),
        ]
    }
}

/// The encoding of one character.
pub open spec fn enc_char(c: char) -> Seq<char> {
    if is_unreserved(c) {
        seq![c]
    } else if c == ' ' {
        seq!['+']
    } else {
        pct_bytes(vstd::utf8::encode_utf8(seq![c]))
    }
}

/// The URL encoding of a string.
pub open spec fn spec_encode(s: Seq<char>) -> Seq<char>
    decreases s.len(),
{
    if s.len() == 0 {
        Seq::empty()
    } else {
        spec_encode(s.drop_last()) + enc_char(s.last())
    }
}

/// Relies on `char::encode_utf8`: the UTF-8 bytes of one character, as
/// vstd's `encode_utf8` describes them.
#[verifier::external_body]
fn char_utf8_bytes(c: char) -> (r: Vec<u8>)
    ensures
        r@ == vstd::utf8::encode_utf8(seq![c]),
{
    let mut buf = [0u8; 4];
    c.encode_utf8(&mut buf).as_bytes().to_vec()
}

fn push_hex_byte(v: &mut Vec<char>, b: u8)
    ensures
        final(v)@ == old(v)@ + seq!['%', hex_char(b as nat / 16), hex_char(b as nat % 16)],
{
    v.push('%');
    let hi: u8 = b / 16;
    let lo: u8 = b % 16;
    let hc: char = if hi < 10 {
        (hi + 48) as char
    } else {
        (hi + 55) as char
    };
    let lc: char = if lo < 10 {
        (lo + 48) as char
    } else {
        (lo + 55) as char
    };
    v.push(hc);
    v.push(lc);
    proof {
        assert(final(v)@ =~= old(v)@ + seq![
            '%',
            hex_char(b as nat / 16),
            hex_char(b as nat % 16),
        ]);
    }
}

/// URL-encodes a query string.
pub fn encode(s: &str) -> (r: String)
    ensures
        r@ == spec_encode(s@),
{
    let cs = to_chars(s);
    let n: usize = cs.len();
    let mut out: Vec<char> = Vec::new();
    let mut i: usize = 0;
    while i < n
        invariant
            i <= n,
            n == cs@.len(),
            cs@ == s@,
            out@ == spec_encode(s@.subrange(0, i as int)),
        decreases n - i,
    {
        let c = cs[i];
        let ghost pre = out@;
        if ('a' <= c && c <= 'z') || ('A' <= c && c <= 'Z') || ('0' <= c && c <= '9') || c == '-'
            || c == '_' || c == '.' || c == '~' {
            out.push(c);
            proof {
                assert(out@ =~= pre + enc_char(c));
            }
        } else if c == ' ' {
            out.push('+');
            proof {
                assert(out@ =~= pre + enc_char(c));
            }
        } else {
            let bs = char_utf8_bytes(c);
            let m: usize = bs.len();
            let mut k: usize = 0;
            while k < m
                invariant
                    k <= m,
                    m == bs@.len(),
                    bs@ == vstd::utf8::encode_utf8(seq![c]),
                    out@ == pre + pct_bytes(bs@.subrange(0, k as int)),
                decreases m - k,
            {
                push_hex_byte(&mut out, bs[k]);
                proof {
                    assert(bs@.subrange(0, k + 1).drop_last() =~= bs@.subrange(0, k as int));
                    assert(bs@.subrange(0, k + 1).last() == bs@[k as int]);
                    assert(out@ =~= pre + pct_bytes(bs@.subrange(0, k + 1)));
                }
                k = k + 1;
            }
            proof {
                assert(bs@.subrange(0, m as int) =~= bs@);
                assert(out@ =~= pre + enc_char(c));
            }
        }
        proof {
            assert(s@.subrange(0, i + 1).drop_last() =~= s@.subrange(0, i as int));
            assert(s@.subrange(0, i + 1).last() == s@[i as int]);
        }
        i = i + 1;
    }
    proof {
        assert(s@.subrange(0, n as int) =~= s@);
    }
    chars_to_string(&out)
}

// ---------------------------------------------------------------------------
// Engines.
// ---------------------------------------------------------------------------

/// The canonical engine for a recognised first word.
pub open spec fn engine_of(p: Seq<char>) -> Option<Seq<char>> {
    if p == seq!['g', 'o', 'o', 'g', 'l', 'e'] {
        Some(seq!['g', 'o', 'o', 'g', 'l', 'e'])
    } else if p == seq!['g', 'i', 't', 'h', 'u', 'b'] {
        Some(seq!['g', 'i', 't', 'h', 'u', 'b'])
    } else if p == seq!['y', 'o', 'u', 't', 'u', 'b', 'e'] {
        Some(seq!['y', 'o', 'u', 't', 'u', 'b', 'e'])
    } else if p == seq!['d', 'd', 'g'] || p == seq!['d', 'u', 'c', 'k', 'd', 'u', 'c', 'k', 'g', 'o'] {
        Some(seq!['d', 'u', 'c', 'k', 'd', 'u', 'c', 'k', 'g', 'o'])
    } else if p == seq!['w', 'i', 'k', 'i'] || p == seq!['w', 'i', 'k', 'i', 'p', 'e', 'd', 'i', 'a'] {
        Some(seq!['w', 'i', 'k', 'i', 'p', 'e', 'd', 'i', 'a'])
    } else if p == seq!['s', 't', 'a', 'c', 'k', 'o', 'v', 'e', 'r', 'f', 'l', 'o', 'w'] || p == seq!['s', 'o'] {
        Some(seq!['s', 't', 'a', 'c', 'k', 'o', 'v', 'e', 'r', 'f', 'l', 'o', 'w'])
    } else if p == seq!['r', 'e', 'd', 'd', 'i', 't'] {
        Some(seq!['r', 'e', 'd', 'd', 'i', 't'])
    } else if p == seq!['a', 'm', 'a', 'z', 'o', 'n'] {
        Some(seq!['a', 'm', 'a', 'z', 'o', 'n'])
    } else if p == seq!['n', 'p', 'm'] {
        Some(seq!['n', 'p', 'm'])
    } else if p == seq!['c', 'r', 'a', 't', 'e', 's'] || p == seq!['c', 'r', 'a', 't', 'e', 's', 'i', 'o'] {
        Some(seq!['c', 'r', 'a', 't', 'e', 's'])
    } else if p == seq!['p', 'y', 'p', 'i'] {
        Some(seq!['p', 'y', 'p', 'i'])
    } else {
        None
    }
}

/// The display name of an engine (the default engine for anything unknown).
pub open spec fn engine_name(e: Seq<char>) -> Seq<char> {
    if e == seq!['g', 'o', 'o', 'g', 'l', 'e'] {
        seq!['G', 'o', 'o', 'g', 'l', 'e']
    } else if e == seq!['g', 'i', 't', 'h', 'u', 'b'] {
        seq!['G', 'i', 't', 'H', 'u', 'b']
    } else if e == seq!['y', 'o', 'u', 't', 'u', 'b', 'e'] {
        seq!['Y', 'o', 'u', 'T', 'u', 'b', 'e']
    } else if e == seq!['d', 'u', 'c', 'k', 'd', 'u', 'c', 'k', 'g', 'o'] {
        seq!['D', 'u', 'c', 'k', 'D', 'u', 'c', 'k', 'G', 'o']
    } else if e == seq!['w', 'i', 'k', 'i', 'p', 'e', 'd', 'i', 'a'] {
        seq!['W', 'i', 'k', 'i', 'p', 'e', 'd', 'i', 'a']
    } else if e == seq!['s', 't', 'a', 'c', 'k', 'o', 'v', 'e', 'r', 'f', 'l', 'o', 'w'] {
        seq!['S', 't', 'a', 'c', 'k', ' ', 'O', 'v', 'e', 'r', 'f', 'l', 'o', 'w']
    } else if e == seq!['r', 'e', 'd', 'd', 'i', 't'] {
        seq!['R', 'e', 'd', 'd', 'i', 't']
    } else if e == seq!['a', 'm', 'a', 'z', 'o', 'n'] {
        seq!['A', 'm', 'a', 'z', 'o', 'n']
    } else if e == seq!['n', 'p', 'm'] {
        seq!['n', 'p', 'm']
    } else if e == seq!['c', 'r', 'a', 't', 'e', 's'] {
        seq!['c', 'r', 'a', 't', 'e', 's', '.', 'i', 'o']
    } else if e == seq!['p', 'y', 'p', 'i'] {
        seq!['P', 'y', 'P', 'I']
    } else {
        seq!['G', 'o', 'o', 'g', 'l', 'e']
    }
}

/// The query-URL prefix of an engine.
pub open spec fn engine_url_prefix(e: Seq<char>) -> Seq<char> {
    if e == seq!['g', 'o', 'o', 'g', 'l', 'e'] {
        seq!['h', 't', 't', 'p', 's', ':', '/', '/', 'w', 'w', 'w', '.', 'g', 'o', 'o', 'g', 'l', 'e', '.', 'c', 'o', 'm', '/', 's', 'e', 'a', 'r', 'c', 'h', '?', 'q', '=']
    } else if e == seq!['g', 'i', 't', 'h', 'u', 'b'] {
        seq!['h', 't', 't', 'p', 's', ':', '/', '/', 'g', 'i', 't', 'h', 'u', 'b', '.', 'c', 'o', 'm', '/', 's', 'e', 'a', 'r', 'c', 'h', '?', 'q', '=']
    } else if e == seq!['y', 'o', 'u', 't', 'u', 'b', 'e'] {
        seq!['h', 't', 't', 'p', 's', ':', '/', '/', 'w', 'w', 'w', '.', 'y', 'o', 'u', 't', 'u', 'b', 'e', '.', 'c', 'o', 'm', '/', 'r', 'e', 's', 'u', 'l', 't', 's', '?', 's', 'e', 'a', 'r', 'c', 'h', '_', 'q', 'u', 'e', 'r', 'y', '=']
    } else if e == seq!['d', 'u', 'c', 'k', 'd', 'u', 'c', 'k', 'g', 'o'] {
        seq!['h', 't', 't', 'p', 's', ':', '/', '/', 'd', 'u', 'c', 'k', 'd', 'u', 'c', 'k', 'g', 'o', '.', 'c', 'o', 'm', '/', '?', 'q', '=']
    } else if e == seq!['w', 'i', 'k', 'i', 'p', 'e', 'd', 'i', 'a'] {
        seq!['h', 't', 't', 'p', 's', ':', '/', '/', 'e', 'n', '.', 'w', 'i', 'k', 'i', 'p', 'e', 'd', 'i', 'a', '.', 'o', 'r', 'g', '/', 'w', 'i', 'k', 'i', '/', 'S', 'p', 'e', 'c', 'i', 'a', 'l', ':', 'S', 'e', 'a', 'r', 'c', 'h', '?', 's', 'e', 'a', 'r', 'c', 'h', '=']
    } else if e == seq!['s', 't', 'a', 'c', 'k', 'o', 'v', 'e', 'r', 'f', 'l', 'o', 'w'] {
        seq!['h', 't', 't', 'p', 's', ':', '/', '/', 's', 't', 'a', 'c', 'k', 'o', 'v', 'e', 'r', 'f', 'l', 'o', 'w', '.', 'c', 'o', 'm', '/', 's', 'e', 'a', 'r', 'c', 'h', '?', 'q', '=']
    } else if e == seq!['r', 'e', 'd', 'd', 'i', 't'] {
        seq!['h', 't', 't', 'p', 's', ':', '/', '/', 'w', 'w', 'w', '.', 'r', 'e', 'd', 'd', 'i', 't', '.', 'c', 'o', 'm', '/', 's', 'e', 'a', 'r', 'c', 'h', '/', '?', 'q', '=']
    } else if e == seq!['a', 'm', 'a', 'z', 'o', 'n'] {
        seq!['h', 't', 't', 'p', 's', ':', '/', '/', 'w', 'w', 'w', '.', 'a', 'm', 'a', 'z', 'o', 'n', '.', 'c', 'o', 'm', '/', 's', '?', 'k', '=']
    } else if e == seq!['n', 'p', 'm'] {
        seq!['h', 't', 't', 'p', 's', ':', '/', '/', 'w', 'w', 'w', '.', 'n', 'p', 'm', 'j', 's', '.', 'c', 'o', 'm', '/', 's', 'e', 'a', 'r', 'c', 'h', '?', 'q', '=']
    } else if e == seq!['c', 'r', 'a', 't', 'e', 's'] {
        seq!['h', 't', 't', 'p', 's', ':', '/', '/', 'c', 'r', 'a', 't', 'e', 's', '.', 'i', 'o', '/', 's', 'e', 'a', 'r', 'c', 'h', '?', 'q', '=']
    } else if e == seq!['p', 'y', 'p', 'i'] {
        seq!['h', 't', 't', 'p', 's', ':', '/', '/', 'p', 'y', 'p', 'i', '.', 'o', 'r', 'g', '/', 's', 'e', 'a', 'r', 'c', 'h', '/', '?', 'q', '=']
    } else {
        seq!['h', 't', 't', 'p', 's', ':', '/', '/', 'w', 'w', 'w', '.', 'g', 'o', 'o', 'g', 'l', 'e', '.', 'c', 'o', 'm', '/', 's', 'e', 'a', 'r', 'c', 'h', '?', 'q', '=']
    }
}

#[verifier::rlimit(100)]
fn engine_of_exec(p: &Vec<char>) -> (r: Option<Vec<char>>)
    ensures
        match r {
            None => engine_of(p@) is None,
            Some(e) => engine_of(p@) == Some(e@),
        },
{
    let kw_amazon: Vec<char> = vec!['a', 'm', 'a', 'z', 'o', 'n'];
    let kw_crates: Vec<char> = vec!['c', 'r', 'a', 't', 'e', 's'];
    let kw_cratesio: Vec<char> = vec!['c', 'r', 'a', 't', 'e', 's', 'i', 'o'];
    let kw_ddg: Vec<char> = vec!['d', 'd', 'g'];
    let kw_duckduckgo: Vec<char> = vec!['d', 'u', 'c', 'k', 'd', 'u', 'c', 'k', 'g', 'o'];
    let kw_github: Vec<char> = vec!['g', 'i', 't', 'h', 'u', 'b'];
    let kw_google: Vec<char> = vec!['g', 'o', 'o', 'g', 'l', 'e'];
    let kw_npm: Vec<char> = vec!['n', 'p', 'm'];
    let kw_pypi: Vec<char> = vec!['p', 'y', 'p', 'i'];
    let kw_reddit: Vec<char> = vec!['r', 'e', 'd', 'd', 'i', 't'];
    let kw_so: Vec<char> = vec!['s', 'o'];
    let kw_stackoverflow: Vec<char> = vec!['s', 't', 'a', 'c', 'k', 'o', 'v', 'e', 'r', 'f', 'l', 'o', 'w'];
    let kw_wiki: Vec<char> = vec!['w', 'i', 'k', 'i'];
    let kw_wikipedia: Vec<char> = vec!['w', 'i', 'k', 'i', 'p', 'e', 'd', 'i', 'a'];
    let kw_youtube: Vec<char> = vec!['y', 'o', 'u', 't', 'u', 'b', 'e'];
    proof {
        assert(kw_amazon@ =~= seq!['a', 'm', 'a', 'z', 'o', 'n']);
        assert(kw_crates@ =~= seq!['c', 'r', 'a', 't', 'e', 's']);
        assert(kw_cratesio@ =~= seq!['c', 'r', 'a', 't', 'e', 's', 'i', 'o']);
        assert(kw_ddg@ =~= seq!['d', 'd', 'g']);
        assert(kw_duckduckgo@ =~= seq!['d', 'u', 'c', 'k', 'd', 'u', 'c', 'k', 'g', 'o']);
        assert(kw_github@ =~= seq!['g', 'i', 't', 'h', 'u', 'b']);
        assert(kw_google@ =~= seq!['g', 'o', 'o', 'g', 'l', 'e']);
        assert(kw_npm@ =~= seq!['n', 'p', 'm']);
        assert(kw_pypi@ =~= seq!['p', 'y', 'p', 'i']);
        assert(kw_reddit@ =~= seq!['r', 'e', 'd', 'd', 'i', 't']);
        assert(kw_so@ =~= seq!['s', 'o']);
        assert(kw_stackoverflow@ =~= seq!['s', 't', 'a', 'c', 'k', 'o', 'v', 'e', 'r', 'f', 'l', 'o', 'w']);
        assert(kw_wiki@ =~= seq!['w', 'i', 'k', 'i']);
        assert(kw_wikipedia@ =~= seq!['w', 'i', 'k', 'i', 'p', 'e', 'd', 'i', 'a']);
        assert(kw_youtube@ =~= seq!['y', 'o', 'u', 't', 'u', 'b', 'e']);
    }
    if chars_eq(p, &kw_google) {
        Some(vec!['g', 'o', 'o', 'g', 'l', 'e'])
    } else if chars_eq(p, &kw_github) {
        Some(vec!['g', 'i', 't', 'h', 'u', 'b'])
    } else if chars_eq(p, &kw_youtube) {
        Some(vec!['y', 'o', 'u', 't', 'u', 'b', 'e'])
    } else if chars_eq(p, &kw_ddg) || chars_eq(p, &kw_duckduckgo) {
        Some(vec!['d', 'u', 'c', 'k', 'd', 'u', 'c', 'k', 'g', 'o'])
    } else if chars_eq(p, &kw_wiki) || chars_eq(p, &kw_wikipedia) {
        Some(vec!['w', 'i', 'k', 'i', 'p', 'e', 'd', 'i', 'a'])
    } else if chars_eq(p, &kw_stackoverflow) || chars_eq(p, &kw_so) {
        Some(vec!['s', 't', 'a', 'c', 'k', 'o', 'v', 'e', 'r', 'f', 'l', 'o', 'w'])
    } else if chars_eq(p, &kw_reddit) {
        Some(vec!['r', 'e', 'd', 'd', 'i', 't'])
    } else if chars_eq(p, &kw_amazon) {
        Some(vec!['a', 'm', 'a', 'z', 'o', 'n'])
    } else if chars_eq(p, &kw_npm) {
        Some(vec!['n', 'p', 'm'])
    } else if chars_eq(p, &kw_crates) || chars_eq(p, &kw_cratesio) {
        Some(vec!['c', 'r', 'a', 't', 'e', 's'])
    } else if chars_eq(p, &kw_pypi) {
        Some(vec!['p', 'y', 'p', 'i'])
    } else {
        None
    }
}

#[verifier::rlimit(100)]
fn engine_name_url(e: &Vec<char>) -> (r: (Vec<char>, Vec<char>))
    ensures
        r.0@ == engine_name(e@),
        r.1@ == engine_url_prefix(e@),
{
    let kw_amazon: Vec<char> = vec!['a', 'm', 'a', 'z', 'o', 'n'];
    let kw_crates: Vec<char> = vec!['c', 'r', 'a', 't', 'e', 's'];
    let kw_duckduckgo: Vec<char> = vec!['d', 'u', 'c', 'k', 'd', 'u', 'c', 'k', 'g', 'o'];
    let kw_github: Vec<char> = vec!['g', 'i', 't', 'h', 'u', 'b'];
    let kw_google: Vec<char> = vec!['g', 'o', 'o', 'g', 'l', 'e'];
    let kw_npm: Vec<char> = vec!['n', 'p', 'm'];
    let kw_pypi: Vec<char> = vec!['p', 'y', 'p', 'i'];
    let kw_reddit: Vec<char> = vec!['r', 'e', 'd', 'd', 'i', 't'];
    let kw_stackoverflow: Vec<char> = vec!['s', 't', 'a', 'c', 'k', 'o', 'v', 'e', 'r', 'f', 'l', 'o', 'w'];
    let kw_wikipedia: Vec<char> = vec!['w', 'i', 'k', 'i', 'p', 'e', 'd', 'i', 'a'];
    let kw_youtube: Vec<char> = vec!['y', 'o', 'u', 't', 'u', 'b', 'e'];
    proof {
        assert(kw_amazon@ =~= seq!['a', 'm', 'a', 'z', 'o', 'n']);
        assert(kw_crates@ =~= seq!['c', 'r', 'a', 't', 'e', 's']);
        assert(kw_duckduckgo@ =~= seq!['d', 'u', 'c', 'k', 'd', 'u', 'c', 'k', 'g', 'o']);
        assert(kw_github@ =~= seq!['g', 'i', 't', 'h', 'u', 'b']);
        assert(kw_google@ =~= seq!['g', 'o', 'o', 'g', 'l', 'e']);
        assert(kw_npm@ =~= seq!['n', 'p', 'm']);
        assert(kw_pypi@ =~= seq!['p', 'y', 'p', 'i']);
        assert(kw_reddit@ =~= seq!['r', 'e', 'd', 'd', 'i', 't']);
        assert(kw_stackoverflow@ =~= seq!['s', 't', 'a', 'c', 'k', 'o', 'v', 'e', 'r', 'f', 'l', 'o', 'w']);
        assert(kw_wikipedia@ =~= seq!['w', 'i', 'k', 'i', 'p', 'e', 'd', 'i', 'a']);
        assert(kw_youtube@ =~= seq!['y', 'o', 'u', 't', 'u', 'b', 'e']);
    }
    if chars_eq(e, &kw_google) {
        let n: Vec<char> = vec!['G', 'o', 'o', 'g', 'l', 'e'];
        let u: Vec<char> = vec!['h', 't', 't', 'p', 's', ':', '/', '/', 'w', 'w', 'w', '.', 'g', 'o', 'o', 'g', 'l', 'e', '.', 'c', 'o', 'm', '/', 's', 'e', 'a', 'r', 'c', 'h', '?', 'q', '='];
        proof {
            assert(n@ =~= seq!['G', 'o', 'o', 'g', 'l', 'e']);
            assert(u@ =~= seq!['h', 't', 't', 'p', 's', ':', '/', '/', 'w', 'w', 'w', '.', 'g', 'o', 'o', 'g', 'l', 'e', '.', 'c', 'o', 'm', '/', 's', 'e', 'a', 'r', 'c', 'h', '?', 'q', '=']);
        }
        (n, u)
    } else if chars_eq(e, &kw_github) {
        let n: Vec<char> = vec!['G', 'i', 't', 'H', 'u', 'b'];
        let u: Vec<char> = vec!['h', 't', 't', 'p', 's', ':', '/', '/', 'g', 'i', 't', 'h', 'u', 'b', '.', 'c', 'o', 'm', '/', 's', 'e', 'a', 'r', 'c', 'h', '?', 'q', '='];
        proof {
            assert(n@ =~= seq!['G', 'i', 't', 'H', 'u', 'b']);
            assert(u@ =~= seq!['h', 't', 't', 'p', 's', ':', '/', '/', 'g', 'i', 't', 'h', 'u', 'b', '.', 'c', 'o', 'm', '/', 's', 'e', 'a', 'r', 'c', 'h', '?', 'q', '=']);
        }
        (n, u)
    } else if chars_eq(e, &kw_youtube) {
        let n: Vec<char> = vec!['Y', 'o', 'u', 'T', 'u', 'b', 'e'];
        let u: Vec<char> = vec!['h', 't', 't', 'p', 's', ':', '/', '/', 'w', 'w', 'w', '.', 'y', 'o', 'u', 't', 'u', 'b', 'e', '.', 'c', 'o', 'm', '/', 'r', 'e', 's', 'u', 'l', 't', 's', '?', 's', 'e', 'a', 'r', 'c', 'h', '_', 'q', 'u', 'e', 'r', 'y', '='];
        proof {
            assert(n@ =~= seq!['Y', 'o', 'u', 'T', 'u', 'b', 'e']);
            assert(u@ =~= seq!['h', 't', 't', 'p', 's', ':', '/', '/', 'w', 'w', 'w', '.', 'y', 'o', 'u', 't', 'u', 'b', 'e', '.', 'c', 'o', 'm', '/', 'r', 'e', 's', 'u', 'l', 't', 's', '?', 's', 'e', 'a', 'r', 'c', 'h', '_', 'q', 'u', 'e', 'r', 'y', '=']);
        }
        (n, u)
    } else if chars_eq(e, &kw_duckduckgo) {
        let n: Vec<char> = vec!['D', 'u', 'c', 'k', 'D', 'u', 'c', 'k', 'G', 'o'];
        let u: Vec<char> = vec!['h', 't', 't', 'p', 's', ':', '/', '/', 'd', 'u', 'c', 'k', 'd', 'u', 'c', 'k', 'g', 'o', '.', 'c', 'o', 'm', '/', '?', 'q', '='];
        proof {
            assert(n@ =~= seq!['D', 'u', 'c', 'k', 'D', 'u', 'c', 'k', 'G', 'o']);
            assert(u@ =~= seq!['h', 't', 't', 'p', 's', ':', '/', '/', 'd', 'u', 'c', 'k', 'd', 'u', 'c', 'k', 'g', 'o', '.', 'c', 'o', 'm', '/', '?', 'q', '=']);
        }
        (n, u)
    } else if chars_eq(e, &kw_wikipedia) {
        let n: Vec<char> = vec!['W', 'i', 'k', 'i', 'p', 'e', 'd', 'i', 'a'];
        let u: Vec<char> = vec!['h', 't', 't', 'p', 's', ':', '/', '/', 'e', 'n', '.', 'w', 'i', 'k', 'i', 'p', 'e', 'd', 'i', 'a', '.', 'o', 'r', 'g', '/', 'w', 'i', 'k', 'i', '/', 'S', 'p', 'e', 'c', 'i', 'a', 'l', ':', 'S', 'e', 'a', 'r', 'c', 'h', '?', 's', 'e', 'a', 'r', 'c', 'h', '='];
        proof {
            assert(n@ =~= seq!['W', 'i', 'k', 'i', 'p', 'e', 'd', 'i', 'a']);
            assert(u@ =~= seq!['h', 't', 't', 'p', 's', ':', '/', '/', 'e', 'n', '.', 'w', 'i', 'k', 'i', 'p', 'e', 'd', 'i', 'a', '.', 'o', 'r', 'g', '/', 'w', 'i', 'k', 'i', '/', 'S', 'p', 'e', 'c', 'i', 'a', 'l', ':', 'S', 'e', 'a', 'r', 'c', 'h', '?', 's', 'e', 'a', 'r', 'c', 'h', '=']);
        }
        (n, u)
    } else if chars_eq(e, &kw_stackoverflow) {
        let n: Vec<char> = vec!['S', 't', 'a', 'c', 'k', ' ', 'O', 'v', 'e', 'r', 'f', 'l', 'o', 'w'];
        let u: Vec<char> = vec!['h', 't', 't', 'p', 's', ':', '/', '/', 's', 't', 'a', 'c', 'k', 'o', 'v', 'e', 'r', 'f', 'l', 'o', 'w', '.', 'c', 'o', 'm', '/', 's', 'e', 'a', 'r', 'c', 'h', '?', 'q', '='];
        proof {
            assert(n@ =~= seq!['S', 't', 'a', 'c', 'k', ' ', 'O', 'v', 'e', 'r', 'f', 'l', 'o', 'w']);
            assert(u@ =~= seq!['h', 't', 't', 'p', 's', ':', '/', '/', 's', 't', 'a', 'c', 'k', 'o', 'v', 'e', 'r', 'f', 'l', 'o', 'w', '.', 'c', 'o', 'm', '/', 's', 'e', 'a', 'r', 'c', 'h', '?', 'q', '=']);
        }
        (n, u)
    } else if chars_eq(e, &kw_reddit) {
        let n: Vec<char> = vec!['R', 'e', 'd', 'd', 'i', 't'];
        let u: Vec<char> = vec!['h', 't', 't', 'p', 's', ':', '/', '/', 'w', 'w', 'w', '.', 'r', 'e', 'd', 'd', 'i', 't', '.', 'c', 'o', 'm', '/', 's', 'e', 'a', 'r', 'c', 'h', '/', '?', 'q', '='];
        proof {
            assert(n@ =~= seq!['R', 'e', 'd', 'd', 'i', 't']);
            assert(u@ =~= seq!['h', 't', 't', 'p', 's', ':', '/', '/', 'w', 'w', 'w', '.', 'r', 'e', 'd', 'd', 'i', 't', '.', 'c', 'o', 'm', '/', 's', 'e', 'a', 'r', 'c', 'h', '/', '?', 'q', '=']);
        }
        (n, u)
    } else if chars_eq(e, &kw_amazon) {
        let n: Vec<char> = vec!['A', 'm', 'a', 'z', 'o', 'n'];
        let u: Vec<char> = vec!['h', 't', 't', 'p', 's', ':', '/', '/', 'w', 'w', 'w', '.', 'a', 'm', 'a', 'z', 'o', 'n', '.', 'c', 'o', 'm', '/', 's', '?', 'k', '='];
        proof {
            assert(n@ =~= seq!['A', 'm', 'a', 'z', 'o', 'n']);
            assert(u@ =~= seq!['h', 't', 't', 'p', 's', ':', '/', '/', 'w', 'w', 'w', '.', 'a', 'm', 'a', 'z', 'o', 'n', '.', 'c', 'o', 'm', '/', 's', '?', 'k', '=']);
        }
        (n, u)
    } else if chars_eq(e, &kw_npm) {
        let n: Vec<char> = vec!['n', 'p', 'm'];
        let u: Vec<char> = vec!['h', 't', 't', 'p', 's', ':', '/', '/', 'w', 'w', 'w', '.', 'n', 'p', 'm', 'j', 's', '.', 'c', 'o', 'm', '/', 's', 'e', 'a', 'r', 'c', 'h', '?', 'q', '='];
        proof {
            assert(n@ =~= seq!['n', 'p', 'm']);
            assert(u@ =~= seq!['h', 't', 't', 'p', 's', ':', '/', '/', 'w', 'w', 'w', '.', 'n', 'p', 'm', 'j', 's', '.', 'c', 'o', 'm', '/', 's', 'e', 'a', 'r', 'c', 'h', '?', 'q', '=']);
        }
        (n, u)
    } else if chars_eq(e, &kw_crates) {
        let n: Vec<char> = vec!['c', 'r', 'a', 't', 'e', 's', '.', 'i', 'o'];
        let u: Vec<char> = vec!['h', 't', 't', 'p', 's', ':', '/', '/', 'c', 'r', 'a', 't', 'e', 's', '.', 'i', 'o', '/', 's', 'e', 'a', 'r', 'c', 'h', '?', 'q', '='];
        proof {
            assert(n@ =~= seq!['c', 'r', 'a', 't', 'e', 's', '.', 'i', 'o']);
            assert(u@ =~= seq!['h', 't', 't', 'p', 's', ':', '/', '/', 'c', 'r', 'a', 't', 'e', 's', '.', 'i', 'o', '/', 's', 'e', 'a', 'r', 'c', 'h', '?', 'q', '=']);
        }
        (n, u)
    } else if chars_eq(e, &kw_pypi) {
        let n: Vec<char> = vec!['P', 'y', 'P', 'I'];
        let u: Vec<char> = vec!['h', 't', 't', 'p', 's', ':', '/', '/', 'p', 'y', 'p', 'i', '.', 'o', 'r', 'g', '/', 's', 'e', 'a', 'r', 'c', 'h', '/', '?', 'q', '='];
        proof {
            assert(n@ =~= seq!['P', 'y', 'P', 'I']);
            assert(u@ =~= seq!['h', 't', 't', 'p', 's', ':', '/', '/', 'p', 'y', 'p', 'i', '.', 'o', 'r', 'g', '/', 's', 'e', 'a', 'r', 'c', 'h', '/', '?', 'q', '=']);
        }
        (n, u)
    } else {
        let n: Vec<char> = vec!['G', 'o', 'o', 'g', 'l', 'e'];
        let u: Vec<char> = vec!['h', 't', 't', 'p', 's', ':', '/', '/', 'w', 'w', 'w', '.', 'g', 'o', 'o', 'g', 'l', 'e', '.', 'c', 'o', 'm', '/', 's', 'e', 'a', 'r', 'c', 'h', '?', 'q', '='];
        proof {
            assert(n@ =~= seq!['G', 'o', 'o', 'g', 'l', 'e']);
            assert(u@ =~= seq!['h', 't', 't', 'p', 's', ':', '/', '/', 'w', 'w', 'w', '.', 'g', 'o', 'o', 'g', 'l', 'e', '.', 'c', 'o', 'm', '/', 's', 'e', 'a', 'r', 'c', 'h', '?', 'q', '=']);
        }
        (n, u)
    }
}


/// First position of a space (or the length).
pub open spec fn find_space(s: Seq<char>, i: nat) -> nat
    decreases s.len() - i,
{
    if i < s.len() && s[i as int] != ' ' {
        find_space(s, i + 1)
    } else {
        i
    }
}

/// The engine and the narrowed query of a web-search residual: the first
/// word picks the engine, anything else searches the default engine with
/// the whole text.
pub open spec fn spec_parse_query(q: Seq<char>) -> (Seq<char>, Seq<char>) {
    let sp = find_space(q, 0);
    let prefix = lower_seq(q.subrange(0, sp as int));
    let rem = if sp < q.len() {
        q.subrange(sp as int + 1, q.len() as int)
    } else {
        Seq::empty()
    };
    match engine_of(prefix) {
        Some(e) => (e, rem),
        None => (seq!['g', 'o', 'o', 'g', 'l', 'e'], q),
    }
}

/// The search item of a web-search query.
pub struct WebSearchManager;

impl WebSearchManager {
    pub fn new() -> (m: WebSearchManager) {
        WebSearchManager
    }

    /// Splits a residual query into engine and narrowed query.
    pub fn parse_query(&self, query: &str) -> (r: (String, String))
        ensures
            r.0@ == spec_parse_query(query@).0,
            r.1@ == spec_parse_query(query@).1,
    {
        let cs = to_chars(query);
        let n: usize = cs.len();
        let mut sp: usize = 0;
        while sp < n && cs[sp] != ' '
            invariant
                sp <= n,
                n == cs@.len(),
                cs@ == query@,
                find_space(query@, 0) == find_space(query@, sp as nat),
            decreases n - sp,
        {
            sp = sp + 1;
        }
        let prefix = crate::strings::subvec(&cs, 0, sp);
        let pl = to_lower_chars(&prefix);
        let rem: Vec<char> = if sp < n {
            crate::strings::subvec(&cs, sp + 1, n)
        } else {
            Vec::new()
        };
        proof {
            if sp >= n {
                assert(rem@ =~= Seq::<char>::empty());
            }
        }
        match engine_of_exec(&pl) {
            Some(e) => (chars_to_string(&e), chars_to_string(&rem)),
            None => {
                let g: Vec<char> = vec!['g', 'o', 'o', 'g', 'l', 'e'];
                proof {
                    assert(g@ =~= seq!['g', 'o', 'o', 'g', 'l', 'e']);
                }
                (chars_to_string(&g), String::from_str(query))
            },
        }
    }

    /// The display name and full query URL for an engine and a query.
    pub fn get_search_url(&self, engine: &str, query: &str) -> (r: (String, String))
        ensures
            r.0@ == engine_name(engine@),
            r.1@ == engine_url_prefix(engine@) + spec_encode(query@),
    {
        let ec = to_chars(engine);
        let (name, url) = engine_name_url(&ec);
        let enc = encode(query);
        let u = chars_to_string(&url).concat(enc.as_str());
        (chars_to_string(&name), u)
    }

    /// One search item for a non-empty narrowed query; engine listings for
    /// an empty query are assembled by the caller from the engine table.
    pub fn get_items(&self, query: &str) -> (r: Vec<Item>)
        ensures
            query@.len() == 0 ==> r@.len() == 0,
            query@.len() > 0 && spec_parse_query(query@).1.len() == 0 ==> r@.len() == 0,
            query@.len() > 0 && spec_parse_query(query@).1.len() > 0 ==> ({
                &&& r@.len() == 1
                &&& r@[0].item_type == ItemType::WebSearch
                &&& r@[0].metadata.search_engine matches Some(e) && e@ == spec_parse_query(
                    query@,
                ).0
                &&& r@[0].metadata.query matches Some(sq) && sq@ == spec_parse_query(query@).1
                &&& r@[0].metadata.url matches Some(u) && u@ == engine_url_prefix(
                    spec_parse_query(query@).0,
                ) + spec_encode(spec_parse_query(query@).1)
            }),
    {
        let mut items: Vec<Item> = Vec::new();
        if query.is_empty() {
            return items;
        }
        let (engine, search_query) = self.parse_query(query);
        if search_query.as_str().is_empty() {
            return items;
        }
        let (name, url) = self.get_search_url(engine.as_str(), search_query.as_str());
        proof {
            reveal_strlit("websearch:");
            assert("websearch:"@ =~= seq![
                'w', 'e', 'b', 's', 'e', 'a', 'r', 'c', 'h', ':',
            ]);
            reveal_strlit(":");
            assert(":"@ =~= seq![':']);
            reveal_strlit("Search ");
            reveal_strlit(": ");
            reveal_strlit("Open ");
            reveal_strlit(" in browser");
        }
        let id = String::from_str("websearch:").concat(engine.as_str()).concat(":").concat(
            search_query.as_str(),
        );
        let title = String::from_str("Search ").concat(name.as_str()).concat(": ").concat(
            search_query.as_str(),
        );
        let desc = String::from_str("Open ").concat(url.as_str()).concat(" in browser");
        let mut item = Item::new(id, title, ItemType::WebSearch).with_description(
            desc,
        ).with_icon(String::from_str("web-browser"));
        item.metadata.search_engine = Some(engine);
        item.metadata.query = Some(search_query);
        item.metadata.url = Some(url);
        items.push(item);
        items
    }
}

} // verus!
