use vstd::prelude::*;

use crate::calc::is_digit;
use crate::ids::new_uuid_string;
use crate::strings::{
    chars_eq, chars_to_string, find_char_from, find_char_idx, starts_with_seq, str_skip,
    str_starts_with, strs_eq, subvec, to_chars, trim_chars,
};

verus! {

/// One SSH connection entry.
pub struct SshConnection {
    pub id: String,
    pub name: String,
    pub host: String,
    pub user: String,
    pub port: u16,
    pub identity_file: Option<String>,
}

/// The connection collection.
pub struct SshManager {
    pub connections: Vec<SshConnection>,
}

/// Capped digit accumulation for a port literal (sticky past five
/// digits, so zero-padded literals still parse).
pub open spec fn port_accum(s: Seq<char>, j: nat) -> nat
    decreases j,
{
    if j == 0 {
        0
    } else {
        let p = port_accum(s, (j - 1) as nat);
        let d = crate::calc::digit_val(s[j - 1]);
        if p * 10 + d > 99999 {
            100000
        } else {
            p * 10 + d
        }
    }
}

/// The port a text names: its decimal value when it is all digits and
/// fits; twenty-two otherwise.
pub open spec fn port_of(s: Seq<char>) -> u16 {
    if s.len() > 0 && (forall|k: int| 0 <= k < s.len() ==> is_digit(s[k])) && port_accum(
        s,
        s.len(),
    ) <= 65535 {
        port_accum(s, s.len()) as u16
    } else {
        22
    }
}

/// The `user@host:port` reading of an `add` request: a missing user is
/// `root`, a missing port is twenty-two.
pub open spec fn spec_target(rest: Seq<char>) -> (Seq<char>, Seq<char>, u16) {
    let a = find_char_from(rest, '@', 0);
    let user = if a < rest.len() {
        rest.subrange(0, a as int)
    } else {
        "root"@
    };
    let hp = if a < rest.len() {
        rest.subrange(a as int + 1, rest.len() as int)
    } else {
        rest
    };
    let b = find_char_from(hp, ':', 0);
    if b < hp.len() {
        (user, hp.subrange(0, b as int), port_of(hp.subrange(b as int + 1, hp.len() as int)))
    } else {
        (user, hp, 22)
    }
}

/// A fresh connection was appended and everything else kept.
pub open spec fn added_conn(
    prev: Seq<SshConnection>,
    next: Seq<SshConnection>,
    user: Seq<char>,
    host: Seq<char>,
    port: u16,
) -> bool {
    &&& next.len() == prev.len() + 1
    &&& next.subrange(0, prev.len() as int) == prev
    &&& next.last().user@ == user
    &&& next.last().host@ == host
    &&& next.last().port == port
    &&& next.last().name@ == user + seq!['@'] + host
    &&& next.last().identity_file is None
}

/// The connections whose identifier differs from `id`, in order.
pub open spec fn conns_without_id(s: Seq<SshConnection>, id: Seq<char>) -> Seq<SshConnection>
    decreases s.len(),
{
    if s.len() == 0 {
        Seq::empty()
    } else {
        let rest = conns_without_id(s.drop_last(), id);
        if s.last().id@ == id {
            rest
        } else {
            rest.push(s.last())
        }
    }
}

/// What `execute_action` does, by the first matching action form.
pub open spec fn ssh_action(
    prev: Seq<SshConnection>,
    a: Seq<char>,
    q: Seq<char>,
    next: Seq<SshConnection>,
) -> bool {
    if starts_with_seq(a, "ssh:add:"@) {
        let rest = a.subrange("ssh:add:"@.len() as int, a.len() as int);
        let c1 = find_char_from(rest, ':', 0);
        if c1 < rest.len() {
            let c2 = find_char_from(rest, ':', c1 + 1);
            if c2 < rest.len() {
                added_conn(
                    prev,
                    next,
                    rest.subrange(0, c1 as int),
                    rest.subrange(c1 as int + 1, c2 as int),
                    port_of(rest.subrange(c2 as int + 1, rest.len() as int)),
                )
            } else {
                next == prev
            }
        } else {
            next == prev
        }
    } else if starts_with_seq(a, "ssh:delete:"@) {
        next == conns_without_id(prev, a.subrange("ssh:delete:"@.len() as int, a.len() as int))
    } else if starts_with_seq(q, "add "@) {
        let rest = q.subrange(4, q.len() as int);
        let (user, host, port) = spec_target(rest);
        if host.len() > 0 {
            added_conn(prev, next, user, host, port)
        } else {
            next == prev
        }
    } else {
        next == prev
    }
}

/// Parses a port literal, falling back to the SSH default.
fn parse_port(s: &Vec<char>) -> (r: u16)
    ensures
        r == port_of(s@),
{
    let n: usize = s.len();
    if n == 0 {
        return 22;
    }
    let mut acc: u32 = 0;
    let mut j: usize = 0;
    while j < n
        invariant
            j <= n,
            n == s@.len(),
            acc as nat == port_accum(s@, j as nat),
            acc <= 100000,
            forall|k: int| 0 <= k < j ==> is_digit(s@[k]),
        decreases n - j,
    {
        let c = s[j];
        if !('0' <= c && c <= '9') {
            proof {
                assert(!(forall|k: int| 0 <= k < s@.len() ==> is_digit(s@[k])));
            }
            return 22;
        }
        let d: u32 = (c as u32) - 48;
        let t: u32 = acc * 10 + d;
        if t > 99999 {
            acc = 100000;
        } else {
            acc = t;
        }
        j = j + 1;
    }
    if acc <= 65535 {
        acc as u16
    } else {
        22
    }
}

/// The `user@host:port` parts of an `add` request.
fn parse_target(rest: &str) -> (r: (String, String, u16))
    ensures
        r.0@ == spec_target(rest@).0,
        r.1@ == spec_target(rest@).1,
        r.2 == spec_target(rest@).2,
{
    let rc = to_chars(rest);
    let n: usize = rc.len();
    let a = find_char_idx(&rc, '@', 0);
    let (user, hp): (Vec<char>, Vec<char>) = if a < n {
        (subvec(&rc, 0, a), subvec(&rc, a + 1, n))
    } else {
        let root: Vec<char> = vec!['r', 'o', 'o', 't'];
        proof {
            reveal_strlit("root");
            assert(root@ =~= "root"@);
            assert(rc@.subrange(0, n as int) =~= rest@);
        }
        (root, subvec(&rc, 0, n))
    };
    let m: usize = hp.len();
    let b = find_char_idx(&hp, ':', 0);
    if b < m {
        let host = subvec(&hp, 0, b);
        let ps = subvec(&hp, b + 1, m);
        let port = parse_port(&ps);
        (chars_to_string(&user), chars_to_string(&host), port)
    } else {
        (chars_to_string(&user), chars_to_string(&hp), 22)
    }
}

// ---------------------------------------------------------------------------
// SSH configuration text: each `Host` line opens an entry, the lines after
// it fill the entry in, and an entry leaves the parse only when it has a
// host name and is not the `*` pattern.
// ---------------------------------------------------------------------------

/// A key-value separator of a configuration line.
pub open spec fn is_kv_sep(c: char) -> bool {
    c == ' ' || c == '='
}

/// First key-value separator at or after `i` (or the length).
pub open spec fn find_sep(s: Seq<char>, i: nat) -> nat
    decreases s.len() - i,
{
    if i < s.len() && !is_kv_sep(s[i as int]) {
        find_sep(s, i + 1)
    } else {
        i
    }
}

/// First position at or after `i` holding no double quote.
pub open spec fn skip_q(s: Seq<char>, i: nat) -> nat
    decreases s.len() - i,
{
    if i < s.len() && s[i as int] == '"' {
        skip_q(s, i + 1)
    } else {
        i
    }
}

/// Position just after the last non-quote character before `j`.
pub open spec fn rskip_q(s: Seq<char>, j: nat) -> nat
    decreases j,
{
    if j > 0 && s[j - 1] == '"' {
        rskip_q(s, (j - 1) as nat)
    } else {
        j
    }
}

/// The sequence with leading and trailing double quotes removed.
pub open spec fn trim_quotes(s: Seq<char>) -> Seq<char> {
    let a = skip_q(s, 0);
    let b = rskip_q(s, s.len());
    if a <= b {
        s.subrange(a as int, b as int)
    } else {
        Seq::empty()
    }
}

/// The lines of a text, split on newlines.
pub open spec fn split_lines_from(s: Seq<char>, i: nat) -> Seq<Seq<char>>
    decreases s.len() - i,
{
    if i >= s.len() {
        seq![Seq::<char>::empty()]
    } else {
        let p = find_char_from(s, '\n', i);
        if p >= s.len() {
            seq![s.subrange(i as int, s.len() as int)]
        } else {
            seq![s.subrange(i as int, p as int)] + split_lines_from(
                s,
                if i < p + 1 && p + 1 <= s.len() {
                    p + 1
                } else {
                    s.len()
                },
            )
        }
    }
}

/// A closed entry joins the result only with a host and a name other
/// than the catch-all pattern.
pub open spec fn conf_flush(st: Option<(Seq<char>, Seq<char>, Seq<char>, Seq<char>, u16, Option<
    Seq<char>,
>)>) -> Seq<(Seq<char>, Seq<char>, Seq<char>, Seq<char>, u16, Option<Seq<char>>)> {
    match st {
        None => Seq::empty(),
        Some(c) => if c.2.len() > 0 && c.1 != seq!['*'] {
            seq![c]
        } else {
            Seq::empty()
        },
    }
}

/// One configuration line applied to the entry under construction.
pub open spec fn conf_line(
    st: Option<(Seq<char>, Seq<char>, Seq<char>, Seq<char>, u16, Option<Seq<char>>)>,
    acc: Seq<(Seq<char>, Seq<char>, Seq<char>, Seq<char>, u16, Option<Seq<char>>)>,
    line: Seq<char>,
) -> (Option<(Seq<char>, Seq<char>, Seq<char>, Seq<char>, u16, Option<Seq<char>>)>, Seq<
    (Seq<char>, Seq<char>, Seq<char>, Seq<char>, u16, Option<Seq<char>>),
>) {
    let t = crate::strings::trimmed(line);
    if t.len() == 0 || t[0] == '#' {
        (st, acc)
    } else {
        let sep = find_sep(t, 0);
        if sep >= t.len() {
            (st, acc)
        } else {
            let key = crate::strings::lower_seq(t.subrange(0, sep as int));
            let value = trim_quotes(
                crate::strings::trimmed(t.subrange(sep as int + 1, t.len() as int)),
            );
            if key == "host"@ {
                (
                    Some(("sshconfig:"@ + value, value, Seq::empty(), "root"@, 22u16, None)),
                    acc + conf_flush(st),
                )
            } else if key == "hostname"@ {
                (
                    match st {
                        None => None,
                        Some(c) => Some((c.0, c.1, value, c.3, c.4, c.5)),
                    },
                    acc,
                )
            } else if key == "user"@ {
                (
                    match st {
                        None => None,
                        Some(c) => Some((c.0, c.1, c.2, value, c.4, c.5)),
                    },
                    acc,
                )
            } else if key == "port"@ {
                (
                    match st {
                        None => None,
                        Some(c) => Some((c.0, c.1, c.2, c.3, port_of(value), c.5)),
                    },
                    acc,
                )
            } else if key == "identityfile"@ {
                (
                    match st {
                        None => None,
                        Some(c) => Some((c.0, c.1, c.2, c.3, c.4, Some(value))),
                    },
                    acc,
                )
            } else {
                (st, acc)
            }
        }
    }
}

/// The configuration lines folded in order.
pub open spec fn conf_fold(
    lines: Seq<Seq<char>>,
    i: nat,
    st: Option<(Seq<char>, Seq<char>, Seq<char>, Seq<char>, u16, Option<Seq<char>>)>,
    acc: Seq<(Seq<char>, Seq<char>, Seq<char>, Seq<char>, u16, Option<Seq<char>>)>,
) -> (Option<(Seq<char>, Seq<char>, Seq<char>, Seq<char>, u16, Option<Seq<char>>)>, Seq<
    (Seq<char>, Seq<char>, Seq<char>, Seq<char>, u16, Option<Seq<char>>),
>)
    decreases lines.len() - i,
{
    if i >= lines.len() {
        (st, acc)
    } else {
        let (s2, a2) = conf_line(st, acc, lines[i as int]);
        conf_fold(lines, i + 1, s2, a2)
    }
}

/// The entries an SSH configuration text describes.
pub open spec fn spec_parse_ssh_config(s: Seq<char>) -> Seq<
    (Seq<char>, Seq<char>, Seq<char>, Seq<char>, u16, Option<Seq<char>>),
> {
    let (st, acc) = conf_fold(split_lines_from(s, 0), 0, None, Seq::empty());
    acc + conf_flush(st)
}

/// An executable entry carries the same parts as a described one.
pub open spec fn conn_matches(
    c: SshConnection,
    v: (Seq<char>, Seq<char>, Seq<char>, Seq<char>, u16, Option<Seq<char>>),
) -> bool {
    &&& c.id@ == v.0
    &&& c.name@ == v.1
    &&& c.host@ == v.2
    &&& c.user@ == v.3
    &&& c.port == v.4
    &&& match (c.identity_file, v.5) {
        (None, None) => true,
        (Some(a), Some(b)) => a@ == b,
        _ => false,
    }
}

pub open spec fn conns_match(
    cs: Seq<SshConnection>,
    vs: Seq<(Seq<char>, Seq<char>, Seq<char>, Seq<char>, u16, Option<Seq<char>>)>,
) -> bool {
    cs.len() == vs.len() && forall|k: int| 0 <= k < cs.len() ==> conn_matches(cs[k], #[trigger] vs[k])
}

/// The characters with leading and trailing double quotes removed.
fn trim_quotes_vec(v: &Vec<char>) -> (r: Vec<char>)
    ensures
        r@ == trim_quotes(v@),
{
    let n: usize = v.len();
    let mut a: usize = 0;
    while a < n && v[a] == '"'
        invariant
            a <= n,
            n == v@.len(),
            skip_q(v@, 0) == skip_q(v@, a as nat),
        decreases n - a,
    {
        a = a + 1;
    }
    let mut b: usize = n;
    while b > 0 && v[b - 1] == '"'
        invariant
            b <= n,
            n == v@.len(),
            rskip_q(v@, n as nat) == rskip_q(v@, b as nat),
        decreases b,
    {
        b = b - 1;
    }
    if a <= b {
        subvec(v, a, b)
    } else {
        Vec::new()
    }
}

/// The lines of the text from position `start` on.
pub(crate) fn split_lines_exec(cs: &Vec<char>, start: usize) -> (r: Vec<Vec<char>>)
    requires
        start <= cs@.len(),
    ensures
        r.deep_view() == split_lines_from(cs@, start as nat),
    decreases cs@.len() - start,
{
    let n: usize = cs.len();
    let p = find_char_idx(cs, '\n', start);
    if p >= n {
        let line = subvec(cs, start, n);
        let mut r: Vec<Vec<char>> = Vec::new();
        r.push(line);
        proof {
            assert(r.deep_view() =~~= split_lines_from(cs@, start as nat));
        }
        r
    } else {
        let mut r = split_lines_exec(cs, p + 1);
        let line = subvec(cs, start, p);
        r.insert(0, line);
        proof {
            assert(r.deep_view() =~~= split_lines_from(cs@, start as nat));
        }
        r
    }
}

/// Reads the entries out of SSH configuration text.
#[verifier::rlimit(100)]
pub fn parse_ssh_config_text(content: &str) -> (r: Vec<SshConnection>)
    ensures
        conns_match(r@, spec_parse_ssh_config(content@)),
{
    proof {
        reveal_strlit("host");
        reveal_strlit("hostname");
        reveal_strlit("user");
        reveal_strlit("port");
        reveal_strlit("identityfile");
        reveal_strlit("sshconfig:");
        reveal_strlit("root");
        reveal_strlit("*");
    }
    let cs = to_chars(content);
    let lines = split_lines_exec(&cs, 0);
    let ghost lv = split_lines_from(content@, 0);
    let m: usize = lines.len();
    let mut cur: Option<SshConnection> = None;
    let mut out: Vec<SshConnection> = Vec::new();
    let ghost gpair0: (
        Option<(Seq<char>, Seq<char>, Seq<char>, Seq<char>, u16, Option<Seq<char>>)>,
        Seq<(Seq<char>, Seq<char>, Seq<char>, Seq<char>, u16, Option<Seq<char>>)>,
    ) = (None, Seq::empty());
    let ghost mut gst = gpair0.0;
    let ghost mut gacc = gpair0.1;
    let mut k: usize = 0;
    while k < m
        invariant
            k <= m,
            m == lines@.len(),
            lines.deep_view() == lv,
            lv == split_lines_from(content@, 0),
            conf_fold(lv, 0, None, Seq::empty()) == conf_fold(lv, k as nat, gst, gacc),
            match (cur, gst) {
                (None, None) => true,
                (Some(c), Some(v)) => conn_matches(c, v),
                _ => false,
            },
            conns_match(out@, gacc),
        decreases m - k,
    {
        let line = &lines[k];
        proof {
            assert(line@ == lv[k as int]);
        }
        let t = trim_chars(line);
        let tn: usize = t.len();
        let ghost gline = lv[k as int];
        let ghost step = conf_line(gst, gacc, gline);
        if tn == 0 || t[0] == '#' {
        } else {
            let sep = {
                let mut s0: usize = 0;
                while s0 < tn && !(t[s0] == ' ' || t[s0] == '=')
                    invariant
                        s0 <= tn,
                        tn == t@.len(),
                        find_sep(t@, 0) == find_sep(t@, s0 as nat),
                    decreases tn - s0,
                {
                    s0 = s0 + 1;
                }
                s0
            };
            if sep >= tn {
            } else {
                let key_raw = subvec(&t, 0, sep);
                let key = crate::strings::to_lower_chars(&key_raw);
                let value_trimmed = {
                    let tail = subvec(&t, sep + 1, tn);
                    trim_chars(&tail)
                };
                let value = trim_quotes_vec(&value_trimmed);
                let kw_host: Vec<char> = vec!['h', 'o', 's', 't'];
                let kw_hostname: Vec<char> = vec!['h', 'o', 's', 't', 'n', 'a', 'm', 'e'];
                let kw_user: Vec<char> = vec!['u', 's', 'e', 'r'];
                let kw_port: Vec<char> = vec!['p', 'o', 'r', 't'];
                let kw_ident: Vec<char> = vec![
                    'i', 'd', 'e', 'n', 't', 'i', 't', 'y', 'f', 'i', 'l', 'e',
                ];
                proof {
                    reveal_strlit("host");
                    reveal_strlit("hostname");
                    reveal_strlit("user");
                    reveal_strlit("port");
                    reveal_strlit("identityfile");
                    reveal_strlit("sshconfig:");
                    reveal_strlit("root");
                    reveal_strlit("*");
                    assert(kw_host@ =~= "host"@);
                    assert(kw_hostname@ =~= "hostname"@);
                    assert(kw_user@ =~= "user"@);
                    assert(kw_port@ =~= "port"@);
                    assert(kw_ident@ =~= "identityfile"@);
                }
                if chars_eq(&key, &kw_host) {
                    let mut closing: Option<SshConnection> = None;
                    core::mem::swap(&mut cur, &mut closing);
                    match closing {
                        Some(c) => {
                            if c.host.as_str().is_empty() {
                            } else if strs_eq(c.name.as_str(), "*") {
                                proof {
                                    assert("*"@ =~= seq!['*']);
                                }
                            } else {
                                proof {
                                    assert("*"@ =~= seq!['*']);
                                }
                                out.push(c);
                            }
                        },
                        None => {},
                    }
                    let vs = chars_to_string(&value);
                    cur = Some(
                        SshConnection {
                            id: String::from_str("sshconfig:").concat(vs.as_str()),
                            name: vs,
                            host: String::new(),
                            user: String::from_str("root"),
                            port: 22,
                            identity_file: None,
                        },
                    );
                    proof {
                        gacc = gacc + conf_flush(gst);
                        gst = Some(
                            ("sshconfig:"@ + value@, value@, Seq::empty(), "root"@, 22u16, None),
                        );
                        assert(conns_match(out@, gacc));
                    }
                } else if chars_eq(&key, &kw_hostname) {
                    match &mut cur {
                        Some(c) => {
                            c.host = chars_to_string(&value);
                        },
                        None => {},
                    }
                    proof {
                        gst = step.0;
                    }
                } else if chars_eq(&key, &kw_user) {
                    match &mut cur {
                        Some(c) => {
                            c.user = chars_to_string(&value);
                        },
                        None => {},
                    }
                    proof {
                        gst = step.0;
                    }
                } else if chars_eq(&key, &kw_port) {
                    let p = parse_port(&value);
                    match &mut cur {
                        Some(c) => {
                            c.port = p;
                        },
                        None => {},
                    }
                    proof {
                        gst = step.0;
                    }
                } else if chars_eq(&key, &kw_ident) {
                    match &mut cur {
                        Some(c) => {
                            c.identity_file = Some(chars_to_string(&value));
                        },
                        None => {},
                    }
                    proof {
                        gst = step.0;
                    }
                }
            }
        }
        k = k + 1;
    }
    match cur {
        Some(c) => {
            proof {
                assert("*"@ =~= seq!['*']);
            }
            if !c.host.as_str().is_empty() && !strs_eq(c.name.as_str(), "*") {
                out.push(c);
            }
        },
        None => {},
    }
    out
}

impl SshManager {
    /// An empty collection.
    pub fn new() -> (r: SshManager)
        ensures
            r.connections@.len() == 0,
    {
        SshManager { connections: Vec::new() }
    }

    /// A collection over the given connections (for callers that load
    /// them from storage or an SSH configuration).
    pub fn with_connections(connections: Vec<SshConnection>) -> (r: SshManager)
        ensures
            r.connections == connections,
    {
        SshManager { connections }
    }

    /// Appends a new connection named `user@host`.
    pub fn add_connection(&mut self, user: &str, host: &str, port: u16)
        ensures
            added_conn(old(self).connections@, final(self).connections@, user@, host@, port),
    {
        proof {
            reveal_strlit("@");
            assert("@"@ =~= seq!['@']);
        }
        let name = String::from_str(user).concat("@").concat(host);
        let conn = SshConnection {
            id: new_uuid_string(),
            name,
            host: String::from_str(host),
            user: String::from_str(user),
            port,
            identity_file: None,
        };
        self.connections.push(conn);
        proof {
            assert(self.connections@.subrange(0, old(self).connections@.len() as int) =~= old(
                self,
            ).connections@);
        }
    }

    /// Removes every connection with the given identifier.
    pub fn delete_connection(&mut self, id: &str)
        ensures
            final(self).connections@ == conns_without_id(old(self).connections@, id@),
    {
        let mut work: Vec<SshConnection> = Vec::new();
        core::mem::swap(&mut self.connections, &mut work);
        let ghost orig = work@;
        let n: usize = work.len();
        let mut i: usize = 0;
        while work.len() > 0
            invariant
                i + work@.len() == n,
                n == orig.len(),
                work@ == orig.subrange(i as int, orig.len() as int),
                self.connections@ == conns_without_id(orig.subrange(0, i as int), id@),
            decreases work@.len(),
        {
            let t = work.remove(0);
            proof {
                assert(t == orig[i as int]);
                assert(work@ =~= orig.subrange(i + 1, orig.len() as int));
                assert(orig.subrange(0, i + 1).drop_last() =~= orig.subrange(0, i as int));
                assert(orig.subrange(0, i + 1).last() == orig[i as int]);
            }
            if !strs_eq(t.id.as_str(), id) {
                self.connections.push(t);
            }
            i = i + 1;
        }
        proof {
            assert(orig.subrange(0, n as int) =~= orig);
        }
    }

    /// Dispatches an action identifier (or an `add` query) to the
    /// operation it names.
    pub fn execute_action(&mut self, action_id: &str, query: &str)
        ensures
            ssh_action(old(self).connections@, action_id@, query@, final(self).connections@),
    {
        proof {
            reveal_strlit("ssh:add:");
            reveal_strlit("ssh:delete:");
            reveal_strlit("add ");
        }
        if str_starts_with(action_id, "ssh:add:") {
            let rest = str_skip(action_id, 8);
            let rc = to_chars(rest.as_str());
            let n: usize = rc.len();
            let c1 = find_char_idx(&rc, ':', 0);
            if c1 < n {
                let c2 = find_char_idx(&rc, ':', c1 + 1);
                if c2 < n {
                    let user = subvec(&rc, 0, c1);
                    let host = subvec(&rc, c1 + 1, c2);
                    let ps = subvec(&rc, c2 + 1, n);
                    let port = parse_port(&ps);
                    let us = chars_to_string(&user);
                    let hs = chars_to_string(&host);
                    self.add_connection(us.as_str(), hs.as_str(), port);
                }
            }
        } else if str_starts_with(action_id, "ssh:delete:") {
            let target = str_skip(action_id, 11);
            self.delete_connection(target.as_str());
        } else if str_starts_with(query, "add ") {
            let rest = str_skip(query, 4);
            let (user, host, port) = parse_target(rest.as_str());
            if !host.as_str().is_empty() {
                self.add_connection(user.as_str(), host.as_str(), port);
            }
        }
    }
}

} // verus!
