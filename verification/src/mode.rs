use vstd::prelude::*;

use crate::strings::{
    chars_eq, chars_to_string, contains_chars, contains_seq, find_ws, find_ws_idx, is_space,
    lower_seq, skip_ws, skip_ws_idx, subvec, to_chars, to_lower_chars, trim_chars, trimmed,
};

verus! {

/// The interaction context a query is routed to.
#[derive(Clone, Copy, Debug, PartialEq, Eq, Structural)]
pub enum Mode {
    Apps,
    Windows,
    Processes,
    Wifi,
    Bluetooth,
    Audio,
    Clipboard,
    Notes,
    Snippets,
    Todos,
    Ssh,
    Docker,
    Timer,
    Emoji,
    Files,
    RecentFiles,
    Bitwarden,
    Ai,
    WebSearch,
    Calculator,
    Converter,
}

/// A routing decision: the mode, and the query text left for that mode.
pub struct RoutingDecision {
    pub mode: Mode,
    pub residual: String,
}

/// The static prefix table.  A hit gives the mode and the text the
/// residual is to be prefixed with (empty but for the web-search aliases,
/// which name their engine).
pub open spec fn prefix_route(p: Seq<char>) -> Option<(Mode, Seq<char>)> {
    if p == seq!['w'] || p == seq!['w', 'i', 'n', 'd', 'o', 'w'] || p == seq![
        'w', 'i', 'n', 'd', 'o', 'w', 's',
    ] {
        Some((Mode::Windows, Seq::empty()))
    } else if p == seq!['p', 's'] || p == seq!['p', 'r', 'o', 'c'] || p == seq![
        'p', 'r', 'o', 'c', 'e', 's', 's',
    ] {
        Some((Mode::Processes, Seq::empty()))
    } else if p == seq!['w', 'i', 'f', 'i'] || p == seq!['n', 'e', 't', 'w', 'o', 'r', 'k'] {
        Some((Mode::Wifi, Seq::empty()))
    } else if p == seq!['b', 't'] || p == seq!['b', 'l', 'u', 'e', 't', 'o', 'o', 't', 'h'] {
        Some((Mode::Bluetooth, Seq::empty()))
    } else if p == seq!['v', 'o', 'l'] || p == seq!['v', 'o', 'l', 'u', 'm', 'e'] || p == seq![
        'a', 'u', 'd', 'i', 'o',
    ] {
        Some((Mode::Audio, Seq::empty()))
    } else if p == seq!['c', 'b'] || p == seq!['c', 'l', 'i', 'p'] || p == seq![
        'c', 'l', 'i', 'p', 'b', 'o', 'a', 'r', 'd',
    ] {
        Some((Mode::Clipboard, Seq::empty()))
    } else if p == seq!['n', 'o', 't', 'e'] || p == seq!['n', 'o', 't', 'e', 's'] {
        Some((Mode::Notes, Seq::empty()))
    } else if p == seq!['s', 'n', 'i', 'p'] || p == seq!['s', 'n', 'i', 'p', 'p', 'e', 't']
        || p == seq!['s', 'n', 'i', 'p', 'p', 'e', 't', 's'] {
        Some((Mode::Snippets, Seq::empty()))
    } else if p == seq!['t', 'o', 'd', 'o'] || p == seq!['t', 'o', 'd', 'o', 's'] || p == seq![
        't', 'a', 's', 'k',
    ] || p == seq!['t', 'a', 's', 'k', 's'] {
        Some((Mode::Todos, Seq::empty()))
    } else if p == seq!['s', 's', 'h'] {
        Some((Mode::Ssh, Seq::empty()))
    } else if p == seq!['d', 'o', 'c', 'k', 'e', 'r'] || p == seq![
        'c', 'o', 'n', 't', 'a', 'i', 'n', 'e', 'r',
    ] || p == seq!['c', 'o', 'n', 't', 'a', 'i', 'n', 'e', 'r', 's'] {
        Some((Mode::Docker, Seq::empty()))
    } else if p == seq!['t', 'i', 'm', 'e', 'r'] || p == seq![
        's', 't', 'o', 'p', 'w', 'a', 't', 'c', 'h',
    ] {
        Some((Mode::Timer, Seq::empty()))
    } else if p == seq!['e'] || p == seq!['e', 'm', 'o', 'j', 'i'] {
        Some((Mode::Emoji, Seq::empty()))
    } else if p == seq!['f'] || p == seq!['f', 'i', 'n', 'd'] || p == seq!['f', 'i', 'l', 'e']
        || p == seq!['f', 'i', 'l', 'e', 's'] {
        Some((Mode::Files, Seq::empty()))
    } else if p == seq!['r'] || p == seq!['r', 'e', 'c', 'e', 'n', 't'] {
        Some((Mode::RecentFiles, Seq::empty()))
    } else if p == seq!['b', 'w'] || p == seq!['b', 'i', 't', 'w', 'a', 'r', 'd', 'e', 'n']
        || p == seq!['p', 'a', 's', 's'] || p == seq!['p', 'a', 's', 's', 'w', 'o', 'r', 'd'] {
        Some((Mode::Bitwarden, Seq::empty()))
    } else if p == seq!['a', 's', 'k'] || p == seq!['a', 'i'] || p == seq!['?'] {
        Some((Mode::Ai, Seq::empty()))
    } else if p == seq!['g'] || p == seq!['g', 'o', 'o', 'g', 'l', 'e'] {
        Some((Mode::WebSearch, seq!['g', 'o', 'o', 'g', 'l', 'e', ' ']))
    } else if p == seq!['g', 'h'] || p == seq!['g', 'i', 't', 'h', 'u', 'b'] {
        Some((Mode::WebSearch, seq!['g', 'i', 't', 'h', 'u', 'b', ' ']))
    } else if p == seq!['y', 't'] || p == seq!['y', 'o', 'u', 't', 'u', 'b', 'e'] {
        Some((Mode::WebSearch, seq!['y', 'o', 'u', 't', 'u', 'b', 'e', ' ']))
    } else {
        None
    }
}

/// The characters that make a query look like arithmetic.
pub open spec fn is_math_char(c: char) -> bool {
    c == '+' || c == '-' || c == '*' || c == '/' || c == '^' || c == '%' || c == '(' || c == ')'
}

/// A query looks like arithmetic when it holds an operator character and
/// a digit.
pub open spec fn spec_is_math(t: Seq<char>) -> bool {
    (exists|i: int| 0 <= i < t.len() && is_math_char(t[i])) && (exists|i: int|
        0 <= i < t.len() && crate::calc::is_digit(t[i]))
}

/// A query looks like a conversion when, lower-cased, it holds " to "
/// or " in ".
pub open spec fn spec_is_conversion(t: Seq<char>) -> bool {
    contains_seq(lower_seq(t), seq![' ', 't', 'o', ' ']) || contains_seq(
        lower_seq(t),
        seq![' ', 'i', 'n', ' '],
    )
}

/// The classifier: trim; split on the first whitespace run; look the
/// lower-cased prefix up; otherwise try the arithmetic heuristic, then the
/// conversion heuristic; otherwise route to application search.
pub open spec fn spec_classify(q: Seq<char>) -> (Mode, Seq<char>) {
    let t = trimmed(q);
    let sp = find_ws(t, 0);
    let we = skip_ws(t, sp);
    let prefix = lower_seq(t.subrange(0, sp as int));
    let rem = t.subrange(we as int, t.len() as int);
    match prefix_route(prefix) {
        Some((m, eng)) => (m, eng + rem),
        None => if spec_is_math(t) {
            (Mode::Calculator, t)
        } else if spec_is_conversion(t) {
            (Mode::Converter, t)
        } else {
            (Mode::Apps, t)
        },
    }
}

/// A recognised prefix always wins: the heuristics are never consulted.
pub proof fn lemma_prefix_wins(q: Seq<char>, m: Mode, eng: Seq<char>)
    requires
        prefix_route(
            lower_seq(trimmed(q).subrange(0, find_ws(trimmed(q), 0) as int)),
        ) == Some((m, eng)),
    ensures
        spec_classify(q).0 == m,
{
}

/// The arithmetic heuristic wins over the conversion heuristic.
pub proof fn lemma_math_wins(q: Seq<char>)
    requires
        prefix_route(
            lower_seq(trimmed(q).subrange(0, find_ws(trimmed(q), 0) as int)),
        ) is None,
        spec_is_math(trimmed(q)),
    ensures
        spec_classify(q) == (Mode::Calculator, trimmed(q)),
{
}

fn has_math_char(t: &Vec<char>) -> (r: bool)
    ensures
        r == exists|i: int| 0 <= i < t@.len() && is_math_char(t@[i]),
{
    let n: usize = t.len();
    let mut i: usize = 0;
    while i < n
        invariant
            i <= n,
            n == t@.len(),
            forall|k: int| 0 <= k < i ==> !is_math_char(t@[k]),
        decreases n - i,
    {
        let c = t[i];
        if c == '+' || c == '-' || c == '*' || c == '/' || c == '^' || c == '%' || c == '('
            || c == ')' {
            return true;
        }
        i = i + 1;
    }
    false
}

fn has_digit(t: &Vec<char>) -> (r: bool)
    ensures
        r == exists|i: int| 0 <= i < t@.len() && crate::calc::is_digit(t@[i]),
{
    let n: usize = t.len();
    let mut i: usize = 0;
    while i < n
        invariant
            i <= n,
            n == t@.len(),
            forall|k: int| 0 <= k < i ==> !crate::calc::is_digit(t@[k]),
        decreases n - i,
    {
        let c = t[i];
        if '0' <= c && c <= '9' {
            return true;
        }
        i = i + 1;
    }
    false
}

/// Whether a query looks like arithmetic: an operator character and a
/// digit both occur.
pub fn is_math_expression(query: &str) -> (r: bool)
    ensures
        r == spec_is_math(query@),
{
    let t = to_chars(query);
    let a = has_math_char(&t);
    let b = has_digit(&t);
    a && b
}

/// Whether a query looks like a unit conversion: lower-cased it holds
/// " to " or " in ".
pub fn is_conversion(query: &str) -> (r: bool)
    ensures
        r == spec_is_conversion(query@),
{
    let t = to_chars(query);
    let tl = to_lower_chars(&t);
    let kw_to: Vec<char> = vec![' ', 't', 'o', ' '];
    let kw_in: Vec<char> = vec![' ', 'i', 'n', ' '];
    let a = contains_chars(&tl, &kw_to);
    let b = contains_chars(&tl, &kw_in);
    a || b
}

#[verifier::rlimit(100)]
fn route_prefix(pl: &Vec<char>) -> (r: Option<(Mode, Vec<char>)>)
    ensures
        match r {
            None => prefix_route(pl@) is None,
            Some((m, eng)) => prefix_route(pl@) == Some((m, eng@)),
        },
{
    let kw_w: Vec<char> = vec!['w'];
    let kw_window: Vec<char> = vec!['w', 'i', 'n', 'd', 'o', 'w'];
    let kw_windows: Vec<char> = vec!['w', 'i', 'n', 'd', 'o', 'w', 's'];
    let kw_ps: Vec<char> = vec!['p', 's'];
    let kw_proc: Vec<char> = vec!['p', 'r', 'o', 'c'];
    let kw_process: Vec<char> = vec!['p', 'r', 'o', 'c', 'e', 's', 's'];
    let kw_wifi: Vec<char> = vec!['w', 'i', 'f', 'i'];
    let kw_network: Vec<char> = vec!['n', 'e', 't', 'w', 'o', 'r', 'k'];
    let kw_bt: Vec<char> = vec!['b', 't'];
    let kw_bluetooth: Vec<char> = vec!['b', 'l', 'u', 'e', 't', 'o', 'o', 't', 'h'];
    let kw_vol: Vec<char> = vec!['v', 'o', 'l'];
    let kw_volume: Vec<char> = vec!['v', 'o', 'l', 'u', 'm', 'e'];
    let kw_audio: Vec<char> = vec!['a', 'u', 'd', 'i', 'o'];
    let kw_cb: Vec<char> = vec!['c', 'b'];
    let kw_clip: Vec<char> = vec!['c', 'l', 'i', 'p'];
    let kw_clipboard: Vec<char> = vec!['c', 'l', 'i', 'p', 'b', 'o', 'a', 'r', 'd'];
    let kw_note: Vec<char> = vec!['n', 'o', 't', 'e'];
    let kw_notes: Vec<char> = vec!['n', 'o', 't', 'e', 's'];
    let kw_snip: Vec<char> = vec!['s', 'n', 'i', 'p'];
    let kw_snippet: Vec<char> = vec!['s', 'n', 'i', 'p', 'p', 'e', 't'];
    let kw_snippets: Vec<char> = vec!['s', 'n', 'i', 'p', 'p', 'e', 't', 's'];
    let kw_todo: Vec<char> = vec!['t', 'o', 'd', 'o'];
    let kw_todos: Vec<char> = vec!['t', 'o', 'd', 'o', 's'];
    let kw_task: Vec<char> = vec!['t', 'a', 's', 'k'];
    let kw_tasks: Vec<char> = vec!['t', 'a', 's', 'k', 's'];
    let kw_ssh: Vec<char> = vec!['s', 's', 'h'];
    let kw_docker: Vec<char> = vec!['d', 'o', 'c', 'k', 'e', 'r'];
    let kw_container: Vec<char> = vec!['c', 'o', 'n', 't', 'a', 'i', 'n', 'e', 'r'];
    let kw_containers: Vec<char> = vec!['c', 'o', 'n', 't', 'a', 'i', 'n', 'e', 'r', 's'];
    let kw_timer: Vec<char> = vec!['t', 'i', 'm', 'e', 'r'];
    let kw_stopwatch: Vec<char> = vec!['s', 't', 'o', 'p', 'w', 'a', 't', 'c', 'h'];
    let kw_e: Vec<char> = vec!['e'];
    let kw_emoji: Vec<char> = vec!['e', 'm', 'o', 'j', 'i'];
    let kw_f: Vec<char> = vec!['f'];
    let kw_find: Vec<char> = vec!['f', 'i', 'n', 'd'];
    let kw_file: Vec<char> = vec!['f', 'i', 'l', 'e'];
    let kw_files: Vec<char> = vec!['f', 'i', 'l', 'e', 's'];
    let kw_r: Vec<char> = vec!['r'];
    let kw_recent: Vec<char> = vec!['r', 'e', 'c', 'e', 'n', 't'];
    let kw_bw: Vec<char> = vec!['b', 'w'];
    let kw_bitwarden: Vec<char> = vec!['b', 'i', 't', 'w', 'a', 'r', 'd', 'e', 'n'];
    let kw_pass: Vec<char> = vec!['p', 'a', 's', 's'];
    let kw_password: Vec<char> = vec!['p', 'a', 's', 's', 'w', 'o', 'r', 'd'];
    let kw_ask: Vec<char> = vec!['a', 's', 'k'];
    let kw_ai: Vec<char> = vec!['a', 'i'];
    let kw_q: Vec<char> = vec!['?'];
    let kw_g: Vec<char> = vec!['g'];
    let kw_google: Vec<char> = vec!['g', 'o', 'o', 'g', 'l', 'e'];
    let kw_gh: Vec<char> = vec!['g', 'h'];
    let kw_github: Vec<char> = vec!['g', 'i', 't', 'h', 'u', 'b'];
    let kw_yt: Vec<char> = vec!['y', 't'];
    let kw_youtube: Vec<char> = vec!['y', 'o', 'u', 't', 'u', 'b', 'e'];
    proof {
        assert(kw_w@ =~= seq!['w']);
        assert(kw_window@ =~= seq!['w', 'i', 'n', 'd', 'o', 'w']);
        assert(kw_windows@ =~= seq!['w', 'i', 'n', 'd', 'o', 'w', 's']);
        assert(kw_ps@ =~= seq!['p', 's']);
        assert(kw_proc@ =~= seq!['p', 'r', 'o', 'c']);
        assert(kw_process@ =~= seq!['p', 'r', 'o', 'c', 'e', 's', 's']);
        assert(kw_wifi@ =~= seq!['w', 'i', 'f', 'i']);
        assert(kw_network@ =~= seq!['n', 'e', 't', 'w', 'o', 'r', 'k']);
        assert(kw_bt@ =~= seq!['b', 't']);
        assert(kw_bluetooth@ =~= seq!['b', 'l', 'u', 'e', 't', 'o', 'o', 't', 'h']);
        assert(kw_vol@ =~= seq!['v', 'o', 'l']);
        assert(kw_volume@ =~= seq!['v', 'o', 'l', 'u', 'm', 'e']);
        assert(kw_audio@ =~= seq!['a', 'u', 'd', 'i', 'o']);
        assert(kw_cb@ =~= seq!['c', 'b']);
        assert(kw_clip@ =~= seq!['c', 'l', 'i', 'p']);
        assert(kw_clipboard@ =~= seq!['c', 'l', 'i', 'p', 'b', 'o', 'a', 'r', 'd']);
        assert(kw_note@ =~= seq!['n', 'o', 't', 'e']);
        assert(kw_notes@ =~= seq!['n', 'o', 't', 'e', 's']);
        assert(kw_snip@ =~= seq!['s', 'n', 'i', 'p']);
        assert(kw_snippet@ =~= seq!['s', 'n', 'i', 'p', 'p', 'e', 't']);
        assert(kw_snippets@ =~= seq!['s', 'n', 'i', 'p', 'p', 'e', 't', 's']);
        assert(kw_todo@ =~= seq!['t', 'o', 'd', 'o']);
        assert(kw_todos@ =~= seq!['t', 'o', 'd', 'o', 's']);
        assert(kw_task@ =~= seq!['t', 'a', 's', 'k']);
        assert(kw_tasks@ =~= seq!['t', 'a', 's', 'k', 's']);
        assert(kw_ssh@ =~= seq!['s', 's', 'h']);
        assert(kw_docker@ =~= seq!['d', 'o', 'c', 'k', 'e', 'r']);
        assert(kw_container@ =~= seq!['c', 'o', 'n', 't', 'a', 'i', 'n', 'e', 'r']);
        assert(kw_containers@ =~= seq!['c', 'o', 'n', 't', 'a', 'i', 'n', 'e', 'r', 's']);
        assert(kw_timer@ =~= seq!['t', 'i', 'm', 'e', 'r']);
        assert(kw_stopwatch@ =~= seq!['s', 't', 'o', 'p', 'w', 'a', 't', 'c', 'h']);
        assert(kw_e@ =~= seq!['e']);
        assert(kw_emoji@ =~= seq!['e', 'm', 'o', 'j', 'i']);
        assert(kw_f@ =~= seq!['f']);
        assert(kw_find@ =~= seq!['f', 'i', 'n', 'd']);
        assert(kw_file@ =~= seq!['f', 'i', 'l', 'e']);
        assert(kw_files@ =~= seq!['f', 'i', 'l', 'e', 's']);
        assert(kw_r@ =~= seq!['r']);
        assert(kw_recent@ =~= seq!['r', 'e', 'c', 'e', 'n', 't']);
        assert(kw_bw@ =~= seq!['b', 'w']);
        assert(kw_bitwarden@ =~= seq!['b', 'i', 't', 'w', 'a', 'r', 'd', 'e', 'n']);
        assert(kw_pass@ =~= seq!['p', 'a', 's', 's']);
        assert(kw_password@ =~= seq!['p', 'a', 's', 's', 'w', 'o', 'r', 'd']);
        assert(kw_ask@ =~= seq!['a', 's', 'k']);
        assert(kw_ai@ =~= seq!['a', 'i']);
        assert(kw_q@ =~= seq!['?']);
        assert(kw_g@ =~= seq!['g']);
        assert(kw_google@ =~= seq!['g', 'o', 'o', 'g', 'l', 'e']);
        assert(kw_gh@ =~= seq!['g', 'h']);
        assert(kw_github@ =~= seq!['g', 'i', 't', 'h', 'u', 'b']);
        assert(kw_yt@ =~= seq!['y', 't']);
        assert(kw_youtube@ =~= seq!['y', 'o', 'u', 't', 'u', 'b', 'e']);
    }
    let empty: Vec<char> = Vec::new();
    proof {
        assert(empty@ =~= Seq::<char>::empty());
    }
    if chars_eq(pl, &kw_w) || chars_eq(pl, &kw_window) || chars_eq(pl, &kw_windows) {
        Some((Mode::Windows, empty))
    } else if chars_eq(pl, &kw_ps) || chars_eq(pl, &kw_proc) || chars_eq(pl, &kw_process) {
        Some((Mode::Processes, empty))
    } else if chars_eq(pl, &kw_wifi) || chars_eq(pl, &kw_network) {
        Some((Mode::Wifi, empty))
    } else if chars_eq(pl, &kw_bt) || chars_eq(pl, &kw_bluetooth) {
        Some((Mode::Bluetooth, empty))
    } else if chars_eq(pl, &kw_vol) || chars_eq(pl, &kw_volume) || chars_eq(pl, &kw_audio) {
        Some((Mode::Audio, empty))
    } else if chars_eq(pl, &kw_cb) || chars_eq(pl, &kw_clip) || chars_eq(pl, &kw_clipboard) {
        Some((Mode::Clipboard, empty))
    } else if chars_eq(pl, &kw_note) || chars_eq(pl, &kw_notes) {
        Some((Mode::Notes, empty))
    } else if chars_eq(pl, &kw_snip) || chars_eq(pl, &kw_snippet) || chars_eq(pl, &kw_snippets) {
        Some((Mode::Snippets, empty))
    } else if chars_eq(pl, &kw_todo) || chars_eq(pl, &kw_todos) || chars_eq(pl, &kw_task) || chars_eq(pl, &kw_tasks) {
        Some((Mode::Todos, empty))
    } else if chars_eq(pl, &kw_ssh) {
        Some((Mode::Ssh, empty))
    } else if chars_eq(pl, &kw_docker) || chars_eq(pl, &kw_container) || chars_eq(pl, &kw_containers) {
        Some((Mode::Docker, empty))
    } else if chars_eq(pl, &kw_timer) || chars_eq(pl, &kw_stopwatch) {
        Some((Mode::Timer, empty))
    } else if chars_eq(pl, &kw_e) || chars_eq(pl, &kw_emoji) {
        Some((Mode::Emoji, empty))
    } else if chars_eq(pl, &kw_f) || chars_eq(pl, &kw_find) || chars_eq(pl, &kw_file) || chars_eq(pl, &kw_files) {
        Some((Mode::Files, empty))
    } else if chars_eq(pl, &kw_r) || chars_eq(pl, &kw_recent) {
        Some((Mode::RecentFiles, empty))
    } else if chars_eq(pl, &kw_bw) || chars_eq(pl, &kw_bitwarden) || chars_eq(pl, &kw_pass) || chars_eq(pl, &kw_password) {
        Some((Mode::Bitwarden, empty))
    } else if chars_eq(pl, &kw_ask) || chars_eq(pl, &kw_ai) || chars_eq(pl, &kw_q) {
        Some((Mode::Ai, empty))
    } else if chars_eq(pl, &kw_g) || chars_eq(pl, &kw_google) {
        Some((Mode::WebSearch, vec!['g', 'o', 'o', 'g', 'l', 'e', ' ']))
    } else if chars_eq(pl, &kw_gh) || chars_eq(pl, &kw_github) {
        Some((Mode::WebSearch, vec!['g', 'i', 't', 'h', 'u', 'b', ' ']))
    } else if chars_eq(pl, &kw_yt) || chars_eq(pl, &kw_youtube) {
        Some((Mode::WebSearch, vec!['y', 'o', 'u', 't', 'u', 'b', 'e', ' ']))
    } else {
        None
    }
}

impl Mode {
    /// Routes a raw query: a recognised prefix names the mode and strips
    /// itself; otherwise the arithmetic heuristic, then the conversion
    /// heuristic, then application search.
    pub fn from_query(query: &str) -> (r: (Mode, String))
        ensures
            r.0 == spec_classify(query@).0,
            r.1@ == spec_classify(query@).1,
    {
        let qc = to_chars(query);
        let t = trim_chars(&qc);
        let sp = find_ws_idx(&t);
        let we = skip_ws_idx(&t, sp);
        let prefix = subvec(&t, 0, sp);
        let pl = to_lower_chars(&prefix);
        let tlen = t.len();
        let rem = subvec(&t, we, tlen);
        match route_prefix(&pl) {
            Some((m, eng)) => {
                let mut res: Vec<char> = eng;
                let mut k: usize = 0;
                while k < rem.len()
                    invariant
                        k <= rem@.len(),
                        res@ == prefix_route(pl@)->Some_0.1 + rem@.subrange(0, k as int),
                        prefix_route(pl@) matches Some((mm, ee)) && mm == m,
                    decreases rem@.len() - k,
                {
                    res.push(rem[k]);
                    proof {
                        assert(rem@.subrange(0, k + 1) =~= rem@.subrange(0, k as int).push(
                            rem@[k as int],
                        ));
                    }
                    k = k + 1;
                }
                proof {
                    assert(rem@.subrange(0, rem@.len() as int) =~= rem@);
                }
                (m, chars_to_string(&res))
            },
            None => {
                let math = has_math_char(&t);
                let dig = has_digit(&t);
                if math && dig {
                    (Mode::Calculator, chars_to_string(&t))
                } else {
                    let tl = to_lower_chars(&t);
                    let kw_to: Vec<char> = vec![' ', 't', 'o', ' '];
                    let kw_in: Vec<char> = vec![' ', 'i', 'n', ' '];
                    if contains_chars(&tl, &kw_to) || contains_chars(&tl, &kw_in) {
                        (Mode::Converter, chars_to_string(&t))
                    } else {
                        (Mode::Apps, chars_to_string(&t))
                    }
                }
            },
        }
    }
}

/// The classifier as a routing decision.
pub fn classify(query: &str) -> (r: RoutingDecision)
    ensures
        r.mode == spec_classify(query@).0,
        r.residual@ == spec_classify(query@).1,
{
    let (mode, residual) = Mode::from_query(query);
    RoutingDecision { mode, residual }
}

} // verus!
