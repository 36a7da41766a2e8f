use vstd::prelude::*;

use crate::item::{Item, ItemType};
use crate::ssh::{split_lines_exec, split_lines_from};
use crate::strings::{
    chars_eq, chars_to_string, find_char_from, find_char_idx, lower_seq, subvec, to_chars,
    to_lower_chars, trim_chars, trimmed,
};

verus! {

// ---------------------------------------------------------------------------
// Desktop entries: the `[Desktop Entry]` section of an application's
// desktop file names the application, its command, icon, comment and
// keywords; hidden entries yield nothing.
// ---------------------------------------------------------------------------

/// The semicolon-separated, non-empty parts of a keyword list.
pub open spec fn kw_parts(s: Seq<char>, i: nat) -> Seq<Seq<char>>
    decreases s.len() - i,
{
    if i > s.len() {
        Seq::empty()
    } else {
        let p = find_char_from(s, ';', i);
        let pp = if i <= p && p <= s.len() {
            p
        } else {
            s.len()
        };
        let piece = s.subrange(i as int, pp as int);
        let rest = if pp >= s.len() {
            Seq::<Seq<char>>::empty()
        } else {
            kw_parts(s, pp + 1)
        };
        if piece.len() > 0 {
            seq![piece] + rest
        } else {
            rest
        }
    }
}

/// The parser state: the four texts seen so far (name, command, icon,
/// comment), the four flags (no-display, hidden, terminal, inside the
/// desktop-entry section), and the keywords.
pub open spec fn de_line(
    st: (
        (Option<Seq<char>>, Option<Seq<char>>, Option<Seq<char>>, Option<Seq<char>>),
        (bool, bool, bool, bool),
        Seq<Seq<char>>,
    ),
    line: Seq<char>,
) -> (
    (Option<Seq<char>>, Option<Seq<char>>, Option<Seq<char>>, Option<Seq<char>>),
    (bool, bool, bool, bool),
    Seq<Seq<char>>,
) {
    let t = trimmed(line);
    if t.len() > 0 && t[0] == '[' {
        (st.0, (st.1.0, st.1.1, st.1.2, t == "[Desktop Entry]"@), st.2)
    } else if !st.1.3 {
        st
    } else {
        let eq = find_char_from(t, '=', 0);
        if eq >= t.len() {
            st
        } else {
            let key = trimmed(t.subrange(0, eq as int));
            let value = trimmed(t.subrange(eq as int + 1, t.len() as int));
            if key == "Name"@ && st.0.0 is None {
                ((Some(value), st.0.1, st.0.2, st.0.3), st.1, st.2)
            } else if key == "Exec"@ {
                ((st.0.0, Some(value), st.0.2, st.0.3), st.1, st.2)
            } else if key == "Icon"@ {
                ((st.0.0, st.0.1, Some(value), st.0.3), st.1, st.2)
            } else if key == "Comment"@ && st.0.3 is None {
                ((st.0.0, st.0.1, st.0.2, Some(value)), st.1, st.2)
            } else if key == "NoDisplay"@ {
                (st.0, (lower_seq(value) == "true"@, st.1.1, st.1.2, st.1.3), st.2)
            } else if key == "Hidden"@ {
                (st.0, (st.1.0, lower_seq(value) == "true"@, st.1.2, st.1.3), st.2)
            } else if key == "Terminal"@ {
                (st.0, (st.1.0, st.1.1, lower_seq(value) == "true"@, st.1.3), st.2)
            } else if key == "Keywords"@ {
                (st.0, st.1, kw_parts(value, 0))
            } else {
                st
            }
        }
    }
}

pub open spec fn de_fold(
    lines: Seq<Seq<char>>,
    i: nat,
    st: (
        (Option<Seq<char>>, Option<Seq<char>>, Option<Seq<char>>, Option<Seq<char>>),
        (bool, bool, bool, bool),
        Seq<Seq<char>>,
    ),
) -> (
    (Option<Seq<char>>, Option<Seq<char>>, Option<Seq<char>>, Option<Seq<char>>),
    (bool, bool, bool, bool),
    Seq<Seq<char>>,
)
    decreases lines.len() - i,
{
    if i >= lines.len() {
        st
    } else {
        de_fold(lines, i + 1, de_line(st, lines[i as int]))
    }
}

/// What a desktop-entry text describes: name, command, icon, comment,
/// whether it runs in a terminal, and keywords; nothing for entries that
/// are hidden or nameless.
pub open spec fn spec_parse_desktop(s: Seq<char>) -> Option<
    (Seq<char>, Option<Seq<char>>, Option<Seq<char>>, Option<Seq<char>>, bool, Seq<Seq<char>>),
> {
    let st = de_fold(
        split_lines_from(s, 0),
        0,
        ((None, None, None, None), (false, false, false, false), Seq::empty()),
    );
    if st.1.0 || st.1.1 {
        None
    } else {
        match st.0.0 {
            None => None,
            Some(name) => Some((name, st.0.1, st.0.2, st.0.3, st.1.2, st.2)),
        }
    }
}

/// Optional texts correspond by view.
pub open spec fn opt_str_matches(a: Option<String>, b: Option<Seq<char>>) -> bool {
    match (a, b) {
        (None, None) => true,
        (Some(x), Some(y)) => x@ == y,
        _ => false,
    }
}

fn kw_split_exec(v: &Vec<char>, start: usize) -> (r: Vec<String>)
    requires
        start <= v@.len(),
    ensures
        r.deep_view() == kw_parts(v@, start as nat),
    decreases v@.len() - start,
{
    let n: usize = v.len();
    let p = find_char_idx(v, ';', start);
    let piece = subvec(v, start, p);
    if p >= n {
        let mut r: Vec<String> = Vec::new();
        if piece.len() > 0 {
            r.push(chars_to_string(&piece));
        }
        proof {
            assert(r.deep_view() =~~= kw_parts(v@, start as nat));
        }
        r
    } else {
        let mut r = kw_split_exec(v, p + 1);
        if piece.len() > 0 {
            r.insert(0, chars_to_string(&piece));
        }
        proof {
            assert(r.deep_view() =~~= kw_parts(v@, start as nat));
        }
        r
    }
}

/// Reads one application entry out of desktop-file text.
#[verifier::rlimit(100)]
pub fn parse_desktop_entry(content: &str) -> (r: Option<Item>)
    ensures
        match spec_parse_desktop(content@) {
            None => r is None,
            Some((name, ex, ic, cm, term, kws)) => r matches Some(it) && it.name@ == name
                && it.id@ == "app:"@ + name && it.item_type == ItemType::Application
                && opt_str_matches(it.description, cm) && opt_str_matches(it.icon, ic)
                && opt_str_matches(it.exec_cmd, ex) && it.metadata.terminal == term
                && it.keywords.deep_view() == kws,
        },
{
    let cs = to_chars(content);
    let lines = split_lines_exec(&cs, 0);
    let ghost lv = split_lines_from(content@, 0);
    let m: usize = lines.len();
    let mut name: Option<String> = None;
    let mut exec_cmd: Option<String> = None;
    let mut icon: Option<String> = None;
    let mut comment: Option<String> = None;
    let mut no_display = false;
    let mut hidden = false;
    let mut terminal = false;
    let mut in_entry = false;
    let mut keywords: Vec<String> = Vec::new();
    let ghost init_st = (
        (None::<Seq<char>>, None::<Seq<char>>, None::<Seq<char>>, None::<Seq<char>>),
        (false, false, false, false),
        Seq::<Seq<char>>::empty(),
    );
    let ghost mut gst = init_st;
    let mut k: usize = 0;
    while k < m
        invariant
            k <= m,
            m == lines@.len(),
            lines.deep_view() == lv,
            lv == split_lines_from(content@, 0),
            de_fold(lv, 0, init_st) == de_fold(lv, k as nat, gst),
            opt_str_matches(name, gst.0.0),
            opt_str_matches(exec_cmd, gst.0.1),
            opt_str_matches(icon, gst.0.2),
            opt_str_matches(comment, gst.0.3),
            no_display == gst.1.0,
            hidden == gst.1.1,
            terminal == gst.1.2,
            in_entry == gst.1.3,
            keywords.deep_view() == gst.2,
        decreases m - k,
    {
        let line = &lines[k];
        proof {
            assert(line@ == lv[k as int]);
        }
        let ghost gline = lv[k as int];
        let ghost nst = de_line(gst, gline);
        let t = trim_chars(line);
        let tn: usize = t.len();
        if tn > 0 && t[0] == '[' {
            let section = to_chars("[Desktop Entry]");
            in_entry = chars_eq(&t, &section);
        } else if !in_entry {
        } else {
            let eq = find_char_idx(&t, '=', 0);
            if eq >= tn {
            } else {
                let key_raw = subvec(&t, 0, eq);
                let key = trim_chars(&key_raw);
                let value_raw = subvec(&t, eq + 1, tn);
                let value = trim_chars(&value_raw);
                let kw_name = to_chars("Name");
                let kw_exec = to_chars("Exec");
                let kw_icon = to_chars("Icon");
                let kw_comment = to_chars("Comment");
                let kw_nodisplay = to_chars("NoDisplay");
                let kw_hidden = to_chars("Hidden");
                let kw_terminal = to_chars("Terminal");
                let kw_keywords = to_chars("Keywords");
                let kw_true = to_chars("true");
                if chars_eq(&key, &kw_name) && name.is_none() {
                    name = Some(chars_to_string(&value));
                } else if chars_eq(&key, &kw_exec) {
                    exec_cmd = Some(chars_to_string(&value));
                } else if chars_eq(&key, &kw_icon) {
                    icon = Some(chars_to_string(&value));
                } else if chars_eq(&key, &kw_comment) && comment.is_none() {
                    comment = Some(chars_to_string(&value));
                } else if chars_eq(&key, &kw_nodisplay) {
                    let lowered = to_lower_chars(&value);
                    no_display = chars_eq(&lowered, &kw_true);
                } else if chars_eq(&key, &kw_hidden) {
                    let lowered = to_lower_chars(&value);
                    hidden = chars_eq(&lowered, &kw_true);
                } else if chars_eq(&key, &kw_terminal) {
                    let lowered = to_lower_chars(&value);
                    terminal = chars_eq(&lowered, &kw_true);
                } else if chars_eq(&key, &kw_keywords) {
                    keywords = kw_split_exec(&value, 0);
                }
            }
        }
        proof {
            gst = nst;
        }
        k = k + 1;
    }
    if no_display || hidden {
        return None;
    }
    match name {
        None => None,
        Some(n) => {
            proof {
                reveal_strlit("app:");
            }
            let id = String::from_str("app:").concat(n.as_str());
            let mut item = Item::new(id, n, ItemType::Application);
            item.description = comment;
            item.icon = icon;
            item.exec_cmd = exec_cmd;
            item.keywords = keywords;
            item.metadata.terminal = terminal;
            Some(item)
        },
    }
}

// ---------------------------------------------------------------------------
// Launch commands: a desktop entry's command may carry field codes
// (`%f`, `%u` and friends) that stand for arguments; launching without
// arguments drops them.
// ---------------------------------------------------------------------------

/// The text with every occurrence of the two-character code removed,
/// scanning left to right.
pub open spec fn drop_code(s: Seq<char>, c: char) -> Seq<char>
    decreases s.len(),
{
    if s.len() < 2 {
        s
    } else if s[0] == '%' && s[1] == c {
        drop_code(s.subrange(2, s.len() as int), c)
    } else {
        seq![s[0]] + drop_code(s.subrange(1, s.len() as int), c)
    }
}

/// The command with the common field codes removed and the result
/// trimmed.
pub open spec fn spec_clean_exec(s: Seq<char>) -> Seq<char> {
    trimmed(
        drop_code(
            drop_code(
                drop_code(drop_code(drop_code(drop_code(drop_code(s, 'f'), 'F'), 'u'), 'U'), 'c'),
                'k',
            ),
            'i',
        ),
    )
}

fn drop_code_exec(s: &Vec<char>, c: char) -> (r: Vec<char>)
    ensures
        r@ == drop_code(s@, c),
{
    let n: usize = s.len();
    let mut out: Vec<char> = Vec::new();
    let mut i: usize = 0;
    proof {
        assert(s@.subrange(0, n as int) =~= s@);
        assert(out@ + drop_code(s@, c) =~= drop_code(s@, c));
    }
    while i < n
        invariant
            i <= n,
            n == s@.len(),
            drop_code(s@, c) == out@ + drop_code(s@.subrange(i as int, n as int), c),
        decreases n - i,
    {
        let ghost pre = out@;
        let ghost suf = s@.subrange(i as int, n as int);
        if i + 1 < n && s[i] == '%' && s[i + 1] == c {
            proof {
                assert(suf.subrange(2, suf.len() as int) =~= s@.subrange(i + 2, n as int));
            }
            i = i + 2;
        } else {
            out.push(s[i]);
            proof {
                assert(suf.subrange(1, suf.len() as int) =~= s@.subrange(i + 1, n as int));
                assert(pre + (seq![suf[0]] + drop_code(s@.subrange(i + 1, n as int), c)) =~= out@
                    + drop_code(s@.subrange(i + 1, n as int), c));
            }
            i = i + 1;
        }
    }
    proof {
        assert(s@.subrange(n as int, n as int) =~= Seq::<char>::empty());
        assert(out@ + Seq::<char>::empty() =~= out@);
    }
    out
}

/// Strips the field codes out of a desktop entry's command so that it
/// can run without arguments.
pub fn clean_exec_command(exec_cmd: &str) -> (r: String)
    ensures
        r@ == spec_clean_exec(exec_cmd@),
{
    let cs = to_chars(exec_cmd);
    let a = drop_code_exec(&cs, 'f');
    let b = drop_code_exec(&a, 'F');
    let c = drop_code_exec(&b, 'u');
    let d = drop_code_exec(&c, 'U');
    let e = drop_code_exec(&d, 'c');
    let f = drop_code_exec(&e, 'k');
    let g = drop_code_exec(&f, 'i');
    let t = trim_chars(&g);
    chars_to_string(&t)
}

} // verus!
