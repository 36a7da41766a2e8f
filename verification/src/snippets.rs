use vstd::prelude::*;

use crate::ids::{new_uuid_string, now_timestamp};
use crate::strings::{
    chars_to_string, find_char_from, find_char_idx, starts_with_seq, str_skip, str_starts_with,
    strs_eq, subvec, to_chars, trim_chars, trimmed,
};

verus! {

/// One snippet.
pub struct Snippet {
    pub id: String,
    pub name: String,
    pub content: String,
    pub language: Option<String>,
    pub created: String,
}

/// The snippet collection.
pub struct SnippetsManager {
    pub snippets: Vec<Snippet>,
}

/// A fresh snippet was put in front and everything else kept.
pub open spec fn added_snippet(
    prev: Seq<Snippet>,
    next: Seq<Snippet>,
    name: Seq<char>,
    content: Seq<char>,
) -> bool {
    &&& next.len() == prev.len() + 1
    &&& next[0].name@ == name
    &&& next[0].content@ == content
    &&& next[0].language is None
    &&& next.subrange(1, next.len() as int) == prev
}

/// The snippets whose identifier differs from `id`, in order.
pub open spec fn snippets_without_id(s: Seq<Snippet>, id: Seq<char>) -> Seq<Snippet>
    decreases s.len(),
{
    if s.len() == 0 {
        Seq::empty()
    } else {
        let rest = snippets_without_id(s.drop_last(), id);
        if s.last().id@ == id {
            rest
        } else {
            rest.push(s.last())
        }
    }
}

/// What `execute_action` does, by the first matching action form.  An
/// action identifier carries `name:content` raw; an `add`/`new` query
/// carries `name: content` with both sides trimmed.
pub open spec fn snippet_action(
    prev: Seq<Snippet>,
    a: Seq<char>,
    q: Seq<char>,
    next: Seq<Snippet>,
) -> bool {
    if starts_with_seq(a, "snippet:add:"@) {
        let rest = a.subrange("snippet:add:"@.len() as int, a.len() as int);
        let c = find_char_from(rest, ':', 0);
        if c < rest.len() {
            added_snippet(
                prev,
                next,
                rest.subrange(0, c as int),
                rest.subrange(c as int + 1, rest.len() as int),
            )
        } else {
            next == prev
        }
    } else if a == "snippet:action:clear"@ {
        next.len() == 0
    } else if starts_with_seq(a, "snippet:delete:"@) {
        next == snippets_without_id(
            prev,
            a.subrange("snippet:delete:"@.len() as int, a.len() as int),
        )
    } else if starts_with_seq(q, "add "@) || starts_with_seq(q, "new "@) {
        let rest = q.subrange(4, q.len() as int);
        let c = find_char_from(rest, ':', 0);
        if c < rest.len() {
            let name = trimmed(rest.subrange(0, c as int));
            let content = trimmed(rest.subrange(c as int + 1, rest.len() as int));
            if name.len() > 0 && content.len() > 0 {
                added_snippet(prev, next, name, content)
            } else {
                next == prev
            }
        } else {
            next == prev
        }
    } else {
        next == prev
    }
}

impl SnippetsManager {
    /// An empty collection.
    pub fn new() -> (r: SnippetsManager)
        ensures
            r.snippets@.len() == 0,
    {
        SnippetsManager { snippets: Vec::new() }
    }

    /// A collection over the given snippets (for callers that persist
    /// them).
    pub fn with_snippets(snippets: Vec<Snippet>) -> (r: SnippetsManager)
        ensures
            r.snippets == snippets,
    {
        SnippetsManager { snippets }
    }

    /// Puts a new snippet in front.
    pub fn add_snippet(&mut self, name: &str, content: &str)
        ensures
            added_snippet(old(self).snippets@, final(self).snippets@, name@, content@),
    {
        let snippet = Snippet {
            id: new_uuid_string(),
            name: String::from_str(name),
            content: String::from_str(content),
            language: None,
            created: now_timestamp(),
        };
        self.snippets.insert(0, snippet);
        proof {
            assert(self.snippets@.subrange(1, self.snippets@.len() as int) =~= old(
                self,
            ).snippets@);
        }
    }

    /// Removes every snippet with the given identifier.
    pub fn delete_snippet(&mut self, id: &str)
        ensures
            final(self).snippets@ == snippets_without_id(old(self).snippets@, id@),
    {
        let mut work: Vec<Snippet> = Vec::new();
        core::mem::swap(&mut self.snippets, &mut work);
        let ghost orig = work@;
        let n: usize = work.len();
        let mut i: usize = 0;
        while work.len() > 0
            invariant
                i + work@.len() == n,
                n == orig.len(),
                work@ == orig.subrange(i as int, orig.len() as int),
                self.snippets@ == snippets_without_id(orig.subrange(0, i as int), id@),
            decreases work@.len(),
        {
            let t = work.remove(0);
            proof {
                assert(t == orig[i as int]);
                assert(work@ =~= orig.subrange(i + 1, orig.len() as int));
                assert(orig.subrange(0, i + 1).drop_last() =~= orig.subrange(0, i as int));
                assert(orig.subrange(0, i + 1).last() == orig[i as int]);
            }
            if !strs_eq(t.id.as_str(), id) {
                self.snippets.push(t);
            }
            i = i + 1;
        }
        proof {
            assert(orig.subrange(0, n as int) =~= orig);
        }
    }

    /// Removes every snippet.
    pub fn clear_snippets(&mut self)
        ensures
            final(self).snippets@.len() == 0,
    {
        self.snippets = Vec::new();
    }

    /// Dispatches an action identifier (or an `add`/`new` query) to the
    /// operation it names.
    pub fn execute_action(&mut self, action_id: &str, query: &str)
        ensures
            snippet_action(old(self).snippets@, action_id@, query@, final(self).snippets@),
    {
        proof {
            reveal_strlit("snippet:add:");
            reveal_strlit("snippet:delete:");
            reveal_strlit("add ");
            reveal_strlit("new ");
        }
        if str_starts_with(action_id, "snippet:add:") {
            let rest = str_skip(action_id, 12);
            let rc = to_chars(rest.as_str());
            let cpos = find_char_idx(&rc, ':', 0);
            if cpos < rc.len() {
                let name = subvec(&rc, 0, cpos);
                let rlen = rc.len();
                let content = subvec(&rc, cpos + 1, rlen);
                let ns = chars_to_string(&name);
                let cs = chars_to_string(&content);
                self.add_snippet(ns.as_str(), cs.as_str());
            }
        } else if strs_eq(action_id, "snippet:action:clear") {
            self.clear_snippets();
        } else if str_starts_with(action_id, "snippet:delete:") {
            let target = str_skip(action_id, 15);
            self.delete_snippet(target.as_str());
        } else if str_starts_with(query, "add ") || str_starts_with(query, "new ") {
            let rest = str_skip(query, 4);
            let rc = to_chars(rest.as_str());
            let cpos = find_char_idx(&rc, ':', 0);
            if cpos < rc.len() {
                let name_raw = subvec(&rc, 0, cpos);
                let rlen = rc.len();
                let content_raw = subvec(&rc, cpos + 1, rlen);
                let name = trim_chars(&name_raw);
                let content = trim_chars(&content_raw);
                if name.len() > 0 && content.len() > 0 {
                    let ns = chars_to_string(&name);
                    let cs = chars_to_string(&content);
                    self.add_snippet(ns.as_str(), cs.as_str());
                }
            }
        }
    }
}

} // verus!
