use vstd::prelude::*;

use crate::strings::strs_eq;

verus! {

/// One remembered clipboard text.
pub struct ClipboardEntry {
    pub content: String,
    pub timestamp: String,
}

/// The clipboard history, newest first.
pub struct ClipboardManager {
    pub history: Vec<ClipboardEntry>,
}

/// The entries whose content differs from `text`, in order.
pub open spec fn without_content(s: Seq<ClipboardEntry>, text: Seq<char>) -> Seq<ClipboardEntry>
    decreases s.len(),
{
    if s.len() == 0 {
        Seq::empty()
    } else {
        let rest = without_content(s.drop_last(), text);
        if s.last().content@ == text {
            rest
        } else {
            rest.push(s.last())
        }
    }
}

/// Adding `text` in front: duplicates leave, the new entry leads, and the
/// history is clipped to `max` entries.  Empty text changes nothing.
pub open spec fn clip_added(
    prev: Seq<ClipboardEntry>,
    next: Seq<ClipboardEntry>,
    text: Seq<char>,
    ts: Seq<char>,
    max: nat,
) -> bool {
    if text.len() == 0 {
        next == prev
    } else {
        let w = without_content(prev, text);
        let keep = vstd::math::min(w.len() as int + 1, max as int);
        if max == 0 {
            next.len() == 0
        } else {
            &&& next.len() == keep
            &&& next[0].content@ == text
            &&& next[0].timestamp@ == ts
            &&& next.subrange(1, keep) == w.subrange(0, keep - 1)
        }
    }
}

impl ClipboardManager {
    /// An empty history.
    pub fn new() -> (r: ClipboardManager)
        ensures
            r.history@.len() == 0,
    {
        ClipboardManager { history: Vec::new() }
    }

    /// A history over the given entries (for callers that persist them).
    pub fn with_history(history: Vec<ClipboardEntry>) -> (r: ClipboardManager)
        ensures
            r.history == history,
    {
        ClipboardManager { history }
    }

    /// Remembers `text`: removes any earlier copy, puts it in front, and
    /// clips the history to `max` entries.
    pub fn add_to_history(&mut self, text: &str, timestamp: &str, max: usize)
        ensures
            clip_added(old(self).history@, final(self).history@, text@, timestamp@, max as nat),
    {
        if text.is_empty() {
            return ;
        }
        let mut work: Vec<ClipboardEntry> = Vec::new();
        core::mem::swap(&mut self.history, &mut work);
        let ghost orig = work@;
        let n: usize = work.len();
        let mut i: usize = 0;
        let mut kept: Vec<ClipboardEntry> = Vec::new();
        while work.len() > 0
            invariant
                i + work@.len() == n,
                n == orig.len(),
                work@ == orig.subrange(i as int, orig.len() as int),
                kept@ == without_content(orig.subrange(0, i as int), text@),
            decreases work@.len(),
        {
            let t = work.remove(0);
            proof {
                assert(t == orig[i as int]);
                assert(work@ =~= orig.subrange(i + 1, orig.len() as int));
                assert(orig.subrange(0, i + 1).drop_last() =~= orig.subrange(0, i as int));
                assert(orig.subrange(0, i + 1).last() == orig[i as int]);
            }
            if !strs_eq(t.content.as_str(), text) {
                kept.push(t);
            }
            i = i + 1;
        }
        proof {
            assert(orig.subrange(0, n as int) =~= orig);
        }
        let entry = ClipboardEntry {
            content: String::from_str(text),
            timestamp: String::from_str(timestamp),
        };
        kept.insert(0, entry);
        let ghost full = kept@;
        while kept.len() > max
            invariant
                kept@.len() <= full.len(),
                kept@.len() >= vstd::math::min(full.len() as int, max as int),
                kept@ == full.subrange(0, kept@.len() as int),
            decreases kept@.len(),
        {
            let ghost before = kept@;
            kept.pop();
            proof {
                assert(before.drop_last() =~= full.subrange(0, before.len() - 1));
            }
        }
        self.history = kept;
        proof {
            let w = without_content(old(self).history@, text@);
            assert(full.subrange(1, full.len() as int) =~= w);
            if max > 0 {
                let keep = vstd::math::min(w.len() as int + 1, max as int);
                assert(self.history@.subrange(1, keep) =~= w.subrange(0, keep - 1));
            }
        }
    }

    /// Forgets everything.
    pub fn clear_history(&mut self)
        ensures
            final(self).history@.len() == 0,
    {
        self.history = Vec::new();
    }
}

} // verus!
