use vstd::prelude::*;

use crate::ids::{new_uuid_string, now_timestamp};
use crate::strings::{
    chars_to_string, starts_with_seq, str_skip, str_starts_with, strs_eq, subvec, to_chars,
};

verus! {

/// One note.
pub struct Note {
    pub id: String,
    pub title: String,
    pub content: String,
    pub created: String,
    pub updated: String,
}

/// The note collection.
pub struct NotesManager {
    pub notes: Vec<Note>,
}

/// A long note's title is its head, ellipsed; a short note titles itself.
pub open spec fn note_title(c: Seq<char>) -> Seq<char> {
    if c.len() > 30 {
        c.subrange(0, 27) + seq!['.', '.', '.']
    } else {
        c
    }
}

/// A fresh note for `content` was put in front and everything else kept.
pub open spec fn added_note(prev: Seq<Note>, next: Seq<Note>, content: Seq<char>) -> bool {
    &&& next.len() == prev.len() + 1
    &&& next[0].content@ == content
    &&& next[0].title@ == note_title(content)
    &&& next.subrange(1, next.len() as int) == prev
}

/// The notes whose identifier differs from `id`, in order.
pub open spec fn notes_without_id(s: Seq<Note>, id: Seq<char>) -> Seq<Note>
    decreases s.len(),
{
    if s.len() == 0 {
        Seq::empty()
    } else {
        let rest = notes_without_id(s.drop_last(), id);
        if s.last().id@ == id {
            rest
        } else {
            rest.push(s.last())
        }
    }
}

/// What `execute_action` does, by the first matching action form.
pub open spec fn note_action(
    prev: Seq<Note>,
    a: Seq<char>,
    q: Seq<char>,
    next: Seq<Note>,
) -> bool {
    if starts_with_seq(a, "note:add:"@) {
        added_note(prev, next, a.subrange("note:add:"@.len() as int, a.len() as int))
    } else if a == "note:action:clear"@ {
        next.len() == 0
    } else if starts_with_seq(a, "note:delete:"@) {
        next == notes_without_id(prev, a.subrange("note:delete:"@.len() as int, a.len() as int))
    } else if starts_with_seq(q, "add "@) || starts_with_seq(q, "new "@) {
        let content = q.subrange(4, q.len() as int);
        if content.len() > 0 {
            added_note(prev, next, content)
        } else {
            next == prev
        }
    } else {
        next == prev
    }
}

impl NotesManager {
    /// An empty collection.
    pub fn new() -> (r: NotesManager)
        ensures
            r.notes@.len() == 0,
    {
        NotesManager { notes: Vec::new() }
    }

    /// A collection over the given notes (for callers that persist them).
    pub fn with_notes(notes: Vec<Note>) -> (r: NotesManager)
        ensures
            r.notes == notes,
    {
        NotesManager { notes }
    }

    /// Puts a new note in front; the title is derived from the content.
    pub fn add_note(&mut self, content: &str)
        ensures
            added_note(old(self).notes@, final(self).notes@, content@),
    {
        let cs = to_chars(content);
        let title: String = if cs.len() > 30 {
            let head = subvec(&cs, 0, 27);
            proof {
                reveal_strlit("...");
                assert("..."@ =~= seq!['.', '.', '.']);
            }
            chars_to_string(&head).concat("...")
        } else {
            String::from_str(content)
        };
        let note = Note {
            id: new_uuid_string(),
            title,
            content: String::from_str(content),
            created: now_timestamp(),
            updated: now_timestamp(),
        };
        self.notes.insert(0, note);
        proof {
            assert(self.notes@.subrange(1, self.notes@.len() as int) =~= old(self).notes@);
        }
    }

    /// Removes every note with the given identifier.
    pub fn delete_note(&mut self, id: &str)
        ensures
            final(self).notes@ == notes_without_id(old(self).notes@, id@),
    {
        let mut work: Vec<Note> = Vec::new();
        core::mem::swap(&mut self.notes, &mut work);
        let ghost orig = work@;
        let n: usize = work.len();
        let mut i: usize = 0;
        while work.len() > 0
            invariant
                i + work@.len() == n,
                n == orig.len(),
                work@ == orig.subrange(i as int, orig.len() as int),
                self.notes@ == notes_without_id(orig.subrange(0, i as int), id@),
            decreases work@.len(),
        {
            let t = work.remove(0);
            proof {
                assert(t == orig[i as int]);
                assert(work@ =~= orig.subrange(i + 1, orig.len() as int));
                assert(orig.subrange(0, i + 1).drop_last() =~= orig.subrange(0, i as int));
                assert(orig.subrange(0, i + 1).last() == orig[i as int]);
            }
            if !strs_eq(t.id.as_str(), id) {
                self.notes.push(t);
            }
            i = i + 1;
        }
        proof {
            assert(orig.subrange(0, n as int) =~= orig);
        }
    }

    /// Removes every note.
    pub fn clear_notes(&mut self)
        ensures
            final(self).notes@.len() == 0,
    {
        self.notes = Vec::new();
    }

    /// Dispatches an action identifier (or an `add`/`new` query) to the
    /// operation it names.
    pub fn execute_action(&mut self, action_id: &str, query: &str)
        ensures
            note_action(old(self).notes@, action_id@, query@, final(self).notes@),
    {
        proof {
            reveal_strlit("note:add:");
            reveal_strlit("note:delete:");
            reveal_strlit("add ");
            reveal_strlit("new ");
        }
        if str_starts_with(action_id, "note:add:") {
            let content = str_skip(action_id, 9);
            self.add_note(content.as_str());
        } else if strs_eq(action_id, "note:action:clear") {
            self.clear_notes();
        } else if str_starts_with(action_id, "note:delete:") {
            let target = str_skip(action_id, 12);
            self.delete_note(target.as_str());
        } else if str_starts_with(query, "add ") || str_starts_with(query, "new ") {
            let content = str_skip(query, 4);
            if !content.as_str().is_empty() {
                self.add_note(content.as_str());
            }
        }
    }
}

} // verus!
