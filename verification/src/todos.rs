use vstd::prelude::*;

use crate::ids::{new_uuid_string, now_timestamp};
use crate::strings::{starts_with_seq, str_skip, str_starts_with, strs_eq};

verus! {

/// One todo entry.
pub struct TodoItem {
    pub id: String,
    pub text: String,
    pub completed: bool,
    pub created: String,
}

/// The todo list.
pub struct TodosManager {
    pub todos: Vec<TodoItem>,
}

/// A fresh entry for `text` was put in front and everything else kept.
pub open spec fn added_todo(prev: Seq<TodoItem>, next: Seq<TodoItem>, text: Seq<char>) -> bool {
    &&& next.len() == prev.len() + 1
    &&& next[0].text@ == text
    &&& !next[0].completed
    &&& next.subrange(1, next.len() as int) == prev
}

/// The first entry with the given identifier.
pub open spec fn first_with_id(s: Seq<TodoItem>, id: Seq<char>) -> Option<int>
    decreases s.len(),
{
    if s.len() == 0 {
        None
    } else if s[0].id@ == id {
        Some(0)
    } else {
        match first_with_id(s.drop_first(), id) {
            None => None,
            Some(i) => Some(i + 1),
        }
    }
}

/// The entries whose identifier differs from `id`, in order.
pub open spec fn without_id(s: Seq<TodoItem>, id: Seq<char>) -> Seq<TodoItem>
    decreases s.len(),
{
    if s.len() == 0 {
        Seq::empty()
    } else {
        let rest = without_id(s.drop_last(), id);
        if s.last().id@ == id {
            rest
        } else {
            rest.push(s.last())
        }
    }
}

/// The entries not yet completed, in order.
pub open spec fn pending_only(s: Seq<TodoItem>) -> Seq<TodoItem>
    decreases s.len(),
{
    if s.len() == 0 {
        Seq::empty()
    } else {
        let rest = pending_only(s.drop_last());
        if s.last().completed {
            rest
        } else {
            rest.push(s.last())
        }
    }
}

/// The identifier a toggle refers to: a `todo:` prefix is stripped.
pub open spec fn toggle_target(id: Seq<char>) -> Seq<char> {
    if starts_with_seq(id, "todo:"@) {
        id.subrange("todo:"@.len() as int, id.len() as int)
    } else {
        id
    }
}

/// The first entry with the target identifier had its completion flag
/// flipped; everything else is unchanged.
pub open spec fn toggled(prev: Seq<TodoItem>, next: Seq<TodoItem>, id: Seq<char>) -> bool {
    match first_with_id(prev, id) {
        None => next == prev,
        Some(i) => {
            &&& next.len() == prev.len()
            &&& forall|k: int| 0 <= k < prev.len() && k != i ==> next[k] == prev[k]
            &&& next[i].id == prev[i].id
            &&& next[i].text == prev[i].text
            &&& next[i].created == prev[i].created
            &&& next[i].completed == !prev[i].completed
        },
    }
}

/// What `execute_action` does, by the first matching action form.
pub open spec fn todo_action(
    prev: Seq<TodoItem>,
    a: Seq<char>,
    q: Seq<char>,
    next: Seq<TodoItem>,
) -> bool {
    if starts_with_seq(a, "todo:add:"@) {
        added_todo(prev, next, a.subrange("todo:add:"@.len() as int, a.len() as int))
    } else if a == "todo:action:clear_completed"@ {
        next == pending_only(prev)
    } else if a == "todo:action:clear_all"@ {
        next.len() == 0
    } else if starts_with_seq(a, "todo:delete:"@) {
        next == without_id(prev, a.subrange("todo:delete:"@.len() as int, a.len() as int))
    } else if starts_with_seq(q, "add "@) || starts_with_seq(q, "new "@) {
        let text = q.subrange(4, q.len() as int);
        if text.len() > 0 {
            added_todo(prev, next, text)
        } else {
            next == prev
        }
    } else {
        next == prev
    }
}

proof fn lem_first_with_id_at(s: Seq<TodoItem>, id: Seq<char>, k: int)
    requires
        0 <= k < s.len(),
        s[k].id@ == id,
        forall|t: int| 0 <= t < k ==> s[t].id@ != id,
    ensures
        first_with_id(s, id) == Some(k),
    decreases k,
{
    if k > 0 {
        lem_first_with_id_at(s.drop_first(), id, k - 1);
    }
}

proof fn lem_first_with_id_none(s: Seq<TodoItem>, id: Seq<char>)
    requires
        forall|t: int| 0 <= t < s.len() ==> s[t].id@ != id,
    ensures
        first_with_id(s, id) is None,
    decreases s.len(),
{
    if s.len() > 0 {
        lem_first_with_id_none(s.drop_first(), id);
    }
}

impl TodosManager {
    /// An empty todo list.
    pub fn new() -> (r: TodosManager)
        ensures
            r.todos@.len() == 0,
    {
        TodosManager { todos: Vec::new() }
    }

    /// A todo list over the given entries (for callers that persist them).
    pub fn with_todos(todos: Vec<TodoItem>) -> (r: TodosManager)
        ensures
            r.todos == todos,
    {
        TodosManager { todos }
    }

    /// Puts a new pending entry in front.  Its identifier and timestamp
    /// come from the clock and the random generator, so only its text and
    /// state are promised.
    pub fn add_todo(&mut self, text: &str)
        ensures
            added_todo(old(self).todos@, final(self).todos@, text@),
    {
        let todo = TodoItem {
            id: new_uuid_string(),
            text: String::from_str(text),
            completed: false,
            created: now_timestamp(),
        };
        self.todos.insert(0, todo);
        proof {
            assert(self.todos@.subrange(1, self.todos@.len() as int) =~= old(self).todos@);
        }
    }

    /// Flips the completion flag of the first entry the identifier names
    /// (a `todo:` prefix on the identifier is ignored).
    pub fn toggle_todo(&mut self, id: &str)
        ensures
            toggled(old(self).todos@, final(self).todos@, toggle_target(id@)),
    {
        proof {
            reveal_strlit("todo:");
        }
        let target: String = if str_starts_with(id, "todo:") {
            str_skip(id, 5)
        } else {
            String::from_str(id)
        };
        let ghost tg = toggle_target(id@);
        let n: usize = self.todos.len();
        let mut k: usize = 0;
        while k < n
            invariant
                k <= n,
                n == self.todos@.len(),
                tg == target@,
                tg == toggle_target(id@),
                self.todos == old(self).todos,
                forall|t: int| 0 <= t < k ==> old(self).todos@[t].id@ != tg,
            decreases n - k,
        {
            if strs_eq(self.todos[k].id.as_str(), target.as_str()) {
                proof {
                    lem_first_with_id_at(old(self).todos@, tg, k as int);
                }
                let mut entry = self.todos.remove(k);
                entry.completed = !entry.completed;
                self.todos.insert(k, entry);
                proof {
                    assert(self.todos@ =~= old(self).todos@.update(k as int, entry));
                }
                return ;
            }
            k = k + 1;
        }
        proof {
            lem_first_with_id_none(old(self).todos@, tg);
        }
    }

    /// Removes every entry with the given identifier.
    pub fn delete_todo(&mut self, id: &str)
        ensures
            final(self).todos@ == without_id(old(self).todos@, id@),
    {
        let mut work: Vec<TodoItem> = Vec::new();
        core::mem::swap(&mut self.todos, &mut work);
        let ghost orig = work@;
        let n: usize = work.len();
        let mut i: usize = 0;
        while work.len() > 0
            invariant
                i + work@.len() == n,
                n == orig.len(),
                work@ == orig.subrange(i as int, orig.len() as int),
                self.todos@ == without_id(orig.subrange(0, i as int), id@),
            decreases work@.len(),
        {
            let t = work.remove(0);
            proof {
                assert(t == orig[i as int]);
                assert(work@ =~= orig.subrange(i + 1, orig.len() as int));
                assert(orig.subrange(0, i + 1).drop_last() =~= orig.subrange(0, i as int));
                assert(orig.subrange(0, i + 1).last() == orig[i as int]);
            }
            if !strs_eq(t.id.as_str(), id) {
                self.todos.push(t);
            }
            i = i + 1;
        }
        proof {
            assert(orig.subrange(0, n as int) =~= orig);
        }
    }

    /// Removes every completed entry.
    pub fn clear_completed(&mut self)
        ensures
            final(self).todos@ == pending_only(old(self).todos@),
    {
        let mut work: Vec<TodoItem> = Vec::new();
        core::mem::swap(&mut self.todos, &mut work);
        let ghost orig = work@;
        let n: usize = work.len();
        let mut i: usize = 0;
        while work.len() > 0
            invariant
                i + work@.len() == n,
                n == orig.len(),
                work@ == orig.subrange(i as int, orig.len() as int),
                self.todos@ == pending_only(orig.subrange(0, i as int)),
            decreases work@.len(),
        {
            let t = work.remove(0);
            proof {
                assert(t == orig[i as int]);
                assert(work@ =~= orig.subrange(i + 1, orig.len() as int));
                assert(orig.subrange(0, i + 1).drop_last() =~= orig.subrange(0, i as int));
                assert(orig.subrange(0, i + 1).last() == orig[i as int]);
            }
            if !t.completed {
                self.todos.push(t);
            }
            i = i + 1;
        }
        proof {
            assert(orig.subrange(0, n as int) =~= orig);
        }
    }

    /// Removes every entry.
    pub fn clear_all(&mut self)
        ensures
            final(self).todos@.len() == 0,
    {
        self.todos = Vec::new();
    }

    /// Dispatches an action identifier (or an `add`/`new` query) to the
    /// operation it names.
    pub fn execute_action(&mut self, action_id: &str, query: &str)
        ensures
            todo_action(old(self).todos@, action_id@, query@, final(self).todos@),
    {
        proof {
            reveal_strlit("todo:add:");
            reveal_strlit("todo:delete:");
            reveal_strlit("add ");
            reveal_strlit("new ");
        }
        if str_starts_with(action_id, "todo:add:") {
            let text = str_skip(action_id, 9);
            self.add_todo(text.as_str());
        } else if strs_eq(action_id, "todo:action:clear_completed") {
            self.clear_completed();
        } else if strs_eq(action_id, "todo:action:clear_all") {
            self.clear_all();
        } else if str_starts_with(action_id, "todo:delete:") {
            let target = str_skip(action_id, 12);
            self.delete_todo(target.as_str());
        } else if str_starts_with(query, "add ") || str_starts_with(query, "new ") {
            let text = str_skip(query, 4);
            if !text.as_str().is_empty() {
                self.add_todo(text.as_str());
            }
        }
    }
}

} // verus!
