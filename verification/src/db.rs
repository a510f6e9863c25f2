use vstd::prelude::*;

use crate::api_error::CustomError;
use crate::task::Task;

verus! {

/// The first task in `s` whose identifier is `id`, if any. Lookup scans in
/// order, so with duplicate identifiers the earliest entry wins.
pub open spec fn find_task(s: Seq<Task>, id: u128) -> Option<Task>
    decreases s.len(),
{
    if s.len() == 0 {
        None
    } else if s[0].id == id {
        Some(s[0])
    } else {
        find_task(s.drop_first(), id)
    }
}

/// Whether some task in `s` carries the identifier `id`.
pub open spec fn has_task(s: Seq<Task>, id: u128) -> bool {
    find_task(s, id) is Some
}

/// `s` with the first task whose identifier is `id` removed; `s` unchanged if
/// no task matches.
pub open spec fn remove_task(s: Seq<Task>, id: u128) -> Seq<Task>
    decreases s.len(),
{
    if s.len() == 0 {
        s
    } else if s[0].id == id {
        s.drop_first()
    } else {
        seq![s[0]] + remove_task(s.drop_first(), id)
    }
}

/// `s` with the first task whose identifier is `id` replaced by `t` (the full
/// payload, its own identifier included); `s` unchanged if no task matches.
pub open spec fn replace_task(s: Seq<Task>, id: u128, t: Task) -> Seq<Task>
    decreases s.len(),
{
    if s.len() == 0 {
        s
    } else if s[0].id == id {
        s.update(0, t)
    } else {
        seq![s[0]] + replace_task(s.drop_first(), id, t)
    }
}

/// Where the first match at an index is known, the recursive definitions
/// coincide with index-based lookup, removal and replacement.
proof fn lemma_first_match(s: Seq<Task>, id: u128, i: int, t: Task)
    requires
        0 <= i < s.len(),
        s[i].id == id,
        forall|j: int| 0 <= j < i ==> s[j].id != id,
    ensures
        find_task(s, id) == Some(s[i]),
        remove_task(s, id) == s.remove(i),
        replace_task(s, id, t) == s.update(i, t),
    decreases i,
{
    if i == 0 {
        assert(remove_task(s, id) =~= s.remove(0));
        assert(replace_task(s, id, t) =~= s.update(0, t));
    } else {
        let rest = s.drop_first();
        assert(forall|j: int| 0 <= j < i - 1 ==> rest[j].id != id);
        lemma_first_match(rest, id, i - 1, t);
        assert(remove_task(s, id) =~= s.remove(i)) by {
            assert(remove_task(s, id) == seq![s[0]] + rest.remove(i - 1));
        }
        assert(replace_task(s, id, t) =~= s.update(i, t)) by {
            assert(replace_task(s, id, t) == seq![s[0]] + rest.update(i - 1, t));
        }
    }
}

/// Where no task matches, lookup finds nothing and removal and replacement
/// leave the collection as it was.
proof fn lemma_no_match(s: Seq<Task>, id: u128, t: Task)
    requires
        forall|j: int| 0 <= j < s.len() ==> s[j].id != id,
    ensures
        find_task(s, id) is None,
        remove_task(s, id) == s,
        replace_task(s, id, t) == s,
    decreases s.len(),
{
    if s.len() > 0 {
        let rest = s.drop_first();
        assert(forall|j: int| 0 <= j < rest.len() ==> rest[j].id != id);
        lemma_no_match(rest, id, t);
        assert(remove_task(s, id) =~= s);
        assert(replace_task(s, id, t) =~= s);
    }
}

/// Prepending a task that does not match leaves lookup unchanged.
proof fn lemma_find_prepend(head: Task, rest: Seq<Task>, id: u128)
    requires
        head.id != id,
    ensures
        find_task(seq![head] + rest, id) == find_task(rest, id),
{
    let s = seq![head] + rest;
    assert(s.drop_first() =~= rest);
}

/// Removing a present identifier shortens the collection by exactly one.
proof fn lemma_remove_present_len(s: Seq<Task>, id: u128)
    requires
        has_task(s, id),
    ensures
        remove_task(s, id).len() == s.len() - 1,
    decreases s.len(),
{
    if s[0].id != id {
        lemma_remove_present_len(s.drop_first(), id);
    }
}

/// Every task left after a removal was in the collection before it.
proof fn lemma_remove_subset(s: Seq<Task>, id: u128, t: Task)
    requires
        remove_task(s, id).contains(t),
    ensures
        s.contains(t),
    decreases s.len(),
{
    if s.len() > 0 && s[0].id != id {
        let rest = s.drop_first();
        let r = seq![s[0]] + remove_task(rest, id);
        if t == s[0] {
            assert(s.contains(t)) by {
                assert(s[0] == t);
            }
        } else {
            let i = choose|i: int| 0 <= i < r.len() && r[i] == t;
            assert(remove_task(rest, id)[i - 1] == t);
            lemma_remove_subset(rest, id, t);
            let j = choose|j: int| 0 <= j < rest.len() && rest[j] == t;
            assert(s[j + 1] == t);
        }
    }
}

/// Law: a freshly created task is found afterwards by its identifier,
/// unchanged in every field. Creation appends the task to the collection, so
/// this holds whenever no already stored task carries the same identifier.
pub proof fn lemma_create_then_get(s: Seq<Task>, t: Task)
    requires
        forall|j: int| 0 <= j < s.len() ==> s[j].id != t.id,
    ensures
        find_task(s.push(t), t.id) == Some(t),
{
    lemma_first_match(s.push(t), t.id, s.len() as int, t);
}

/// Law: deleting an identifier that occurs at most once leaves a collection
/// in which it no longer occurs — so deleting the same identifier twice finds
/// a task the first time and nothing the second time.
pub proof fn lemma_delete_twice(s: Seq<Task>, id: u128)
    requires
        forall|i: int, j: int|
            0 <= i < j < s.len() ==> !(s[i].id == id && s[j].id == id),
    ensures
        has_task(s, id) ==> !has_task(remove_task(s, id), id),
    decreases s.len(),
{
    if s.len() > 0 && has_task(s, id) {
        let rest = s.drop_first();
        if s[0].id == id {
            assert(forall|j: int| 0 <= j < rest.len() ==> rest[j].id != id) by {
                assert(forall|j: int|
                    0 <= j < rest.len() ==> rest[j] == s[j + 1]);
            }
            lemma_no_match(rest, id, vstd::pervasive::arbitrary());
        } else {
            assert(forall|i: int, j: int|
                0 <= i < j < rest.len() ==> !(rest[i].id == id && rest[j].id == id)) by {
                assert(forall|j: int|
                    0 <= j < rest.len() ==> rest[j] == s[j + 1]);
            }
            lemma_delete_twice(rest, id);
            lemma_find_prepend(s[0], rest, id);
            lemma_find_prepend(s[0], remove_task(rest, id), id);
        }
    }
}

/// One step of the storage lifecycle: a creation or a deletion by identifier.
pub enum StoreOp {
    Create(Task),
    Delete(u128),
}

/// The collection after one lifecycle step.
pub open spec fn apply_op(s: Seq<Task>, op: StoreOp) -> Seq<Task> {
    match op {
        StoreOp::Create(t) => s.push(t),
        StoreOp::Delete(id) => remove_task(s, id),
    }
}

/// The collection after a whole sequence of lifecycle steps, run in order.
pub open spec fn apply_ops(s: Seq<Task>, ops: Seq<StoreOp>) -> Seq<Task>
    decreases ops.len(),
{
    if ops.len() == 0 {
        s
    } else {
        apply_ops(apply_op(s, ops[0]), ops.drop_first())
    }
}

/// How many steps of `ops` are creations.
pub open spec fn count_creates(ops: Seq<StoreOp>) -> nat
    decreases ops.len(),
{
    if ops.len() == 0 {
        0
    } else {
        (if ops[0] is Create {
            1nat
        } else {
            0nat
        }) + count_creates(ops.drop_first())
    }
}

/// How many steps of `ops` are deletions.
pub open spec fn count_deletes(ops: Seq<StoreOp>) -> nat
    decreases ops.len(),
{
    if ops.len() == 0 {
        0
    } else {
        (if ops[0] is Delete {
            1nat
        } else {
            0nat
        }) + count_deletes(ops.drop_first())
    }
}

/// Every deletion in `ops` targets an identifier present when it runs.
pub open spec fn deletes_hit(s: Seq<Task>, ops: Seq<StoreOp>) -> bool
    decreases ops.len(),
{
    if ops.len() == 0 {
        true
    } else {
        (ops[0] matches StoreOp::Delete(id) ==> has_task(s, id)) && deletes_hit(
            apply_op(s, ops[0]),
            ops.drop_first(),
        )
    }
}

/// Law: after N creations and M deletions, each deletion targeting an
/// identifier present when it runs, the collection holds exactly N − M more
/// tasks than it started with; and every task it then holds stood in the
/// starting collection or was one of the created payloads, fields unchanged.
pub proof fn lemma_list_after_creates_and_deletes(s: Seq<Task>, ops: Seq<StoreOp>)
    requires
        deletes_hit(s, ops),
    ensures
        count_deletes(ops) <= s.len() + count_creates(ops),
        apply_ops(s, ops).len() == s.len() + count_creates(ops) - count_deletes(ops),
        forall|t: Task| #[trigger]
            apply_ops(s, ops).contains(t) ==> s.contains(t) || ops.contains(StoreOp::Create(t)),
    decreases ops.len(),
{
    if ops.len() > 0 {
        let op = ops[0];
        let s2 = apply_op(s, op);
        if op is Delete {
            lemma_remove_present_len(s, op->Delete_0);
        }
        lemma_list_after_creates_and_deletes(s2, ops.drop_first());
        assert forall|t: Task| #[trigger]
            apply_ops(s, ops).contains(t) implies s.contains(t) || ops.contains(
            StoreOp::Create(t),
        ) by {
            assert(apply_ops(s2, ops.drop_first()).contains(t));
            if s2.contains(t) {
                match op {
                    StoreOp::Create(t0) => {
                        if t == t0 {
                            assert(ops[0] == StoreOp::Create(t));
                        } else {
                            let i = choose|i: int| 0 <= i < s2.len() && s2[i] == t;
                            assert(s[i] == t);
                        }
                    },
                    StoreOp::Delete(id) => {
                        lemma_remove_subset(s, id, t);
                    },
                }
            } else {
                assert(ops.drop_first().contains(StoreOp::Create(t)));
                let i = choose|i: int|
                    0 <= i < ops.drop_first().len() && ops.drop_first()[i] == StoreOp::Create(t);
                assert(ops[i + 1] == StoreOp::Create(t));
            }
        }
    }
}

/// The index of the first task in `tasks` whose identifier is `id`.
fn find_index(tasks: &Vec<Task>, id: u128) -> (r: Option<usize>)
    ensures
        match r {
            Some(i) => i < tasks.len() && tasks@[i as int].id == id && forall|j: int|
                0 <= j < i ==> tasks@[j].id != id,
            None => forall|j: int| 0 <= j < tasks@.len() ==> tasks@[j].id != id,
        },
{
    let mut i: usize = 0;
    while i < tasks.len()
        invariant
            i <= tasks.len(),
            forall|j: int| 0 <= j < i ==> tasks@[j].id != id,
        decreases tasks.len() - i,
    {
        if tasks[i].id == id {
            return Some(i);
        }
        i += 1;
    }
    None
}

/// The in-memory storage backend: an ordered collection of tasks held in
/// insertion order. Every operation works on the whole collection; the
/// surrounding application serializes concurrent access behind one lock.
#[derive(Debug)]
pub struct MemoryDB {
    tasks: Vec<Task>,
}

impl View for MemoryDB {
    type V = Seq<Task>;

    closed spec fn view(&self) -> Seq<Task> {
        self.tasks@
    }
}

impl MemoryDB {
    /// A backend holding no tasks.
    pub fn new() -> (r: Self)
        ensures
            r@ == Seq::<Task>::empty(),
    {
        MemoryDB { tasks: Vec::new() }
    }

    /// A snapshot copy of all stored tasks, in insertion order.
    pub fn get_tasks(&self) -> (r: Vec<Task>)
        ensures
            r@ == self@,
    {
        let mut out: Vec<Task> = Vec::new();
        let mut i: usize = 0;
        while i < self.tasks.len()
            invariant
                i <= self.tasks.len(),
                out@ =~= self.tasks@.subrange(0, i as int),
            decreases self.tasks.len() - i,
        {
            out.push(self.tasks[i].clone());
            i += 1;
        }
        proof {
            assert(out@ =~= self.tasks@);
        }
        out
    }

    /// The task matching `id`, or absent if none exists.
    pub fn get_task(&self, id: u128) -> (r: Option<Task>)
        ensures
            r == find_task(self@, id),
    {
        match find_index(&self.tasks, id) {
            Some(i) => {
                proof {
                    lemma_first_match(self.tasks@, id, i as int, self.tasks@[i as int]);
                }
                Some(self.tasks[i].clone())
            },
            None => {
                proof {
                    lemma_no_match(self.tasks@, id, vstd::pervasive::arbitrary());
                }
                None
            },
        }
    }

    /// Persist a new task by appending it; the stored value is returned.
    /// No uniqueness check runs against existing identifiers: identifiers are
    /// freshly generated at construction, so normal usage never repeats one.
    /// An in-memory append cannot fail, so the result is always a success.
    pub fn create_task(&mut self, task: Task) -> (r: Result<Task, CustomError>)
        ensures
            final(self)@ == old(self)@.push(task),
            r == Ok::<Task, CustomError>(task),
    {
        let stored = task.clone();
        self.tasks.push(stored);
        Ok(task)
    }

    /// Replace the first task matching `id` with the supplied payload,
    /// verbatim: the write is keyed by `id`, never by the identifier inside
    /// `task`. Returns the payload on success, or absent — with the
    /// collection untouched — if no task matches.
    pub fn update_task(&mut self, id: u128, task: Task) -> (r: Option<Task>)
        ensures
            !has_task(old(self)@, id) ==> r is None && final(self)@ == old(self)@,
            has_task(old(self)@, id) ==> r == Some(task) && final(self)@ == replace_task(
                old(self)@,
                id,
                task,
            ),
    {
        match find_index(&self.tasks, id) {
            Some(i) => {
                proof {
                    lemma_first_match(self.tasks@, id, i as int, task);
                }
                let stored = task.clone();
                let slot = vstd::std_specs::vec::vec_index_mut(&mut self.tasks, i);
                *slot = stored;
                Some(task)
            },
            None => {
                proof {
                    lemma_no_match(self.tasks@, id, task);
                }
                None
            },
        }
    }

    /// Remove the first task matching `id`. Reports a present `true` when a
    /// task was removed, and absent — with the collection untouched — if no
    /// task matches.
    pub fn delete_task(&mut self, id: u128) -> (r: Option<bool>)
        ensures
            !has_task(old(self)@, id) ==> r is None && final(self)@ == old(self)@,
            has_task(old(self)@, id) ==> r == Some(true) && final(self)@ == remove_task(
                old(self)@,
                id,
            ),
    {
        match find_index(&self.tasks, id) {
            Some(i) => {
                proof {
                    lemma_first_match(self.tasks@, id, i as int, self.tasks@[i as int]);
                }
                self.tasks.remove(i);
                Some(true)
            },
            None => {
                proof {
                    lemma_no_match(self.tasks@, id, vstd::pervasive::arbitrary());
                }
                None
            },
        }
    }
}

} // verus!
