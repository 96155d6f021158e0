//! The store of all live tasks.
//!
//! Tasks are kept in the order of their insertion. A task is found by its
//! identifier; should two tasks share one, the one inserted first answers.

use crate::lifecycle::{changed, effect_of, refusal, Capability, Change, Effect};
use crate::outcome::Rejection;
use crate::task::Task;
use vstd::prelude::*;

verus! {

/// Whether some task of `tasks` has the identifier `id`.
pub open spec fn holds(tasks: Seq<Task>, id: u128) -> bool {
    exists|i: int| 0 <= i < tasks.len() && (#[trigger] tasks[i]).id == id
}

/// Whether `tasks[i]` is the first task with the identifier `id`.
pub open spec fn first_at(tasks: Seq<Task>, id: u128, i: int) -> bool {
    &&& 0 <= i < tasks.len()
    &&& tasks[i].id == id
    &&& forall|j: int| 0 <= j < i ==> (#[trigger] tasks[j]).id != id
}

/// The place of the first task with the identifier `id`.
pub open spec fn place(tasks: Seq<Task>, id: u128) -> int {
    choose|i: int| first_at(tasks, id, i)
}

/// The task that answers to `id`, if there is one.
pub open spec fn find(tasks: Seq<Task>, id: u128) -> Option<Task> {
    if holds(tasks, id) {
        Some(tasks[place(tasks, id)])
    } else {
        None
    }
}

/// Whether no two tasks of `tasks` share an identifier.
pub open spec fn distinct_ids(tasks: Seq<Task>) -> bool {
    forall|i: int, j: int|
        0 <= i < tasks.len() && 0 <= j < tasks.len() && i != j ==> (#[trigger] tasks[i]).id != (
        #[trigger] tasks[j]).id
}

/// `tasks` without the tasks that have the identifier `id`.
pub open spec fn without(tasks: Seq<Task>, id: u128) -> Seq<Task> {
    tasks.filter(|t: Task| t.id != id)
}

/// What becomes of `tasks` when `change` is asked, under `capability`, of
/// the task that answers to `id`: the tasks with that one task changed, or
/// the reason why nothing changes.
pub open spec fn updated(tasks: Seq<Task>, id: u128, capability: Capability, change: Option<Change>) -> Result<
    Seq<Task>,
    Rejection,
> {
    match find(tasks, id) {
        None => Err(Rejection::NotFound),
        Some(task) => match refusal(task.status, capability, change) {
            Some(e) => Err(e),
            None => Ok(tasks.update(place(tasks, id), changed(task, change->0))),
        },
    }
}

/// At most one place is the first with a given identifier, and there is
/// one exactly when the identifier is held.
pub proof fn lemma_place(tasks: Seq<Task>, id: u128)
    ensures
        holds(tasks, id) <==> first_at(tasks, id, place(tasks, id)),
        forall|i: int| first_at(tasks, id, i) ==> i == place(tasks, id),
    decreases tasks.len(),
{
    if holds(tasks, id) {
        let k = choose|i: int| 0 <= i < tasks.len() && (#[trigger] tasks[i]).id == id;
        lemma_first_exists(tasks, id, k);
    }
    assert forall|i: int| first_at(tasks, id, i) implies i == place(tasks, id) by {
        let p = place(tasks, id);
        assert(first_at(tasks, id, p));
        if i < p {
            assert(tasks[i].id != id);
        } else if p < i {
            assert(tasks[p].id != id);
        }
    }
}

proof fn lemma_first_exists(tasks: Seq<Task>, id: u128, k: int)
    requires
        0 <= k < tasks.len(),
        tasks[k].id == id,
    ensures
        exists|i: int| first_at(tasks, id, i),
    decreases k,
{
    if forall|j: int| 0 <= j < k ==> (#[trigger] tasks[j]).id != id {
        assert(first_at(tasks, id, k));
    } else {
        let j = choose|j: int| 0 <= j < k && (#[trigger] tasks[j]).id == id;
        lemma_first_exists(tasks, id, j);
    }
}

/// The store of all live tasks.
pub struct Registry {
    tasks: Vec<Task>,
}

impl View for Registry {
    type V = Seq<Task>;

    closed spec fn view(&self) -> Seq<Task> {
        self.tasks@
    }
}

impl Registry {
    /// A registry without tasks.
    pub fn new() -> (r: Registry)
        ensures
            r@ == Seq::<Task>::empty(),
    {
        Registry { tasks: Vec::new() }
    }

    /// The number of tasks.
    pub fn len(&self) -> (n: usize)
        ensures
            n == self@.len(),
    {
        self.tasks.len()
    }

    /// All tasks, oldest first: a snapshot of the whole registry.
    pub fn tasks(&self) -> (r: &[Task])
        ensures
            r@ == self@,
    {
        self.tasks.as_slice()
    }

    /// Adds `task` behind the tasks already there and returns its
    /// identifier.
    pub fn insert(&mut self, task: Task) -> (id: u128)
        ensures
            id == task.id,
            final(self)@ == old(self)@.push(task),
    {
        let id = task.id;
        self.tasks.push(task);
        id
    }

    /// The place of the task that answers to `id`.
    pub fn position(&self, id: u128) -> (r: Option<usize>)
        ensures
            r is Some <==> holds(self@, id),
            r matches Some(i) ==> i == place(self@, id) && first_at(self@, id, i as int),
    {
        let mut i: usize = 0;
        while i < self.tasks.len()
            invariant
                i <= self.tasks@.len(),
                forall|j: int| 0 <= j < i ==> (#[trigger] self.tasks@[j]).id != id,
            decreases self.tasks.len() - i,
        {
            if self.tasks[i].id == id {
                proof {
                    assert(first_at(self@, id, i as int));
                    lemma_place(self@, id);
                }
                return Some(i);
            }
            i = i + 1;
        }
        None
    }

    /// The task that answers to `id`.
    pub fn get(&self, id: u128) -> (r: Option<&Task>)
        ensures
            r is Some <==> holds(self@, id),
            r matches Some(t) ==> Some(*t) == find(self@, id),
    {
        match self.position(id) {
            Some(i) => Some(&self.tasks[i]),
            None => None,
        }
    }

    /// Applies `change`, asked under `capability`, to the task that answers
    /// to `id`, in place and in one step. Without such a task, or where the
    /// task refuses the change, the registry stays as it was.
    pub fn update(&mut self, id: u128, capability: Capability, change: Option<Change>) -> (r: Result<
        Effect,
        Rejection,
    >)
        ensures
            match updated(old(self)@, id, capability, change) {
                Err(e) => r == Err::<Effect, Rejection>(e) && final(self)@ == old(self)@,
                Ok(tasks) => {
                    &&& final(self)@ == tasks
                    &&& r matches Ok(effect)
                    &&& effect_of(find(old(self)@, id)->0, change->0, effect)
                },
            },
    {
        match self.position(id) {
            None => Err(Rejection::NotFound),
            Some(i) => {
                let r = self.tasks[i].apply(capability, change);
                assert(self.tasks@ =~= old(self).tasks@.update(i as int, self.tasks@[i as int]));
                r
            },
        }
    }

    /// Removes every task with the identifier `id`; without one, nothing
    /// changes.
    pub fn retire(&mut self, id: u128)
        ensures
            final(self)@ == without(old(self)@, id),
    {
        let ghost before = self@;
        let ghost keep = |t: Task| t.id != id;
        let mut i: usize = 0;
        let ghost mut seen: int = 0;
        while i < self.tasks.len()
            invariant
                keep == |t: Task| t.id != id,
                0 <= i <= self.tasks@.len(),
                i <= seen <= before.len(),
                self.tasks@.len() - i == before.len() - seen,
                self.tasks@.subrange(0, i as int) == before.subrange(0, seen).filter(keep),
                self.tasks@.subrange(i as int, self.tasks@.len() as int) == before.subrange(seen, before.len() as int),
            decreases self.tasks.len() - i,
        {
            let ghost cur = self.tasks@;
            assert(cur[i as int] == cur.subrange(i as int, cur.len() as int)[0]);
            assert(cur[i as int] == before[seen]);
            proof {
                let tail = cur.subrange(i as int, cur.len() as int);
                assert forall|k: int| i <= k < cur.len() implies #[trigger] cur[k] == before[k - i + seen] by {
                    assert(cur[k] == tail[k - i]);
                    assert(before[k - i + seen] == before.subrange(seen, before.len() as int)[k - i]);
                }
                reveal(Seq::filter);
                assert(before.subrange(0, seen + 1).drop_last() =~= before.subrange(0, seen));
                assert(before.subrange(0, seen + 1).last() == before[seen]);
            }
            if self.tasks[i].id == id {
                self.tasks.remove(i);
                proof {
                    assert(self.tasks@.subrange(0, i as int) =~= cur.subrange(0, i as int));
                    assert(self.tasks@.subrange(i as int, self.tasks@.len() as int) =~= before.subrange(
                        seen + 1,
                        before.len() as int,
                    ));
                    seen = seen + 1;
                }
            } else {
                proof {
                    assert(cur.subrange(0, i + 1) =~= cur.subrange(0, i as int).push(cur[i as int]));
                    assert(cur.subrange(i + 1, cur.len() as int) =~= before.subrange(
                        seen + 1,
                        before.len() as int,
                    ));
                    seen = seen + 1;
                }
                i = i + 1;
            }
        }
        proof {
            assert(self.tasks@.subrange(0, i as int) =~= self.tasks@);
            assert(before.subrange(0, seen) =~= before);
        }
    }
}

} // verus!
