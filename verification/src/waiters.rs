//! The registry of suspended callers.

use vstd::prelude::*;
use std::collections::HashMap;
use vstd::std_specs::iter::IteratorSpec;
use futures::task::Task;
use crate::algorithms::Id;

verus! {

broadcast use vstd::std_specs::hash::group_hash_axioms;

/// `futures::task::Task`, carried through as an opaque value: the handle
/// by which a suspended caller is resumed.
#[verifier::external_type_specification]
#[verifier::external_body]
pub struct ExTask(futures::task::Task);

/// `Task::notify`: asks the executor to poll the task again. Nothing is
/// returned, and nothing that this library holds is changed.
#[verifier::external_body]
fn notify(task: &Task) {
    task.notify()
}

/// `HashMap::remove`: takes the entry of `number` out of the map, if there
/// is one, and leaves every other entry as it was. With a machine integer
/// as the key neither hashing nor comparing can fail, so the call does not
/// unwind.
#[verifier::external_body]
fn forget(tasks: &mut HashMap<usize, Task>, number: usize) -> (task: Option<Task>)
    ensures
        final(tasks)@ == old(tasks)@.remove(number),
        match task {
            Some(t) => old(tasks)@.contains_key(number) && old(tasks)@[number] == t,
            None => !old(tasks)@.contains_key(number),
        },
    opens_invariants none
    no_unwind
{
    tasks.remove(&number)
}

/// The callers that wait for the next tick, by the id they registered
/// under. Its view is the map from the number of each waiting id to the
/// handle that resumes it.
#[derive(Debug)]
pub struct Waiters {
    tasks: HashMap<usize, Task>,
}

impl View for Waiters {
    type V = Map<usize, Task>;

    closed spec fn view(&self) -> Map<usize, Task> {
        self.tasks@
    }
}

impl Waiters {
    /// A registry in which nobody waits.
    pub fn new() -> (w: Waiters)
        ensures
            w@ == Map::<usize, Task>::empty(),
    {
        Waiters { tasks: HashMap::new() }
    }

    /// The number of callers that wait.
    pub fn len(&self) -> (n: usize)
        ensures
            n == self@.len(),
    {
        self.tasks.len()
    }

    /// Whether the given id waits.
    pub fn contains(&self, id: Id) -> (b: bool)
        ensures
            b == self@.contains_key(id@),
    {
        self.tasks.contains_key(&id.number())
    }

    /// Record that the caller registered under `id` waits to be resumed
    /// through `task`. An earlier entry for the same id is replaced: the
    /// last one wins.
    pub fn enqueue(&mut self, id: Id, task: Task)
        ensures
            final(self)@ == old(self)@.insert(id@, task),
    {
        self.tasks.insert(id.number(), task);
    }

    /// Forget the entry of `id`, if there is one.
    pub fn cancel(&mut self, id: Id)
        ensures
            final(self)@ == old(self)@.remove(id@),
        opens_invariants none
        no_unwind
    {
        forget(&mut self.tasks, id.number());
    }

    /// Resume every caller that waits and forget them all. The ids that
    /// were resumed are returned, in the order in which they were: every id
    /// that waited is among them, each exactly once.
    pub fn wake_all(&mut self) -> (woken: Vec<Id>)
        ensures
            final(self)@ == Map::<usize, Task>::empty(),
            woken@.len() == old(self)@.len(),
            woken@.no_duplicates(),
            forall|id: Id| old(self)@.contains_key(id@) <==> woken@.contains(id),
    {
        let mut woken: Vec<Id> = Vec::new();
        for entry in it: self.tasks.iter()
            invariant
                it.seq() == self.tasks.iter().remaining(),
                woken@.len() == it.index(),
                forall|i: int| 0 <= i < woken@.len() ==> woken@[i]@ == *it.seq()[i].0,
        {
            let (number, task) = entry;
            notify(task);
            woken.push(Id::numbered(*number));
        }
        proof {
            let listed = self.tasks.iter().remaining();
            assert(listed.no_duplicates());
            assert forall|i: int, j: int| 0 <= i < woken@.len() && 0 <= j < woken@.len() && i != j
                implies woken@[i] != woken@[j] by {
                assert(self.tasks@.contains_key(*listed[i].0));
                assert(self.tasks@.contains_key(*listed[j].0));
                if woken@[i] == woken@[j] {
                    assert(listed[i] == listed[j]);
                }
            }
            assert forall|id: Id| self.tasks@.contains_key(id@) implies woken@.contains(id) by {
                let number = id@;
                let pair = (&number, &self.tasks@[number]);
                assert(listed.contains(pair));
                let i = choose|i: int| 0 <= i < listed.len() && listed[i] == pair;
                woken@[i].lemma_told_by_number(id);
                assert(woken@[i] == id);
            }
            assert forall|id: Id| woken@.contains(id) implies self.tasks@.contains_key(id@) by {
                let i = choose|i: int| 0 <= i < woken@.len() && woken@[i] == id;
                assert(self.tasks@.contains_key(*listed[i].0));
            }
        }
        self.tasks.clear();
        woken
    }
}

} // verus!
