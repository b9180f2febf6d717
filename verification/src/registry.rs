//! The entity registry: an arena of slots addressed by stable handles.

use vstd::prelude::*;
use crate::entity::{Marks, System};

verus! {

/// Whether a slot holds a live entity that the rule acts on.
pub open spec fn hit(slot: Option<Marks>, sys: System) -> bool {
    slot matches Some(m) && sys.spec_acts_on(m)
}

/// The handles of the live entities that the rule acts on, in rising order.
pub open spec fn subjects(slots: Seq<Option<Marks>>, sys: System) -> Seq<usize>
    decreases slots.len(),
{
    if slots.len() == 0 {
        Seq::empty()
    } else {
        let rest = subjects(slots.drop_last(), sys);
        if hit(slots.last(), sys) {
            rest.push((slots.len() - 1) as usize)
        } else {
            rest
        }
    }
}

/// The slots after every entity that the rule acts on has been removed.
pub open spec fn cleared(slots: Seq<Option<Marks>>, sys: System) -> Seq<Option<Marks>> {
    Seq::new(
        slots.len(),
        |i: int|
            if hit(slots[i], sys) {
                None
            } else {
                slots[i]
            },
    )
}

/// The number of live entities.
pub open spec fn live(slots: Seq<Option<Marks>>) -> nat
    decreases slots.len(),
{
    if slots.len() == 0 {
        0
    } else if slots.last() is Some {
        live(slots.drop_last()) + 1
    } else {
        live(slots.drop_last())
    }
}

/// A live entity that the rule acts on is among its subjects, however many
/// slots follow it.
pub proof fn lemma_subjects_complete(slots: Seq<Option<Marks>>, sys: System, handle: usize)
    requires
        handle < slots.len(),
        hit(slots[handle as int], sys),
    ensures
        subjects(slots, sys).contains(handle),
    decreases slots.len(),
{
    let rest = subjects(slots.drop_last(), sys);
    if handle == slots.len() - 1 {
        assert(subjects(slots, sys)[rest.len() as int] == handle);
    } else {
        lemma_subjects_complete(slots.drop_last(), sys, handle);
        let k = choose|k: int| 0 <= k < rest.len() && rest[k] == handle;
        assert(subjects(slots, sys)[k] == handle);
    }
}

/// `subjects` lists exactly the handles of the slots that the rule hits, each
/// once and in rising order.
pub proof fn lemma_subjects_exact(slots: Seq<Option<Marks>>, sys: System)
    requires
        slots.len() <= usize::MAX,
    ensures
        forall|k: int|
            0 <= k < subjects(slots, sys).len() ==> {
                let h = #[trigger] subjects(slots, sys)[k];
                h < slots.len() && hit(slots[h as int], sys)
            },
        forall|j: int, k: int|
            0 <= j < k < subjects(slots, sys).len() ==> subjects(slots, sys)[j] < subjects(
                slots,
                sys,
            )[k],
        forall|h: int|
            0 <= h < slots.len() && hit(#[trigger] slots[h], sys) ==> subjects(
                slots,
                sys,
            ).contains(h as usize),
    decreases slots.len(),
{
    if slots.len() > 0 {
        let front = slots.drop_last();
        let rest = subjects(front, sys);
        lemma_subjects_exact(front, sys);
        assert forall|k: int| 0 <= k < rest.len() implies hit(slots[(#[trigger] rest[k]) as int], sys) by {
            assert(hit(front[rest[k] as int], sys));
        }
    }
    assert forall|h: int| 0 <= h < slots.len() && hit(#[trigger] slots[h], sys) implies subjects(
        slots,
        sys,
    ).contains(h as usize) by {
        lemma_subjects_complete(slots, sys, h as usize);
    }
}

/// Nothing that a rule acts on is left once its subjects are cleared, and
/// clearing a second time changes nothing.
pub proof fn lemma_cleared_is_final(slots: Seq<Option<Marks>>, sys: System)
    ensures
        subjects(cleared(slots, sys), sys) == Seq::<usize>::empty(),
        cleared(cleared(slots, sys), sys) == cleared(slots, sys),
    decreases slots.len(),
{
    assert(cleared(cleared(slots, sys), sys) =~= cleared(slots, sys));
    if slots.len() > 0 {
        lemma_cleared_is_final(slots.drop_last(), sys);
        assert(cleared(slots, sys).drop_last() =~= cleared(slots.drop_last(), sys));
    }
}

/// The slots that a batch of `count` equal entities adds.
pub open spec fn batch_slots(count: nat, marks: Marks) -> Seq<Option<Marks>> {
    Seq::new(count, |i: int| Some(marks))
}

/// The handles that a batch of `count` entities gets in a registry that has
/// given out `base` handles before: the next `count` indices.
pub open spec fn batch_handles(base: nat, count: nat) -> Seq<usize> {
    Seq::new(count, |i: int| (base + i) as usize)
}

/// The arena of entities. A handle is the index of a slot; a slot is never
/// used again once its entity is gone, so a handle names one entity for good.
pub struct Registry {
    slots: Vec<Option<Marks>>,
}

impl View for Registry {
    type V = Seq<Option<Marks>>;

    closed spec fn view(&self) -> Seq<Option<Marks>> {
        self.slots@
    }
}

impl Registry {
    /// A registry without entities.
    pub fn new() -> (r: Registry)
        ensures
            r@ == Seq::<Option<Marks>>::empty(),
    {
        Registry { slots: Vec::new() }
    }

    /// A registry never holds more slots than a handle can name.
    pub proof fn lemma_bounded(&self)
        ensures
            self@.len() <= usize::MAX,
    {
        assert(self.slots.len() == self.slots@.len());
    }

    /// The number of handles given out so far, live or not.
    pub fn capacity_used(&self) -> (n: usize)
        ensures
            n == self@.len(),
    {
        self.slots.len()
    }

    /// The marks of the entity behind a handle, if it is live.
    pub fn marks(&self, handle: usize) -> (m: Option<Marks>)
        ensures
            m == if handle < self@.len() {
                self@[handle as int]
            } else {
                None
            },
    {
        if handle < self.slots.len() {
            self.slots[handle]
        } else {
            None
        }
    }

    /// Adds an entity and returns its handle, which is the next unused index.
    pub fn spawn(&mut self, marks: Marks) -> (handle: usize)
        ensures
            handle == old(self)@.len(),
            final(self)@ == old(self)@.push(Some(marks)),
    {
        let handle: usize = self.slots.len();
        self.slots.push(Some(marks));
        handle
    }

    /// Adds `count` entities with the same marks and returns their handles,
    /// which are the next `count` unused indices in rising order.
    pub fn spawn_batch(&mut self, count: usize, marks: Marks) -> (handles: Vec<usize>)
        ensures
            handles@ == batch_handles(old(self)@.len(), count as nat),
            final(self)@ == old(self)@ + batch_slots(count as nat, marks),
    {
        let mut handles: Vec<usize> = Vec::new();
        let mut i: usize = 0;
        while i < count
            invariant
                i <= count,
                handles@ == batch_handles(old(self)@.len(), i as nat),
                self@ == old(self)@ + batch_slots(i as nat, marks),
            decreases count - i,
        {
            let handle: usize = self.spawn(marks);
            handles.push(handle);
            i += 1;
            proof {
                assert(handles@ =~= batch_handles(old(self)@.len(), i as nat));
                assert(self@ =~= old(self)@ + batch_slots(i as nat, marks));
            }
        }
        handles
    }

    /// Removes the entity behind a handle. Returns whether there was one; a
    /// handle that is unknown or already dead leaves the registry as it was.
    pub fn despawn(&mut self, handle: usize) -> (removed: bool)
        ensures
            removed == (handle < old(self)@.len() && old(self)@[handle as int] is Some),
            final(self)@ == if removed {
                old(self)@.update(handle as int, None)
            } else {
                old(self)@
            },
    {
        if handle < self.slots.len() && self.slots[handle].is_some() {
            self.slots.set(handle, None);
            true
        } else {
            false
        }
    }

    /// The number of live entities.
    pub fn live_count(&self) -> (n: usize)
        ensures
            n == live(self@),
    {
        let mut n: usize = 0;
        let mut i: usize = 0;
        while i < self.slots.len()
            invariant
                i <= self.slots.len(),
                n <= i,
                n == live(self@.take(i as int)),
            decreases self.slots.len() - i,
        {
            proof {
                assert(self@.take(i + 1).drop_last() == self@.take(i as int));
            }
            if self.slots[i].is_some() {
                n += 1;
            }
            i += 1;
        }
        proof {
            assert(self@.take(i as int) == self@);
        }
        n
    }

    /// The handles of the live entities that a rule acts on, in rising order.
    pub fn select(&self, sys: System) -> (out: Vec<usize>)
        ensures
            out@ == subjects(self@, sys),
    {
        let mut out: Vec<usize> = Vec::new();
        let mut i: usize = 0;
        while i < self.slots.len()
            invariant
                i <= self.slots.len(),
                out@ == subjects(self@.take(i as int), sys),
            decreases self.slots.len() - i,
        {
            proof {
                assert(self@.take(i + 1).drop_last() == self@.take(i as int));
            }
            let acted = match self.slots[i] {
                Some(m) => sys.acts_on(m),
                None => false,
            };
            if acted {
                out.push(i);
            }
            i += 1;
        }
        proof {
            assert(self@.take(i as int) == self@);
        }
        out
    }

    /// Removes every live entity that a rule acts on and returns their
    /// handles in rising order. All other slots stay as they were.
    pub fn despawn_all(&mut self, sys: System) -> (gone: Vec<usize>)
        ensures
            gone@ == subjects(old(self)@, sys),
            final(self)@ == cleared(old(self)@, sys),
    {
        let mut gone: Vec<usize> = Vec::new();
        let mut i: usize = 0;
        while i < self.slots.len()
            invariant
                i <= self.slots.len(),
                self@.len() == old(self)@.len(),
                gone@ == subjects(old(self)@.take(i as int), sys),
                forall|j: int| 0 <= j < i ==> self@[j] == cleared(old(self)@, sys)[j],
                forall|j: int| i <= j < self@.len() ==> self@[j] == old(self)@[j],
            decreases self.slots.len() - i,
        {
            proof {
                assert(old(self)@.take(i + 1).drop_last() == old(self)@.take(i as int));
            }
            let acted = match self.slots[i] {
                Some(m) => sys.acts_on(m),
                None => false,
            };
            if acted {
                self.slots.set(i, None);
                gone.push(i);
            }
            i += 1;
        }
        proof {
            assert(old(self)@.take(i as int) == old(self)@);
            assert(self@ =~= cleared(old(self)@, sys));
        }
        gone
    }
}

} // verus!
