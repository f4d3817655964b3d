use vstd::prelude::*;
use crate::world::{CurrentWidget, EntityId, NewWidgetEvent};

verus! {

/// A change to the set of outlined (highlighted) entities.
#[derive(PartialEq, Eq, Structural, Clone, Copy, Debug)]
pub enum OutlineChange {
    Remove(EntityId),
    Insert(EntityId),
}

/// The outline changes of a batch of events: for each event, in order, the
/// old widget loses its outline and the new one gains one.
pub open spec fn changes_of(events: Seq<NewWidgetEvent>) -> Seq<OutlineChange>
    decreases events.len(),
{
    if events.len() == 0 {
        Seq::empty()
    } else {
        let e = events.last();
        changes_of(events.drop_last()).push(OutlineChange::Remove(e.old_widget)).push(
            OutlineChange::Insert(e.new_widget),
        )
    }
}

/// The active widget after a batch: the new widget of the last event, or the
/// one before when the batch is empty.
pub open spec fn current_after(current: Option<EntityId>, events: Seq<NewWidgetEvent>) -> Option<
    EntityId,
> {
    if events.len() == 0 {
        current
    } else {
        Some(events.last().new_widget)
    }
}

/// The outlined set after applying `changes` to `s`, in order.
pub open spec fn outlined_after(s: Set<EntityId>, changes: Seq<OutlineChange>) -> Set<EntityId>
    decreases changes.len(),
{
    if changes.len() == 0 {
        s
    } else {
        let before = outlined_after(s, changes.drop_last());
        match changes.last() {
            OutlineChange::Remove(e) => before.remove(e),
            OutlineChange::Insert(e) => before.insert(e),
        }
    }
}

/// Consumes one step's events in order: each moves the outline from its old
/// widget to its new one and makes the new one active. Returns the outline
/// changes for the caller to apply to the world.
pub fn update_current_widget(current_widget: &mut CurrentWidget, events: &Vec<NewWidgetEvent>) -> (r:
    Vec<OutlineChange>)
    ensures
        final(current_widget).0 == current_after(old(current_widget).0, events@),
        r@ == changes_of(events@),
{
    let mut changes: Vec<OutlineChange> = Vec::new();
    let mut i: usize = 0;
    while i < events.len()
        invariant
            i <= events@.len(),
            current_widget.0 == current_after(old(current_widget).0, events@.subrange(0, i as int)),
            changes@ == changes_of(events@.subrange(0, i as int)),
        decreases events.len() - i,
    {
        let event = events[i];
        proof {
            assert(events@.subrange(0, i + 1).drop_last() == events@.subrange(0, i as int));
        }
        changes.push(OutlineChange::Remove(event.old_widget));
        changes.push(OutlineChange::Insert(event.new_widget));
        current_widget.0 = Some(event.new_widget);
        i = i + 1;
    }
    proof {
        assert(events@.subrange(0, events@.len() as int) == events@);
    }
    changes
}

/// The outlined entities, without repeats.
pub struct Outlines {
    entities: Vec<EntityId>,
}

impl View for Outlines {
    type V = Set<EntityId>;

    closed spec fn view(&self) -> Set<EntityId> {
        self.entities@.to_set()
    }
}

impl Outlines {
    pub closed spec fn wf(&self) -> bool {
        self.entities@.no_duplicates()
    }

    /// No entity outlined.
    pub fn new() -> (r: Outlines)
        ensures
            r.wf(),
            r@ == Set::<EntityId>::empty(),
    {
        let r = Outlines { entities: Vec::new() };
        proof {
            assert(r@ =~= Set::<EntityId>::empty());
        }
        r
    }

    /// Whether `e` is outlined.
    pub fn contains(&self, e: EntityId) -> (r: bool)
        ensures
            r == self@.contains(e),
    {
        let mut i: usize = 0;
        while i < self.entities.len()
            invariant
                i <= self.entities@.len(),
                forall|j: int| 0 <= j < i ==> self.entities@[j] != e,
            decreases self.entities.len() - i,
        {
            if self.entities[i] == e {
                proof {
                    assert(self.entities@.contains(e));
                }
                return true;
            }
            i = i + 1;
        }
        false
    }

    /// The number of outlined entities.
    pub fn len(&self) -> (r: usize)
        requires
            self.wf(),
        ensures
            r == self@.len(),
    {
        proof {
            self.entities@.unique_seq_to_set();
        }
        self.entities.len()
    }

    /// Outlines `e`.
    pub fn insert(&mut self, e: EntityId)
        requires
            old(self).wf(),
        ensures
            final(self).wf(),
            final(self)@ == old(self)@.insert(e),
    {
        let ghost before = self.entities@;
        if !self.contains(e) {
            self.entities.push(e);
            proof {
                before.lemma_push_to_set_commute(e);
                assert forall|a: int, b: int|
                    0 <= a < self.entities@.len() && 0 <= b < self.entities@.len() && a != b
                        implies self.entities@[a] != self.entities@[b] by {
                    if a == before.len() {
                        assert(before.contains(before[b]));
                    } else if b == before.len() {
                        assert(before.contains(before[a]));
                    }
                }
            }
        } else {
            proof {
                assert(self@ =~= old(self)@.insert(e));
            }
        }
    }

    /// Takes the outline off `e`.
    pub fn remove(&mut self, e: EntityId)
        requires
            old(self).wf(),
        ensures
            final(self).wf(),
            final(self)@ == old(self)@.remove(e),
    {
        let ghost before = self.entities@;
        let mut kept: Vec<EntityId> = Vec::new();
        let mut i: usize = 0;
        while i < self.entities.len()
            invariant
                self.entities@ == before,
                before.no_duplicates(),
                i <= before.len(),
                kept@.no_duplicates(),
                forall|x: EntityId| kept@.contains(x) <==> (x != e && exists|j: int| 0 <= j < i && before[j] == x),
            decreases self.entities.len() - i,
        {
            let x = self.entities[i];
            let ghost old_kept = kept@;
            if x != e {
                proof {
                    assert(!(exists|j: int| 0 <= j < i && before[j] == x));
                    assert(!kept@.contains(x));
                }
                kept.push(x);
            }
            proof {
                assert forall|y: EntityId|
                    kept@.contains(y) <==> (y != e && exists|j: int| 0 <= j < i + 1 && before[j] == y) by {
                    if kept@.contains(y) {
                        if y == x && x != e {
                            assert(before[i as int] == y);
                        } else {
                            let k = choose|k: int| 0 <= k < kept@.len() && kept@[k] == y;
                            assert(old_kept[k] == y);
                            assert(old_kept.contains(y));
                        }
                    }
                    if y != e && exists|j: int| 0 <= j < i + 1 && before[j] == y {
                        let j = choose|j: int| 0 <= j < i + 1 && before[j] == y;
                        if j < i {
                            assert(old_kept.contains(y));
                            let k = choose|k: int| 0 <= k < old_kept.len() && old_kept[k] == y;
                            assert(kept@[k] == y);
                        } else {
                            assert(kept@[kept@.len() - 1] == y);
                        }
                    }
                }
            }
            i = i + 1;
        }
        self.entities = kept;
        proof {
            assert forall|y: EntityId| self@.contains(y) <==> old(self)@.remove(e).contains(y) by {
                if before.contains(y) {
                    let j = choose|j: int| 0 <= j < before.len() && before[j] == y;
                }
            }
            assert(self@ =~= old(self)@.remove(e));
        }
    }

    /// Applies `changes` in order.
    pub fn apply(&mut self, changes: &Vec<OutlineChange>)
        requires
            old(self).wf(),
        ensures
            final(self).wf(),
            final(self)@ == outlined_after(old(self)@, changes@),
    {
        let mut i: usize = 0;
        while i < changes.len()
            invariant
                self.wf(),
                i <= changes@.len(),
                self@ == outlined_after(old(self)@, changes@.subrange(0, i as int)),
            decreases changes.len() - i,
        {
            proof {
                assert(changes@.subrange(0, i + 1).drop_last() == changes@.subrange(0, i as int));
            }
            match changes[i] {
                OutlineChange::Remove(e) => self.remove(e),
                OutlineChange::Insert(e) => self.insert(e),
            }
            i = i + 1;
        }
        proof {
            assert(changes@.subrange(0, changes@.len() as int) == changes@);
        }
    }
}

} // verus!
