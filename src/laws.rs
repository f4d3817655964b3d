use vstd::prelude::*;
use crate::detect::{calls_for_hand_off, detected_events, hand_offs};
use crate::outline::{changes_of, current_after, outlined_after, OutlineChange};
use crate::world::{EntityId, NewWidgetEvent, SensorContact};

verus! {

/// What the last change in `c` that names `x` does to it: `Some(true)` for an
/// insertion, `Some(false)` for a removal, `None` when no change names it.
pub open spec fn last_touch(c: Seq<OutlineChange>, x: EntityId) -> Option<bool>
    decreases c.len(),
{
    if c.len() == 0 {
        None
    } else {
        match c.last() {
            OutlineChange::Remove(e) => if e == x {
                Some(false)
            } else {
                last_touch(c.drop_last(), x)
            },
            OutlineChange::Insert(e) => if e == x {
                Some(true)
            } else {
                last_touch(c.drop_last(), x)
            },
        }
    }
}

/// An entity is outlined after a run of changes exactly when the last change
/// that names it is an insertion, or, when none names it, it was outlined
/// before.
pub proof fn lemma_outlined_by_last_touch(s: Set<EntityId>, c: Seq<OutlineChange>, x: EntityId)
    ensures
        outlined_after(s, c).contains(x) == match last_touch(c, x) {
            Some(b) => b,
            None => s.contains(x),
        },
    decreases c.len(),
{
    if c.len() > 0 {
        lemma_outlined_by_last_touch(s, c.drop_last(), x);
    }
}

/// Replaying a batch of transition events a second time changes neither the
/// outlined set nor the active widget.
pub proof fn lemma_replay_is_idempotent(
    current: Option<EntityId>,
    s: Set<EntityId>,
    events: Seq<NewWidgetEvent>,
)
    ensures
        outlined_after(outlined_after(s, changes_of(events)), changes_of(events)) == outlined_after(
            s,
            changes_of(events),
        ),
        current_after(current_after(current, events), events) == current_after(current, events),
{
    let c = changes_of(events);
    let once = outlined_after(s, c);
    assert forall|x: EntityId| outlined_after(once, c).contains(x) == once.contains(x) by {
        lemma_outlined_by_last_touch(s, c, x);
        lemma_outlined_by_last_touch(once, c, x);
    }
    assert(outlined_after(once, c) =~= once);
}

/// Two hand-offs in one step, from `a` to `b` and then from `b` to `c`: `c`
/// ends active and outlined, `b` ends without an outline, and `a`, when it
/// had no outline, still has none.
pub proof fn lemma_chained_hand_offs(
    current: Option<EntityId>,
    s: Set<EntityId>,
    a: EntityId,
    b: EntityId,
    c: EntityId,
)
    requires
        a != c,
        b != c,
        !s.contains(a),
    ensures
        ({
            let events = seq![
                NewWidgetEvent { old_widget: a, new_widget: b },
                NewWidgetEvent { old_widget: b, new_widget: c },
            ];
            let after = outlined_after(s, changes_of(events));
            &&& current_after(current, events) == Some(c)
            &&& after.contains(c)
            &&& !after.contains(b)
            &&& after.contains(a) == s.contains(a)
        }),
{
    let events = seq![
        NewWidgetEvent { old_widget: a, new_widget: b },
        NewWidgetEvent { old_widget: b, new_widget: c },
    ];
    let first = events.drop_last();
    assert(first =~= seq![NewWidgetEvent { old_widget: a, new_widget: b }]);
    assert(first.drop_last() =~= Seq::<NewWidgetEvent>::empty());
    assert(changes_of(first.drop_last()) == Seq::<OutlineChange>::empty());
    assert(first.last() == NewWidgetEvent { old_widget: a, new_widget: b });
    assert(changes_of(first) =~= seq![OutlineChange::Remove(a), OutlineChange::Insert(b)]);
    let ch = changes_of(events);
    let ch3 = ch.drop_last();
    let ch2 = ch3.drop_last();
    let ch1 = ch2.drop_last();
    assert(ch3 =~= seq![OutlineChange::Remove(a), OutlineChange::Insert(b), OutlineChange::Remove(b)]);
    assert(ch2 =~= seq![OutlineChange::Remove(a), OutlineChange::Insert(b)]);
    assert(ch1 =~= seq![OutlineChange::Remove(a)]);
    assert(last_touch(ch, c) == Some(true));
    assert(ch.last() == OutlineChange::Insert(c));
    assert(ch3.last() == OutlineChange::Remove(b));
    assert(last_touch(ch3, b) == Some(false));
    assert(last_touch(ch, b) == Some(false));
    assert(last_touch(ch1, a) == Some(false));
    assert(ch1.last() == OutlineChange::Remove(a));
    assert(ch2.last() == OutlineChange::Insert(b));
    if a != b {
        assert(last_touch(ch2, a) == Some(false));
    }
    assert(last_touch(ch3, a) == Some(false));
    assert(last_touch(ch, a) == Some(false));
    lemma_outlined_by_last_touch(s, ch, a);
    lemma_outlined_by_last_touch(s, ch, b);
    lemma_outlined_by_last_touch(s, ch, c);
}

/// No hand-off is called for while every sensor that the player intersects is
/// the active widget itself.
pub proof fn lemma_no_event_on_current_widget(
    current: EntityId,
    players: Seq<EntityId>,
    contacts: Seq<SensorContact>,
)
    requires
        forall|i: int|
            0 <= i < contacts.len() && #[trigger] contacts[i].intersection == Some(true)
                ==> contacts[i].sensor == current,
    ensures
        detected_events(Some(current), players, contacts) == Seq::<NewWidgetEvent>::empty(),
{
    assert forall|i: int| 0 <= i < contacts.len() implies !calls_for_hand_off(
        current,
        #[trigger] contacts[i],
    ) by {
        if contacts[i].intersection == Some(true) {
            assert(contacts[i].sensor == current);
        }
    }
    lemma_hand_offs_empty_when_none_call(current, contacts);
}

proof fn lemma_hand_offs_empty_when_none_call(current: EntityId, contacts: Seq<SensorContact>)
    requires
        forall|i: int| 0 <= i < contacts.len() ==> !calls_for_hand_off(current, #[trigger] contacts[i]),
    ensures
        hand_offs(current, contacts) == Seq::<NewWidgetEvent>::empty(),
    decreases contacts.len(),
{
    if contacts.len() > 0 {
        let rest = contacts.drop_last();
        assert forall|i: int| 0 <= i < rest.len() implies !calls_for_hand_off(current, #[trigger] rest[i]) by {
            assert(rest[i] == contacts[i]);
        }
        lemma_hand_offs_empty_when_none_call(current, rest);
    }
}

/// With no player present, detection emits nothing, and the step leaves the
/// active widget and the outlined set as they were.
pub proof fn lemma_no_player_no_events(
    current: Option<EntityId>,
    s: Set<EntityId>,
    contacts: Seq<SensorContact>,
)
    ensures
        ({
            let events = detected_events(current, Seq::<EntityId>::empty(), contacts);
            &&& events == Seq::<NewWidgetEvent>::empty()
            &&& current_after(current, events) == current
            &&& outlined_after(s, changes_of(events)) == s
        }),
{
}

} // verus!
