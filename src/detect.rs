use vstd::prelude::*;
use crate::world::{CurrentWidget, EntityId, NewWidgetEvent, SensorContact};

verus! {

/// The player entity, when exactly one exists.
pub open spec fn sole_player(players: Seq<EntityId>) -> Option<EntityId> {
    if players.len() == 1 {
        Some(players[0])
    } else {
        None
    }
}

/// Whether a contact calls for a hand-off away from `current`: the sensor
/// intersects the player and is not the active widget.
pub open spec fn calls_for_hand_off(current: EntityId, c: SensorContact) -> bool {
    c.intersection == Some(true) && c.sensor != current
}

/// One event per contact that calls for a hand-off, in the order of the
/// contacts.
pub open spec fn hand_offs(current: EntityId, contacts: Seq<SensorContact>) -> Seq<NewWidgetEvent>
    decreases contacts.len(),
{
    if contacts.len() == 0 {
        Seq::empty()
    } else {
        let rest = hand_offs(current, contacts.drop_last());
        let c = contacts.last();
        if calls_for_hand_off(current, c) {
            rest.push(NewWidgetEvent { old_widget: current, new_widget: c.sensor })
        } else {
            rest
        }
    }
}

/// The events of one detection step: none without a single player or an
/// active widget.
pub open spec fn detected_events(
    current: Option<EntityId>,
    players: Seq<EntityId>,
    contacts: Seq<SensorContact>,
) -> Seq<NewWidgetEvent> {
    match (current, sole_player(players)) {
        (Some(w), Some(_)) => hand_offs(w, contacts),
        _ => Seq::empty(),
    }
}

/// The player entity, when exactly one exists.
pub fn single_player(players: &Vec<EntityId>) -> (r: Option<EntityId>)
    ensures
        r == sole_player(players@),
{
    if players.len() == 1 {
        Some(players[0])
    } else {
        None
    }
}

/// Compares the sensors that intersect the player against the active widget.
///
/// `contacts` holds, for each sensor, what the physics engine reported for it
/// and the one player this step. Each intersecting sensor other than the
/// active widget gives one event from the active widget to that sensor, in the
/// order of `contacts`. Nothing is emitted unless exactly one player exists
/// and a widget is active.
pub fn detect_widget_sensors(
    current_widget: &CurrentWidget,
    players: &Vec<EntityId>,
    contacts: &Vec<SensorContact>,
) -> (events: Vec<NewWidgetEvent>)
    ensures
        events@ == detected_events(current_widget.0, players@, contacts@),
{
    let mut events: Vec<NewWidgetEvent> = Vec::new();
    if single_player(players).is_none() {
        return events;
    }
    let old_entity = match current_widget.0 {
        Some(w) => w,
        None => {
            return events;
        },
    };
    let mut i: usize = 0;
    while i < contacts.len()
        invariant
            i <= contacts@.len(),
            events@ == hand_offs(old_entity, contacts@.subrange(0, i as int)),
        decreases contacts.len() - i,
    {
        let c = contacts[i];
        proof {
            assert(contacts@.subrange(0, i + 1).drop_last() == contacts@.subrange(0, i as int));
        }
        if c.intersection == Some(true) && c.sensor != old_entity {
            events.push(NewWidgetEvent { old_widget: old_entity, new_widget: c.sensor });
        }
        i = i + 1;
    }
    proof {
        assert(contacts@.subrange(0, contacts@.len() as int) == contacts@);
    }
    events
}

} // verus!
