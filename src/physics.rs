use vstd::prelude::*;
use bevy_rapier3d::plugin::RapierContext;
use crate::detect::{single_player, sole_player};
use crate::world::{EntityId, SensorContact};

verus! {

#[verifier::external_type_specification]
#[verifier::external_body]
pub struct ExRapierContext(RapierContext);

/// Relies on bevy_rapier3d's `RapierContext::intersection_pair`, which reports
/// whether the colliders of two entities intersect in the physics state at
/// hand. Nothing is stated of the answer: it depends on that state.
#[verifier::external_body]
fn intersection_pair(context: &RapierContext, a: EntityId, b: EntityId) -> (r: Option<bool>) {
    context.intersection_pair(bevy::ecs::entity::Entity::from_bits(a.0), bevy::ecs::entity::Entity::from_bits(b.0))
}

/// Asks the physics engine, for each sensor in order, whether it intersects
/// the player. Without exactly one player nothing is asked and no contact is
/// returned.
pub fn sensor_contacts(context: &RapierContext, players: &Vec<EntityId>, sensors: &Vec<EntityId>) -> (r:
    Vec<SensorContact>)
    ensures
        sole_player(players@).is_none() ==> r@.len() == 0,
        sole_player(players@).is_some() ==> {
            &&& r@.len() == sensors@.len()
            &&& forall|i: int| 0 <= i < r@.len() ==> #[trigger] r@[i].sensor == sensors@[i]
        },
{
    let mut contacts: Vec<SensorContact> = Vec::new();
    let player = match single_player(players) {
        Some(p) => p,
        None => {
            return contacts;
        },
    };
    let mut i: usize = 0;
    while i < sensors.len()
        invariant
            i <= sensors@.len(),
            contacts@.len() == i,
            forall|j: int| 0 <= j < i ==> #[trigger] contacts@[j].sensor == sensors@[j],
        decreases sensors.len() - i,
    {
        let sensor = sensors[i];
        let intersection = intersection_pair(context, player, sensor);
        contacts.push(SensorContact { sensor, intersection });
        i = i + 1;
    }
    contacts
}

} // verus!
