use vstd::prelude::*;
use crate::detect::{single_player, sole_player};
use crate::world::{CurrentWidget, EntityId};

verus! {

/// The widget that this step's tilt input turns: the active widget, when
/// exactly one input listener exists and the tilt stick is held. Every other
/// widget keeps its orientation.
pub fn tilt_target(current_widget: &CurrentWidget, listeners: &Vec<EntityId>, tilt_pressed: bool) -> (r:
    Option<EntityId>)
    ensures
        r == (if sole_player(listeners@).is_some() && tilt_pressed {
            current_widget.0
        } else {
            None
        }),
{
    if single_player(listeners).is_some() && tilt_pressed {
        current_widget.0
    } else {
        None
    }
}

} // verus!
