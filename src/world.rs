use vstd::prelude::*;

verus! {

/// An engine entity, held as the bits the engine hands out for it.
#[derive(PartialEq, Eq, Structural, Clone, Copy, Debug, Hash)]
pub struct EntityId(pub u64);

/// Marker for a platform that can be tilted.
#[derive(PartialEq, Eq, Structural, Clone, Copy, Debug, Default)]
pub struct Widget;

/// A detection volume; it names the widget that owns it.
#[derive(PartialEq, Eq, Structural, Clone, Copy, Debug)]
pub struct WidgetSensor(pub EntityId);

/// A request to move the active widget from `old_widget` to `new_widget`.
#[derive(PartialEq, Eq, Structural, Clone, Copy, Debug)]
pub struct NewWidgetEvent {
    pub old_widget: EntityId,
    pub new_widget: EntityId,
}

/// The widget under the player's control, once a level has been loaded.
#[derive(PartialEq, Eq, Structural, Clone, Copy, Debug, Default)]
pub struct CurrentWidget(pub Option<EntityId>);

/// What the physics engine reported, this step, for the pair made of the
/// player and one sensor: `Some(true)` when they intersect.
#[derive(PartialEq, Eq, Structural, Clone, Copy, Debug)]
pub struct SensorContact {
    pub sensor: EntityId,
    pub intersection: Option<bool>,
}

/// The logical actions that the gamepad is mapped to.
#[derive(PartialEq, Eq, Structural, Clone, Copy, Debug, Hash, Default)]
pub enum PlayerAction {
    #[default]
    Tilt,
    CameraPan,
    Jump,
    Spin,
}

} // verus!
