//! Widget tracking for a tilting-platform game: which platform the player
//! stands on, which one is outlined, and the hand-off between them.
//!
//! Engine entities are carried here as plain identifiers. The engine's world,
//! the rendering and all floating-point control math live with the caller;
//! the physics engine is asked about sensor overlaps from here.

mod controls;
mod detect;
mod laws;
mod level;
mod outline;
mod physics;
mod world;

pub use controls::tilt_target;
pub use detect::{
    calls_for_hand_off, detect_widget_sensors, detected_events, hand_offs, single_player,
    sole_player,
};
pub use laws::{
    last_touch, lemma_chained_hand_offs, lemma_no_event_on_current_widget,
    lemma_no_player_no_events, lemma_outlined_by_last_touch, lemma_replay_is_idempotent,
};
pub use level::WidgetLevel;
pub use outline::{
    changes_of, current_after, outlined_after, update_current_widget, OutlineChange, Outlines,
};
pub use physics::sensor_contacts;
pub use world::{
    CurrentWidget, EntityId, NewWidgetEvent, PlayerAction, SensorContact, Widget, WidgetSensor,
};
