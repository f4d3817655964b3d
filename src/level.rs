use vstd::prelude::*;
use crate::detect::{detect_widget_sensors, detected_events};
use crate::outline::{changes_of, current_after, outlined_after, update_current_widget, Outlines};
use crate::world::{CurrentWidget, EntityId, NewWidgetEvent, SensorContact};

verus! {

/// The widget-tracking state of a loaded level: the active widget and the
/// outlined entities.
pub struct WidgetLevel {
    pub current_widget: CurrentWidget,
    pub outlines: Outlines,
}

impl WidgetLevel {
    pub open spec fn wf(&self) -> bool {
        self.outlines.wf()
    }

    /// A level whose first widget `start` is active and outlined.
    pub fn load(start: EntityId) -> (r: WidgetLevel)
        ensures
            r.wf(),
            r.current_widget.0 == Some(start),
            r.outlines@ == Set::<EntityId>::empty().insert(start),
    {
        let mut outlines = Outlines::new();
        outlines.insert(start);
        WidgetLevel { current_widget: CurrentWidget(Some(start)), outlines }
    }

    /// One step: detection runs to completion, then its events are consumed
    /// in order. Returns the events of the step.
    pub fn step(&mut self, players: &Vec<EntityId>, contacts: &Vec<SensorContact>) -> (events: Vec<
        NewWidgetEvent,
    >)
        requires
            old(self).wf(),
        ensures
            final(self).wf(),
            events@ == detected_events(old(self).current_widget.0, players@, contacts@),
            final(self).current_widget.0 == current_after(old(self).current_widget.0, events@),
            final(self).outlines@ == outlined_after(old(self).outlines@, changes_of(events@)),
    {
        let events = detect_widget_sensors(&self.current_widget, players, contacts);
        let changes = update_current_widget(&mut self.current_widget, &events);
        self.outlines.apply(&changes);
        events
    }
}

} // verus!
