use widget_tilt::{
    detect_widget_sensors, single_player, tilt_target, update_current_widget, CurrentWidget,
    EntityId, NewWidgetEvent, OutlineChange, Outlines, PlayerAction, SensorContact, WidgetLevel,
    sensor_contacts,
};

const PLAYER: EntityId = EntityId(1);
const W1: EntityId = EntityId(10);
const W2: EntityId = EntityId(20);
const W3: EntityId = EntityId(30);

fn hit(sensor: EntityId) -> SensorContact {
    SensorContact { sensor, intersection: Some(true) }
}

fn miss(sensor: EntityId) -> SensorContact {
    SensorContact { sensor, intersection: Some(false) }
}

fn event(old_widget: EntityId, new_widget: EntityId) -> NewWidgetEvent {
    NewWidgetEvent { old_widget, new_widget }
}

fn outlined(o: &Outlines, e: EntityId) -> bool {
    o.contains(e)
}

#[test]
fn level_hands_off_from_first_widget_to_second() {
    let mut level = WidgetLevel::load(W1);
    assert_eq!(level.current_widget, CurrentWidget(Some(W1)));
    assert!(outlined(&level.outlines, W1));
    assert!(!outlined(&level.outlines, W2));

    let players = vec![PLAYER];
    let settled = level.step(&players, &vec![hit(W1), miss(W2)]);
    assert!(settled.is_empty());
    assert_eq!(level.current_widget, CurrentWidget(Some(W1)));
    assert!(outlined(&level.outlines, W1));

    let moved = level.step(&players, &vec![miss(W1), hit(W2)]);
    assert_eq!(moved, vec![event(W1, W2)]);
    assert_eq!(level.current_widget, CurrentWidget(Some(W2)));
    assert!(!outlined(&level.outlines, W1));
    assert!(outlined(&level.outlines, W2));
    assert_eq!(level.outlines.len(), 1);
}

#[test]
fn chained_events_leave_the_last_widget_active() {
    let mut current = CurrentWidget(Some(W1));
    let changes = update_current_widget(&mut current, &vec![event(W1, W2), event(W2, W3)]);
    assert_eq!(
        changes,
        vec![
            OutlineChange::Remove(W1),
            OutlineChange::Insert(W2),
            OutlineChange::Remove(W2),
            OutlineChange::Insert(W3),
        ]
    );
    assert_eq!(current, CurrentWidget(Some(W3)));
    let mut outlines = Outlines::new();
    outlines.apply(&changes);
    assert!(!outlines.contains(W1));
    assert!(!outlines.contains(W2));
    assert!(outlines.contains(W3));
}

#[test]
fn replaying_a_batch_gives_the_same_outlines() {
    let events = vec![event(W1, W2), event(W2, W3)];
    let mut current = CurrentWidget(Some(W1));
    let changes = update_current_widget(&mut current, &events);
    let mut outlines = Outlines::new();
    outlines.insert(W1);
    outlines.apply(&changes);
    outlines.apply(&changes);
    assert_eq!(outlines.len(), 1);
    assert!(outlines.contains(W3));
    let again = update_current_widget(&mut current, &events);
    assert_eq!(again, changes);
    assert_eq!(current, CurrentWidget(Some(W3)));
}

#[test]
fn stale_old_widget_can_leave_two_outlined() {
    let mut current = CurrentWidget(Some(W1));
    let changes = update_current_widget(&mut current, &vec![event(W1, W2), event(W1, W3)]);
    let mut outlines = Outlines::new();
    outlines.insert(W1);
    outlines.apply(&changes);
    assert!(outlines.contains(W2));
    assert!(outlines.contains(W3));
    assert_eq!(outlines.len(), 2);
    assert_eq!(current, CurrentWidget(Some(W3)));
}

#[test]
fn empty_batch_changes_nothing() {
    let mut current = CurrentWidget(Some(W2));
    let changes = update_current_widget(&mut current, &vec![]);
    assert!(changes.is_empty());
    assert_eq!(current, CurrentWidget(Some(W2)));
}

#[test]
fn no_event_when_only_the_current_widget_intersects() {
    let events = detect_widget_sensors(
        &CurrentWidget(Some(W1)),
        &vec![PLAYER],
        &vec![hit(W1), miss(W2), miss(W3)],
    );
    assert!(events.is_empty());
}

#[test]
fn no_player_means_no_events() {
    let current = CurrentWidget(Some(W1));
    assert!(detect_widget_sensors(&current, &vec![], &vec![hit(W2)]).is_empty());
    let mut level = WidgetLevel::load(W1);
    assert!(level.step(&vec![], &vec![hit(W2)]).is_empty());
    assert_eq!(level.current_widget, CurrentWidget(Some(W1)));
    assert!(level.outlines.contains(W1));
    assert_eq!(level.outlines.len(), 1);
}

#[test]
fn two_players_mean_no_events() {
    let events = detect_widget_sensors(
        &CurrentWidget(Some(W1)),
        &vec![PLAYER, EntityId(2)],
        &vec![hit(W2)],
    );
    assert!(events.is_empty());
}

#[test]
fn no_active_widget_means_no_events() {
    let events = detect_widget_sensors(&CurrentWidget(None), &vec![PLAYER], &vec![hit(W2)]);
    assert!(events.is_empty());
}

#[test]
fn every_other_intersecting_sensor_gives_an_event_in_order() {
    let events = detect_widget_sensors(
        &CurrentWidget(Some(W1)),
        &vec![PLAYER],
        &vec![hit(W3), hit(W1), miss(EntityId(40)), hit(W2)],
    );
    assert_eq!(events, vec![event(W1, W3), event(W1, W2)]);
}

#[test]
fn unknown_intersection_is_no_contact() {
    let events = detect_widget_sensors(
        &CurrentWidget(Some(W1)),
        &vec![PLAYER],
        &vec![SensorContact { sensor: W2, intersection: None }],
    );
    assert!(events.is_empty());
}

#[test]
fn sensor_of_the_active_widget_is_compared_by_its_own_identifier() {
    let sensor_of_w1 = EntityId(11);
    let events = detect_widget_sensors(&CurrentWidget(Some(W1)), &vec![PLAYER], &vec![hit(sensor_of_w1)]);
    assert_eq!(events, vec![event(W1, sensor_of_w1)]);
}

#[test]
fn outlines_insert_and_remove() {
    let mut o = Outlines::new();
    assert_eq!(o.len(), 0);
    o.insert(W1);
    o.insert(W1);
    o.insert(W2);
    assert_eq!(o.len(), 2);
    o.remove(W1);
    assert!(!o.contains(W1));
    assert!(o.contains(W2));
    o.remove(W3);
    assert_eq!(o.len(), 1);
}

#[test]
fn tilt_turns_only_the_active_widget_while_held() {
    let current = CurrentWidget(Some(W2));
    assert_eq!(tilt_target(&current, &vec![PLAYER], true), Some(W2));
    assert_eq!(tilt_target(&current, &vec![PLAYER], false), None);
    assert_eq!(tilt_target(&current, &vec![], true), None);
    assert_eq!(tilt_target(&current, &vec![PLAYER, EntityId(2)], true), None);
    assert_eq!(tilt_target(&CurrentWidget(None), &vec![PLAYER], true), None);
}

#[test]
fn single_player_needs_exactly_one() {
    assert_eq!(single_player(&vec![]), None);
    assert_eq!(single_player(&vec![PLAYER]), Some(PLAYER));
    assert_eq!(single_player(&vec![PLAYER, W1]), None);
}

#[test]
fn tilt_is_the_default_action() {
    assert_eq!(PlayerAction::default(), PlayerAction::Tilt);
    assert_ne!(PlayerAction::Jump, PlayerAction::Spin);
}

#[test]
fn sensor_contacts_follow_the_sensors_for_one_player() {
    let context = bevy_rapier3d::plugin::RapierContext::default();
    let contacts = sensor_contacts(&context, &vec![PLAYER], &vec![W1, W2]);
    assert_eq!(contacts.len(), 2);
    assert_eq!(contacts[0].sensor, W1);
    assert_eq!(contacts[1].sensor, W2);
    assert_eq!(contacts[0].intersection, None);
    assert!(sensor_contacts(&context, &vec![], &vec![W1]).is_empty());
    assert!(sensor_contacts(&context, &vec![PLAYER, EntityId(2)], &vec![W1]).is_empty());
}
