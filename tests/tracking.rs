use std::collections::hash_map::DefaultHasher;
use std::hash::{Hash, Hasher};

use bevy::app::{FixedLast, Last, Update};
use bevy_previous::update::{update, EntityView};
use bevy_previous::{refresh, selects, Previous};

#[derive(Clone, Debug, PartialEq)]
struct Health(u32);

fn entity(value: u32, changed: bool, previous: Option<u32>) -> EntityView<Health, Last> {
    EntityView {
        current: Health(value),
        changed,
        previous: previous.map(|p| Previous::new(Health(p))),
    }
}

fn recorded<S>(e: &EntityView<Health, S>) -> Option<u32> {
    e.previous.as_ref().map(|p| p.0 .0)
}

#[test]
fn selection_rule_truth_table() {
    assert!(selects(false, false));
    assert!(selects(false, true));
    assert!(selects(true, true));
    assert!(!selects(true, false));
}

#[test]
fn first_observation_creates_record() {
    let mut entities = vec![entity(100, false, None)];
    update(&mut entities);
    assert_eq!(recorded(&entities[0]), Some(100));
    assert_eq!(entities[0].current, Health(100));
    assert!(!entities[0].changed);
}

#[test]
fn unchanged_entity_keeps_record() {
    let mut entities = vec![entity(80, false, Some(55))];
    update(&mut entities);
    assert_eq!(recorded(&entities[0]), Some(55));
}

#[test]
fn changed_entity_gets_new_value() {
    let mut entities = vec![entity(80, true, Some(100))];
    update(&mut entities);
    assert_eq!(recorded(&entities[0]), Some(80));
    assert!(!entities[0].changed);
}

#[test]
fn update_handles_each_entity_on_its_own() {
    let mut entities = vec![
        entity(1, false, None),
        entity(2, false, Some(20)),
        entity(3, true, Some(30)),
        entity(4, true, None),
    ];
    update(&mut entities);
    let got: Vec<Option<u32>> = entities.iter().map(recorded).collect();
    assert_eq!(got, vec![Some(1), Some(20), Some(3), Some(4)]);
}

#[test]
fn update_of_no_entities() {
    let mut entities: Vec<EntityView<Health, Last>> = Vec::new();
    update(&mut entities);
    assert!(entities.is_empty());
}

#[test]
fn health_scenario_over_three_cycles() {
    let mut entities = vec![entity(100, true, None)];
    // cycle 1: no record yet
    update(&mut entities);
    assert_eq!(recorded(&entities[0]), Some(100));
    // the caller sets health to 80
    entities[0].current = Health(80);
    entities[0].changed = true;
    let before = recorded(&entities[0]).unwrap();
    assert_eq!(before - entities[0].current.0, 20);
    // cycle 2: the change is recorded
    update(&mut entities);
    assert_eq!(recorded(&entities[0]), Some(80));
    // cycle 3: nothing changed, nothing written
    update(&mut entities);
    assert_eq!(recorded(&entities[0]), Some(80));
}

#[test]
fn refresh_reports_write() {
    let mut previous: Option<Previous<Health, Last>> = None;
    assert!(refresh(&Health(7), false, &mut previous));
    assert_eq!(previous.as_ref().map(|p| p.0 .0), Some(7));
    assert!(!refresh(&Health(9), false, &mut previous));
    assert_eq!(previous.as_ref().map(|p| p.0 .0), Some(7));
    assert!(refresh(&Health(9), true, &mut previous));
    assert_eq!(previous.as_ref().map(|p| p.0 .0), Some(9));
}

#[test]
fn two_schedules_keep_separate_records() {
    let mut last: Vec<EntityView<Health, Last>> = vec![entity(50, true, Some(10))];
    let mut fixed: Vec<EntityView<Health, FixedLast>> = vec![EntityView {
        current: Health(50),
        changed: false,
        previous: Some(Previous::new(Health(10))),
    }];
    update(&mut last);
    assert_eq!(recorded(&last[0]), Some(50));
    assert_eq!(recorded(&fixed[0]), Some(10));
    update(&mut fixed);
    assert_eq!(recorded(&fixed[0]), Some(10));
    assert_eq!(recorded(&last[0]), Some(50));
}

#[test]
fn previous_from_value() {
    let a: Previous<Health, Update> = Previous::new(Health(3));
    let b: Previous<Health, Update> = Previous::from(Health(3));
    assert_eq!(a.0, Health(3));
    assert_eq!(b.0, Health(3));
}

#[test]
fn previous_compares_by_value() {
    let a: Previous<u32, Last> = Previous::new(3);
    let b: Previous<u32, Last> = Previous::from(3);
    let c: Previous<u32, Last> = Previous::new(4);
    assert_eq!(a, b);
    assert_ne!(a, c);
    let mut ha = DefaultHasher::new();
    let mut hb = DefaultHasher::new();
    a.hash(&mut ha);
    b.hash(&mut hb);
    assert_eq!(ha.finish(), hb.finish());
    assert_eq!(a.clone(), a);
}
