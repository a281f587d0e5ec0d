use bevy::app::{
    FixedFirst, FixedLast, FixedMain, FixedPostUpdate, FixedPreUpdate, FixedUpdate, First, Last,
    Main, PostStartup, PostUpdate, PreStartup, PreUpdate, Startup, Update,
};
use bevy_previous::{DefaultSchedule, FixedPreviousPlugin, PreviousPlugin};

#[derive(Clone, Debug, PartialEq)]
struct Health(u32);

#[derive(Clone, Debug, PartialEq)]
struct Custom(u8);

#[test]
fn default_plugin_records_in_last() {
    let by_default: PreviousPlugin<Health> = PreviousPlugin::default();
    let by_new: PreviousPlugin<Health> = PreviousPlugin::new(Last);
    assert_eq!(by_default.schedule(), &Last);
    assert_eq!(by_default.schedule(), by_new.schedule());
}

#[test]
fn fixed_plugin_records_in_fixed_last() {
    let plugin: FixedPreviousPlugin<Health> = FixedPreviousPlugin::default();
    assert_eq!(plugin.into_schedule(), FixedLast);
}

#[test]
fn plugin_keeps_explicit_schedule() {
    let plugin: PreviousPlugin<Health, Custom> = PreviousPlugin::new(Custom(4));
    assert_eq!(plugin.schedule(), &Custom(4));
    assert_eq!(plugin.into_schedule(), Custom(4));
}

#[test]
fn built_in_labels_resolve_to_themselves() {
    assert_eq!(<PreStartup as DefaultSchedule>::default(), PreStartup);
    assert_eq!(<Startup as DefaultSchedule>::default(), Startup);
    assert_eq!(<PostStartup as DefaultSchedule>::default(), PostStartup);
    assert_eq!(<Main as DefaultSchedule>::default(), Main);
    assert_eq!(<First as DefaultSchedule>::default(), First);
    assert_eq!(<PreUpdate as DefaultSchedule>::default(), PreUpdate);
    assert_eq!(<Update as DefaultSchedule>::default(), Update);
    assert_eq!(<PostUpdate as DefaultSchedule>::default(), PostUpdate);
    assert_eq!(<Last as DefaultSchedule>::default(), Last);
    assert_eq!(<FixedMain as DefaultSchedule>::default(), FixedMain);
    assert_eq!(<FixedFirst as DefaultSchedule>::default(), FixedFirst);
    assert_eq!(<FixedPreUpdate as DefaultSchedule>::default(), FixedPreUpdate);
    assert_eq!(<FixedUpdate as DefaultSchedule>::default(), FixedUpdate);
    assert_eq!(<FixedPostUpdate as DefaultSchedule>::default(), FixedPostUpdate);
    assert_eq!(<FixedLast as DefaultSchedule>::default(), FixedLast);
}

#[test]
fn default_plugin_for_each_update_label() {
    let plugin: PreviousPlugin<Health, Update> = PreviousPlugin::default();
    assert_eq!(plugin.schedule(), &Update);
    let plugin: PreviousPlugin<Health, FixedUpdate> = PreviousPlugin::default();
    assert_eq!(plugin.schedule(), &FixedUpdate);
}
