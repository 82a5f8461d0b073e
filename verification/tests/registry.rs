//! Exercises of the object/component registry, driven the way a host
//! application drives it.

use viewport::component::{Component, ComponentStatus, Event, Object};

#[test]
fn components_are_numbered_from_one() {
    let mut obj = Object::default();
    let first = obj.add_component(Component::new("first")).unwrap();
    assert_eq!(first, 1);
    let second = obj.add_component(Component::new("second")).unwrap();
    assert_eq!(second, 2);
    assert_eq!(obj.component_count(), 2);
    assert!(obj.has_component(1));
    assert!(obj.has_component(2));
    assert!(!obj.has_component(3));
    assert_eq!(obj.components.get(&1).unwrap().name, "first");
    assert_eq!(obj.components.get(&2).unwrap().name, "second");
}

#[test]
fn new_components_start_active() {
    let component = Component::new("name");
    assert_eq!(component.status, ComponentStatus::Active);
    assert_eq!(component.name, "name");
    assert!(component.status.is_active());
}

#[test]
fn status_set_returns_but_does_not_store() {
    let mut obj = Object::default();
    let id = obj.add_component(Component::new("name")).unwrap();
    let slot = obj.components.get_mut(&id).unwrap();
    let returned = slot.status.set(ComponentStatus::Disabled);
    assert_eq!(returned, ComponentStatus::Disabled);
    // The stored status is untouched by `set`.
    assert_eq!(slot.status.get(), ComponentStatus::Active);
    assert!(slot.status.is_active());
}

#[test]
fn status_get_copies_each_variant() {
    assert_eq!(ComponentStatus::Active.get(), ComponentStatus::Active);
    assert_eq!(ComponentStatus::Inactive.get(), ComponentStatus::Inactive);
    assert_eq!(ComponentStatus::Disabled.get(), ComponentStatus::Disabled);
    assert!(!ComponentStatus::Inactive.is_active());
    assert!(!ComponentStatus::Disabled.is_active());
}

#[test]
fn process_and_events_leave_components_unchanged() {
    let mut component = Component::new("listener");
    component.process();
    assert_eq!(component.status, ComponentStatus::Active);
    let event = Event { name: String::from("ping"), data: 5u32 };
    component.on_event(&event);
    assert_eq!(component.status, ComponentStatus::Active);
    assert_eq!(component.name, "listener");
    Object::create_component();
}
