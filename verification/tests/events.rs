use trunk::bus::EventBus;
use trunk::events::{event_json, BuildEvent};
use trunk::orchestrator::BuildSystem;

#[test]
fn building_event_serializes_exactly() {
    let json = event_json(&BuildEvent::Building);
    assert_eq!(json, "{\"type\":\"building\"}");
}

#[test]
fn success_event_serializes_exactly() {
    let json = event_json(&BuildEvent::Success);
    assert_eq!(json, "{\"type\":\"success\"}");
}

#[test]
fn error_event_serializes_exactly() {
    let json = event_json(&BuildEvent::Error(String::from("boom")));
    assert_eq!(json, "{\"type\":\"error\",\"error\":\"boom\"}");
}

#[test]
fn error_event_escapes_message() {
    let json = event_json(&BuildEvent::Error(String::from("a\"b\\c\nd")));
    assert_eq!(json, "{\"type\":\"error\",\"error\":\"a\\\"b\\\\c\\u000ad\"}");
}

#[test]
fn error_event_escapes_control_characters() {
    let json = event_json(&BuildEvent::Error(String::from("\u{1}\u{1f}")));
    assert_eq!(json, "{\"type\":\"error\",\"error\":\"\\u0001\\u001f\"}");
}

#[test]
fn build_records_building_then_success() {
    let bus = EventBus::new();
    let mut system = BuildSystem::new(bus);
    let mut sub = system.bus.subscribe();
    let outcome = system.build(Ok(()));
    assert!(outcome.is_ok());
    assert_eq!(sub.poll(&system.bus), Some(BuildEvent::Building));
    assert_eq!(sub.poll(&system.bus), Some(BuildEvent::Success));
    assert_eq!(sub.poll(&system.bus), None);
}

#[test]
fn build_records_building_then_error() {
    let bus = EventBus::new();
    let mut system = BuildSystem::new(bus);
    let mut sub = system.bus.subscribe();
    let outcome = system.build(Err(String::from("missing asset")));
    assert_eq!(outcome, Err(String::from("missing asset")));
    assert_eq!(sub.poll(&system.bus), Some(BuildEvent::Building));
    assert_eq!(
        sub.poll(&system.bus),
        Some(BuildEvent::Error(String::from("missing asset")))
    );
    assert_eq!(sub.poll(&system.bus), None);
}

#[test]
fn empty_failure_message_becomes_nonempty_cause() {
    let bus = EventBus::new();
    let mut system = BuildSystem::new(bus);
    let mut sub = system.bus.subscribe();
    let outcome = system.build(Err(String::new()));
    assert_eq!(outcome, Err(String::from("build failed")));
    assert_eq!(sub.poll(&system.bus), Some(BuildEvent::Building));
    assert_eq!(
        sub.poll(&system.bus),
        Some(BuildEvent::Error(String::from("build failed")))
    );
}

#[test]
fn exactly_one_terminal_event_per_build() {
    let bus = EventBus::new();
    let mut system = BuildSystem::new(bus);
    let mut sub = system.bus.subscribe();
    let _ = system.build(Ok(()));
    let _ = system.build(Err(String::from("late failure")));
    let mut terminals = 0;
    let mut first_terminal_after_building = true;
    let mut saw_building = false;
    while let Some(e) = sub.poll(&system.bus) {
        match e {
            BuildEvent::Building => {
                saw_building = true;
                terminals = 0;
            }
            BuildEvent::Success | BuildEvent::Error(_) => {
                terminals += 1;
                if !saw_building || terminals != 1 {
                    first_terminal_after_building = false;
                }
            }
        }
    }
    assert!(first_terminal_after_building);
}

#[test]
fn late_subscriber_misses_earlier_build() {
    let bus = EventBus::new();
    let mut system = BuildSystem::new(bus);
    let mut early = system.bus.subscribe();
    let _ = system.build(Ok(()));
    let mut late = system.bus.subscribe();
    assert_eq!(late.poll(&system.bus), None);
    assert_eq!(early.poll(&system.bus), Some(BuildEvent::Building));
    assert_eq!(early.poll(&system.bus), Some(BuildEvent::Success));
}

#[test]
fn sequential_builds_do_not_interleave() {
    let bus = EventBus::new();
    let mut system = BuildSystem::new(bus);
    let mut sub = system.bus.subscribe();
    let _ = system.build(Ok(()));
    let _ = system.build(Err(String::from("second")));
    assert_eq!(sub.poll(&system.bus), Some(BuildEvent::Building));
    assert_eq!(sub.poll(&system.bus), Some(BuildEvent::Success));
    assert_eq!(sub.poll(&system.bus), Some(BuildEvent::Building));
    assert_eq!(
        sub.poll(&system.bus),
        Some(BuildEvent::Error(String::from("second")))
    );
    assert_eq!(sub.poll(&system.bus), None);
}
