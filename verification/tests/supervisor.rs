use backend_supervisor::error::ShellError;
use backend_supervisor::supervisor::{LaunchOutcome, ProcessSlot, WindowEvent};

#[test]
fn new_slot_is_vacant() {
    let slot: ProcessSlot<u32> = ProcessSlot::new();
    assert!(!slot.is_occupied());
    assert!(!slot.is_retired());
}

#[test]
fn successful_launch_fills_the_slot() {
    let mut slot: ProcessSlot<u32> = ProcessSlot::new();
    assert_eq!(slot.record_launch(Ok(41)), LaunchOutcome::Started);
    assert!(slot.is_occupied());
    assert_eq!(slot.terminate(), Some(41));
}

#[test]
fn failed_launch_leaves_the_slot_vacant() {
    let mut slot: ProcessSlot<u32> = ProcessSlot::new();
    let failure = ShellError::Spawn("No such file or directory (os error 2)".to_string());
    assert_eq!(slot.record_launch(Err(failure.clone())), LaunchOutcome::Degraded(failure));
    assert!(!slot.is_occupied());
    assert!(!slot.is_retired());
    assert_eq!(slot.terminate(), None);
}

#[test]
fn occupied_slot_is_never_overwritten() {
    let mut slot: ProcessSlot<u32> = ProcessSlot::new();
    assert_eq!(slot.record_launch(Ok(1)), LaunchOutcome::Started);
    assert_eq!(slot.record_launch(Ok(2)), LaunchOutcome::Refused(2));
    assert!(slot.is_occupied());
    assert_eq!(slot.terminate(), Some(1));
}

#[test]
fn failed_launch_leaves_an_occupied_slot_alone() {
    let mut slot: ProcessSlot<u32> = ProcessSlot::new();
    assert_eq!(slot.record_launch(Ok(5)), LaunchOutcome::Started);
    let failure = ShellError::PathResolution("no resource directory".to_string());
    assert_eq!(slot.record_launch(Err(failure.clone())), LaunchOutcome::Degraded(failure));
    assert_eq!(slot.terminate(), Some(5));
}

#[test]
fn terminate_twice_is_quiet_the_second_time() {
    let mut slot: ProcessSlot<u32> = ProcessSlot::new();
    assert_eq!(slot.record_launch(Ok(9)), LaunchOutcome::Started);
    assert_eq!(slot.terminate(), Some(9));
    assert!(slot.is_retired());
    assert_eq!(slot.terminate(), None);
    assert!(slot.is_retired());
    assert!(!slot.is_occupied());
}

#[test]
fn terminate_on_a_vacant_slot_is_no_failure() {
    let mut slot: ProcessSlot<u32> = ProcessSlot::new();
    assert_eq!(slot.terminate(), None);
    assert!(slot.is_retired());
}

#[test]
fn retired_slot_is_not_filled_again() {
    let mut slot: ProcessSlot<u32> = ProcessSlot::new();
    assert_eq!(slot.record_launch(Ok(3)), LaunchOutcome::Started);
    assert_eq!(slot.terminate(), Some(3));
    assert_eq!(slot.record_launch(Ok(4)), LaunchOutcome::Refused(4));
    assert!(slot.is_retired());
    assert!(!slot.is_occupied());
    assert_eq!(slot.terminate(), None);
}

#[test]
fn main_window_destroyed_ends_the_backend() {
    let mut slot: ProcessSlot<u32> = ProcessSlot::new();
    assert_eq!(slot.record_launch(Ok(77)), LaunchOutcome::Started);
    assert_eq!(slot.on_window_event(WindowEvent::Destroyed { primary: true }), Some(77));
    assert!(slot.is_retired());
}

#[test]
fn second_destroy_event_does_nothing() {
    let mut slot: ProcessSlot<u32> = ProcessSlot::new();
    assert_eq!(slot.record_launch(Ok(77)), LaunchOutcome::Started);
    assert_eq!(slot.on_window_event(WindowEvent::Destroyed { primary: true }), Some(77));
    assert_eq!(slot.on_window_event(WindowEvent::Destroyed { primary: true }), None);
    assert!(slot.is_retired());
}

#[test]
fn other_window_destroyed_keeps_the_backend() {
    let mut slot: ProcessSlot<u32> = ProcessSlot::new();
    assert_eq!(slot.record_launch(Ok(77)), LaunchOutcome::Started);
    assert_eq!(slot.on_window_event(WindowEvent::Destroyed { primary: false }), None);
    assert!(slot.is_occupied());
    assert_eq!(slot.on_window_event(WindowEvent::Other), None);
    assert!(slot.is_occupied());
    assert_eq!(slot.terminate(), Some(77));
}

#[test]
fn main_window_destroyed_without_a_backend_is_no_failure() {
    let mut slot: ProcessSlot<u32> = ProcessSlot::new();
    let failure = ShellError::Spawn("permission denied".to_string());
    assert_eq!(slot.record_launch(Err(failure.clone())), LaunchOutcome::Degraded(failure));
    assert_eq!(slot.on_window_event(WindowEvent::Destroyed { primary: true }), None);
    assert!(slot.is_retired());
}

#[test]
fn slot_holds_handles_that_are_not_numbers() {
    let mut slot: ProcessSlot<String> = ProcessSlot::new();
    assert_eq!(slot.record_launch(Ok("backend".to_string())), LaunchOutcome::Started);
    assert_eq!(
        slot.record_launch(Ok("second".to_string())),
        LaunchOutcome::Refused("second".to_string())
    );
    assert_eq!(slot.terminate(), Some("backend".to_string()));
}
