use service_supervisor::error::SupervisorError;
use service_supervisor::launch::Service;
use service_supervisor::slot::{RunningInstance, ServiceSlot, SlotState};

fn running(handle: u32, started_at: u64) -> ServiceSlot<u32> {
    let mut slot = ServiceSlot::new(Service::Backend);
    slot.begin_start().unwrap();
    slot.complete_start(handle, started_at).unwrap();
    slot
}

#[test]
fn new_slot_is_stopped() {
    let slot: ServiceSlot<u32> = ServiceSlot::new(Service::Tunnel);
    assert_eq!(slot.service, Service::Tunnel);
    assert_eq!(slot.state, SlotState::Stopped);
    assert_eq!(slot.next_id, 0);
    assert!(!slot.running());
    assert!(slot.instance().is_none());
}

#[test]
fn start_goes_through_starting_to_running() {
    let mut slot: ServiceSlot<u32> = ServiceSlot::new(Service::Backend);
    assert_eq!(slot.begin_start(), Ok(()));
    assert_eq!(slot.state, SlotState::Starting);
    assert!(!slot.running());
    assert_eq!(slot.complete_start(41, 1000), Ok(0));
    assert_eq!(
        slot.state,
        SlotState::Running(RunningInstance { handle: 41, id: 0, started_at: 1000 })
    );
    assert!(slot.running());
    assert_eq!(slot.next_id, 1);
}

#[test]
fn second_start_while_running_is_refused() {
    let mut slot = running(41, 1000);
    let before = running(41, 1000);
    assert_eq!(slot.begin_start(), Err(SupervisorError::AlreadyRunning(Service::Backend)));
    assert_eq!(slot, before);
}

#[test]
fn second_start_while_starting_is_refused() {
    let mut slot: ServiceSlot<u32> = ServiceSlot::new(Service::Backend);
    slot.begin_start().unwrap();
    assert_eq!(slot.begin_start(), Err(SupervisorError::AlreadyRunning(Service::Backend)));
    assert_eq!(slot.state, SlotState::Starting);
}

#[test]
fn start_while_stopping_is_refused() {
    let mut slot = running(41, 1000);
    slot.begin_stop().unwrap();
    assert_eq!(slot.begin_start(), Err(SupervisorError::AlreadyRunning(Service::Backend)));
    assert_eq!(slot.state, SlotState::Stopping);
}

#[test]
fn repeated_starts_never_take_a_second_instance() {
    let mut slot = running(1, 10);
    for handle in 2..20u32 {
        assert!(slot.begin_start().is_err());
        assert_eq!(slot.complete_start(handle, 0), Err(handle));
        assert_eq!(slot.instance().unwrap().handle, 1);
    }
}

#[test]
fn process_without_an_admitted_start_comes_back() {
    let mut slot: ServiceSlot<u32> = ServiceSlot::new(Service::Backend);
    assert_eq!(slot.complete_start(5, 0), Err(5));
    assert_eq!(slot.state, SlotState::Stopped);
    assert_eq!(slot.next_id, 0);
}

#[test]
fn aborted_start_frees_the_slot() {
    let mut slot: ServiceSlot<u32> = ServiceSlot::new(Service::Backend);
    slot.begin_start().unwrap();
    assert!(slot.abort_start());
    assert_eq!(slot.state, SlotState::Stopped);
    assert_eq!(slot.begin_start(), Ok(()));
}

#[test]
fn abort_without_a_start_changes_nothing() {
    let mut slot = running(41, 1000);
    assert!(!slot.abort_start());
    assert_eq!(slot, running(41, 1000));
    let mut empty: ServiceSlot<u32> = ServiceSlot::new(Service::Backend);
    assert!(!empty.abort_start());
    assert_eq!(empty.state, SlotState::Stopped);
}

#[test]
fn stop_of_an_empty_slot_is_refused() {
    let mut slot: ServiceSlot<u32> = ServiceSlot::new(Service::Tunnel);
    assert_eq!(slot.begin_stop(), Err(SupervisorError::NotRunning(Service::Tunnel)));
    assert_eq!(slot, ServiceSlot::new(Service::Tunnel));
}

#[test]
fn stop_while_starting_is_refused() {
    let mut slot: ServiceSlot<u32> = ServiceSlot::new(Service::Backend);
    slot.begin_start().unwrap();
    assert_eq!(slot.begin_stop(), Err(SupervisorError::NotRunning(Service::Backend)));
    assert_eq!(slot.state, SlotState::Starting);
}

#[test]
fn stop_hands_out_the_instance() {
    let mut slot = running(41, 1000);
    assert_eq!(slot.begin_stop(), Ok(RunningInstance { handle: 41, id: 0, started_at: 1000 }));
    assert_eq!(slot.state, SlotState::Stopping);
    assert!(!slot.running());
    assert!(slot.complete_stop());
    assert_eq!(slot.state, SlotState::Stopped);
}

#[test]
fn second_stop_is_refused() {
    let mut slot = running(41, 1000);
    slot.begin_stop().unwrap();
    assert_eq!(slot.begin_stop(), Err(SupervisorError::NotRunning(Service::Backend)));
    slot.complete_stop();
    assert_eq!(slot.begin_stop(), Err(SupervisorError::NotRunning(Service::Backend)));
}

#[test]
fn complete_stop_without_a_stop_changes_nothing() {
    let mut slot = running(41, 1000);
    assert!(!slot.complete_stop());
    assert_eq!(slot, running(41, 1000));
}

#[test]
fn start_after_stop_gets_the_next_number() {
    let mut slot = running(41, 1000);
    slot.begin_stop().unwrap();
    slot.complete_stop();
    slot.begin_start().unwrap();
    assert_eq!(slot.complete_start(42, 2000), Ok(1));
    assert_eq!(slot.instance(), Some(&RunningInstance { handle: 42, id: 1, started_at: 2000 }));
    assert_eq!(slot.next_id, 2);
}

#[test]
fn exit_of_the_running_instance_frees_the_slot() {
    let mut slot = running(41, 1000);
    assert_eq!(slot.note_exit(0), Some(RunningInstance { handle: 41, id: 0, started_at: 1000 }));
    assert_eq!(slot.state, SlotState::Stopped);
    assert!(!slot.running());
    assert_eq!(slot.begin_start(), Ok(()));
    assert_eq!(slot.complete_start(42, 2000), Ok(1));
}

#[test]
fn exit_of_another_instance_is_ignored() {
    let mut slot = running(41, 1000);
    assert_eq!(slot.note_exit(7), None);
    assert_eq!(slot, running(41, 1000));
}

#[test]
fn exit_reported_twice_is_ignored_the_second_time() {
    let mut slot = running(41, 1000);
    assert!(slot.note_exit(0).is_some());
    assert_eq!(slot.note_exit(0), None);
    assert_eq!(slot.state, SlotState::Stopped);
}

#[test]
fn late_exit_report_does_not_clear_the_successor() {
    let mut slot = running(41, 1000);
    slot.begin_stop().unwrap();
    slot.complete_stop();
    slot.begin_start().unwrap();
    slot.complete_start(42, 2000).unwrap();
    assert_eq!(slot.note_exit(0), None);
    assert!(slot.running());
    assert_eq!(slot.instance().unwrap().handle, 42);
}

#[test]
fn exit_report_while_stopped_or_in_transit_is_ignored() {
    let mut slot: ServiceSlot<u32> = ServiceSlot::new(Service::Backend);
    assert_eq!(slot.note_exit(0), None);
    slot.begin_start().unwrap();
    assert_eq!(slot.note_exit(0), None);
    assert_eq!(slot.state, SlotState::Starting);
    slot.complete_start(1, 0).unwrap();
    slot.begin_stop().unwrap();
    assert_eq!(slot.note_exit(0), None);
    assert_eq!(slot.state, SlotState::Stopping);
}

#[test]
fn instance_numbers_start_over_after_the_largest() {
    let mut slot: ServiceSlot<u32> = ServiceSlot::new(Service::Backend);
    slot.next_id = u64::MAX;
    slot.begin_start().unwrap();
    assert_eq!(slot.complete_start(1, 0), Ok(u64::MAX));
    assert_eq!(slot.next_id, 0);
}
