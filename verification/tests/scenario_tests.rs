//! End-to-end scenarios over the state container, the worker state
//! machine, the sync round and the controller registry.

use pokeys_thread::logging::level_passes;
use pokeys_thread::worker::complete_request;
use pokeys_thread::{
    CommandPlan, DeviceCommand, DeviceModel, DeviceData, DeviceInfo, DeviceSnapshot, DeviceState, DeviceSync,
    EncoderData, HwRequest, LevelFilter, LogLevel, PinData, PwmData, SharedDeviceState,
    StateChangeType, StateObserver, SyncReads, ThreadControllerBuilder, ThreadControllerImpl,
    ThreadError, ThreadStatus, ThreadWorkerBuilder, DeviceWorkerImpl,
};

fn make_snapshot(pin_count: usize, encoder_count: usize) -> DeviceSnapshot {
    DeviceSnapshot {
        device_info: DeviceInfo::default(),
        device_data: DeviceData::default(),
        model: None,
        pins: vec![PinData::new(); pin_count],
        encoders: vec![EncoderData::new(); encoder_count],
        pwm: PwmData::new(),
    }
}

fn four_pin_state() -> SharedDeviceState {
    let mut shared = SharedDeviceState::new(DeviceInfo::default(), DeviceData::default());
    shared.update(|s: &DeviceState| {
        let mut t = s.clone();
        t.pins = vec![PinData::new(); 4];
        t
    });
    shared
}

#[test]
fn test_scenario_digital_output_echo() {
    // Scenario A: on a 4-pin state, a digital output write is echoed
    // into the input mirror; an out-of-range pin stays absent.
    let mut shared = four_pin_state();
    shared.set_digital_output(2, true);
    assert_eq!(shared.get_digital_input(2), Some(true));
    assert_eq!(shared.get_digital_input(5), None);
}

#[test]
fn test_digital_output_echo_all_pins() {
    // Every valid pin reflects the written value, high and low.
    let mut shared = four_pin_state();
    for pin in 1..=4u32 {
        shared.set_digital_output(pin, true);
        assert_eq!(shared.get_digital_input(pin), Some(true));
        shared.set_digital_output(pin, false);
        assert_eq!(shared.get_digital_input(pin), Some(false));
    }
    // Pin numbers are 1-based: pin 0 is invalid.
    assert_eq!(shared.get_digital_input(0), None);
}

#[test]
fn test_scenario_status_sequence() {
    // Scenario B: the status walks Stopped -> Running -> Paused ->
    // Running, and an observer created before the sequence sees the
    // three status notifications in that order.
    let mut shared = SharedDeviceState::new(DeviceInfo::default(), DeviceData::default());
    let observer = StateObserver::new(1, &mut shared);

    assert_eq!(shared.status(), ThreadStatus::Stopped);
    shared.set_running(true);
    assert_eq!(shared.status(), ThreadStatus::Running);
    shared.set_paused(true);
    assert_eq!(shared.status(), ThreadStatus::Paused);
    shared.set_paused(false);
    assert_eq!(shared.status(), ThreadStatus::Running);

    let changes = observer.process_all_changes(&mut shared);
    assert_eq!(changes.len(), 3);
    assert!(matches!(
        changes[0],
        StateChangeType::ThreadStatus {
            status: ThreadStatus::Running
        }
    ));
    assert!(matches!(
        changes[1],
        StateChangeType::ThreadStatus {
            status: ThreadStatus::Paused
        }
    ));
    assert!(matches!(
        changes[2],
        StateChangeType::ThreadStatus {
            status: ThreadStatus::Running
        }
    ));
}

#[test]
fn test_scenario_pwm_same_value_twice() {
    // Scenario C: the setter does not compare against the previous
    // value, so writing the same duty twice fires two PwmDutyCycle
    // notifications (each followed by its FullUpdate).
    let mut shared = SharedDeviceState::new(DeviceInfo::default(), DeviceData::default());
    let observer = StateObserver::new(1, &mut shared);

    shared.set_pwm_duty_cycle(0, 1000);
    shared.set_pwm_duty_cycle(0, 1000);

    let changes = observer.process_all_changes(&mut shared);
    let pwm_changes: Vec<_> = changes
        .iter()
        .filter(|c| matches!(c, StateChangeType::PwmDutyCycle { .. }))
        .collect();
    assert_eq!(pwm_changes.len(), 2);
    for c in pwm_changes {
        assert!(matches!(
            c,
            StateChangeType::PwmDutyCycle {
                channel: 0,
                duty: 1000
            }
        ));
    }
    assert_eq!(changes.len(), 4);
    assert!(matches!(changes[1], StateChangeType::FullUpdate));
    assert!(matches!(changes[3], StateChangeType::FullUpdate));
}

#[test]
fn test_scenario_two_observers() {
    // Scenario D: two observers created one after the other on the same
    // state both receive subsequent notifications.
    let mut shared = SharedDeviceState::new(DeviceInfo::default(), DeviceData::default());
    let first = StateObserver::new(1, &mut shared);
    let second = StateObserver::new(1, &mut shared);

    shared.set_running(true);

    let first_changes = first.process_all_changes(&mut shared);
    let second_changes = second.process_all_changes(&mut shared);
    assert_eq!(first_changes.len(), 1);
    assert_eq!(second_changes.len(), 1);
    assert!(matches!(
        first_changes[0],
        StateChangeType::ThreadStatus {
            status: ThreadStatus::Running
        }
    ));
    assert!(matches!(
        second_changes[0],
        StateChangeType::ThreadStatus {
            status: ThreadStatus::Running
        }
    ));
}

#[test]
fn test_scenario_terminate_stops_worker() {
    // Scenario E: a Terminate command drives the status to Stopped
    // within one tick, and the worker can be stopped (joined) cleanly.
    let snapshot = make_snapshot(4, 2);
    let mut worker = DeviceWorkerImpl::new_usb(1, &snapshot, 0, 100);
    worker.send_command(DeviceCommand::Start).unwrap();
    let _ = worker.tick();
    assert_eq!(worker.status(), ThreadStatus::Running);

    worker.send_command(DeviceCommand::Terminate).unwrap();
    let plan = worker.tick();
    assert!(plan.exit);
    assert_eq!(worker.status(), ThreadStatus::Stopped);

    // After the loop exits the channel is gone: sends fail, as they do
    // against a worker whose thread has terminated.
    assert!(matches!(
        worker.send_command(DeviceCommand::Start),
        Err(ThreadError::CommandSendFailed(_))
    ));

    // A fresh worker is joinable through stop().
    let snapshot = make_snapshot(4, 2);
    let mut other = DeviceWorkerImpl::new_usb(2, &snapshot, 0, 100);
    assert!(other.stop().is_ok());
    assert_eq!(other.status(), ThreadStatus::Stopped);
}

#[test]
fn test_update_emits_exactly_one_full_update() {
    // Every update() call emits exactly one FullUpdate, whatever the
    // update function does to the state.
    let mut shared = SharedDeviceState::new(DeviceInfo::default(), DeviceData::default());
    let observer = StateObserver::new(1, &mut shared);

    shared.update(|s: &DeviceState| s.clone());
    let changes = observer.process_all_changes(&mut shared);
    assert_eq!(changes.len(), 1);
    assert!(matches!(changes[0], StateChangeType::FullUpdate));

    let before = shared.last_update();
    shared.update(|s: &DeviceState| {
        let mut t = s.clone();
        t.error_message = Some("annotated".to_string());
        t
    });
    assert!(shared.last_update() > before);
    let changes = observer.process_all_changes(&mut shared);
    assert_eq!(changes.len(), 1);
    assert!(matches!(changes[0], StateChangeType::FullUpdate));
}

#[test]
fn test_set_error_notification() {
    // set_error emits an Error notification carrying the message, then
    // the FullUpdate of the update that carried it.
    let mut shared = SharedDeviceState::new(DeviceInfo::default(), DeviceData::default());
    let observer = StateObserver::new(1, &mut shared);

    shared.set_error(Some("boom".to_string()));
    let changes = observer.process_all_changes(&mut shared);
    assert_eq!(changes.len(), 2);
    match &changes[0] {
        StateChangeType::Error { message } => {
            assert_eq!(message.as_deref(), Some("boom"));
        }
        _ => panic!("Expected Error notification"),
    }
    assert!(matches!(changes[1], StateChangeType::FullUpdate));
}

#[test]
fn test_custom_value_replacement() {
    // A second binding for the same key replaces the first and leaves
    // other keys alone.
    let mut shared = SharedDeviceState::new(DeviceInfo::default(), DeviceData::default());
    shared.set_custom_value("mode", "fast");
    shared.set_custom_value("label", "lathe");
    shared.set_custom_value("mode", "slow");
    assert_eq!(shared.get_custom_value("mode").unwrap(), "slow");
    assert_eq!(shared.get_custom_value("label").unwrap(), "lathe");
    assert!(shared.get_custom_value("speed").is_none());
}

#[test]
fn test_worker_pwm_channel_mapping() {
    // The worker maps PWM channel c to pin 22 - c; an invalid channel
    // produces no hardware request.
    let snapshot = make_snapshot(0, 0);
    let mut worker = DeviceWorkerImpl::new_usb(1, &snapshot, 0, 100);
    for (channel, pin) in [(0usize, 22u8), (1, 21), (2, 20), (3, 19), (4, 18), (5, 17)] {
        worker
            .send_command(DeviceCommand::SetPwmDuty {
                channel,
                duty: 1234,
            })
            .unwrap();
        let plan: CommandPlan = worker.tick();
        assert_eq!(plan.requests.len(), 1);
        assert_eq!(
            plan.requests[0],
            HwRequest::SetPwmPin {
                pin,
                duty: 1234,
                channel: Some(channel)
            }
        );
    }
    worker
        .send_command(DeviceCommand::SetPwmDuty {
            channel: 6,
            duty: 1,
        })
        .unwrap();
    let plan = worker.tick();
    assert!(plan.requests.is_empty());
}

#[test]
fn test_worker_servo_duty_formulas() {
    // Servo angles and speeds are mapped onto the 12-bit duty scale.
    let snapshot = make_snapshot(0, 0);
    let mut worker = DeviceWorkerImpl::new_usb(1, &snapshot, 0, 100);

    worker
        .send_command(DeviceCommand::SetServoAngle { pin: 17, angle: 90 })
        .unwrap();
    let plan = worker.tick();
    // 90 * 4095 / 180 == 2047
    assert_eq!(
        plan.requests[0],
        HwRequest::SetPwmPin {
            pin: 17,
            duty: 2047,
            channel: None
        }
    );

    worker
        .send_command(DeviceCommand::SetServoSpeed { pin: 18, speed: 50 })
        .unwrap();
    let plan = worker.tick();
    // (50 + 100) * 4095 / 200 == 3071
    assert_eq!(
        plan.requests[0],
        HwRequest::SetPwmPin {
            pin: 18,
            duty: 3071,
            channel: None
        }
    );

    worker
        .send_command(DeviceCommand::StopServo { pin: 19 })
        .unwrap();
    let plan = worker.tick();
    assert_eq!(
        plan.requests[0],
        HwRequest::SetPwmPin {
            pin: 19,
            duty: 1500,
            channel: None
        }
    );
}

#[test]
fn test_worker_i2c_scan_requests() {
    // An I2C scan probes each address from 0x08 through 0x77 with a
    // single-byte read.
    let snapshot = make_snapshot(0, 0);
    let mut worker = DeviceWorkerImpl::new_usb(1, &snapshot, 0, 100);
    worker.send_command(DeviceCommand::I2cScan).unwrap();
    let plan = worker.tick();
    assert_eq!(plan.requests.len(), 112);
    assert_eq!(
        plan.requests[0],
        HwRequest::I2cRead {
            address: 0x08,
            length: 1
        }
    );
    assert_eq!(
        plan.requests[111],
        HwRequest::I2cRead {
            address: 0x77,
            length: 1
        }
    );
}

#[test]
fn test_sync_cadence() {
    // should_sync compares elapsed time against the interval.
    let sync = DeviceSync::new(1, 100, 1000);
    assert!(!sync.should_sync(1050));
    assert!(sync.should_sync(1100));
    assert!(sync.should_sync(2000));
    assert!(!sync.should_sync(500));
    assert_eq!(sync.sync_interval(), 100);
    assert_eq!(sync.thread_id(), 1);
}

#[test]
fn test_sync_digital_failure_is_best_effort() {
    // A failed digital read is recorded and reported as a transport
    // error, but the round still refreshes what the remaining reads
    // delivered and completes the cadence.
    let mut shared = SharedDeviceState::new(DeviceInfo::default(), DeviceData::default());
    let observer = StateObserver::new(1, &mut shared);
    let mut sync = DeviceSync::new(1, 100, 0);

    let mut snapshot = make_snapshot(2, 0);
    snapshot.pins[1].analog_value = 321; // the analog read still delivered
    let reads = SyncReads {
        digital_error: Some("bus stalled".to_string()),
        analog_error: None,
        encoder_errors: Vec::new(),
        snapshot,
    };
    let result = sync.sync(&mut shared, reads, 100);
    match result {
        Err(ThreadError::DeviceError(m)) => assert_eq!(m, "bus stalled"),
        _ => panic!("Expected a transport error"),
    }
    assert_eq!(
        shared.get_error().unwrap(),
        "Failed to refresh digital inputs: bus stalled"
    );
    // The remaining channels were refreshed and the cadence completed.
    assert_eq!(shared.get_analog_input(2), Some(321));
    assert!(!sync.should_sync(150));
    let changes = observer.process_all_changes(&mut shared);
    assert_eq!(changes.len(), 3);
    assert!(matches!(changes[0], StateChangeType::Error { .. }));
    assert!(matches!(changes[1], StateChangeType::FullUpdate));
    assert!(matches!(changes[2], StateChangeType::FullUpdate));
}

#[test]
fn test_sync_success_diffs() {
    // A successful round takes the snapshot over and emits a FullUpdate
    // followed by one notification per changed field.
    let mut shared = SharedDeviceState::new(DeviceInfo::default(), DeviceData::default());
    shared.update(|s: &DeviceState| {
        let mut t = s.clone();
        t.pins = vec![PinData::new(); 2];
        t.encoders = vec![EncoderData::new(); 1];
        t
    });
    let observer = StateObserver::new(1, &mut shared);
    let mut sync = DeviceSync::new(1, 100, 0);

    let mut snapshot = make_snapshot(2, 1);
    snapshot.pins[0].digital_value_get = 1; // digital input change on pin 1
    snapshot.pins[1].analog_value = 777; // analog input change on pin 2
    snapshot.encoders[0].encoder_value = -5; // encoder change
    snapshot.pwm.pwm_values[3] = 42; // PWM change on channel 3

    let result = sync.sync(&mut shared, snapshot_reads(snapshot), 120);
    assert!(result.is_ok());

    let changes = observer.process_all_changes(&mut shared);
    assert_eq!(changes.len(), 5);
    assert!(matches!(changes[0], StateChangeType::FullUpdate));
    assert!(matches!(
        changes[1],
        StateChangeType::DigitalInput {
            pin: 1,
            value: true
        }
    ));
    assert!(matches!(
        changes[2],
        StateChangeType::AnalogInput {
            pin: 2,
            value: 777
        }
    ));
    assert!(matches!(
        changes[3],
        StateChangeType::EncoderValue {
            index: 0,
            value: -5
        }
    ));
    assert!(matches!(
        changes[4],
        StateChangeType::PwmDutyCycle {
            channel: 3,
            duty: 42
        }
    ));

    assert_eq!(shared.get_digital_input(1), Some(true));
    assert_eq!(shared.get_analog_input(2), Some(777));
    assert_eq!(shared.get_encoder_value(0), Some(-5));
    assert_eq!(shared.get_pwm_duty_cycle(3), Some(42));
}

fn snapshot_reads(snapshot: DeviceSnapshot) -> SyncReads {
    SyncReads {
        digital_error: None,
        analog_error: None,
        encoder_errors: Vec::new(),
        snapshot,
    }
}

#[test]
fn test_sync_partial_encoder_failure() {
    // A failed encoder read is recorded but the round still completes.
    let mut shared = SharedDeviceState::new(DeviceInfo::default(), DeviceData::default());
    let mut sync = DeviceSync::new(1, 100, 0);

    let reads = SyncReads {
        digital_error: None,
        analog_error: None,
        encoder_errors: vec![(3, "no response".to_string())],
        snapshot: make_snapshot(1, 4),
    };
    let result = sync.sync(&mut shared, reads, 150);
    assert!(result.is_ok());
    let recorded = shared.get_error().unwrap();
    assert!(recorded.contains("Failed to refresh encoder 3"));
    assert!(recorded.contains("no response"));
}

#[test]
fn test_controller_lifecycle() {
    // Identifiers are assigned monotonically from 1; lookups by unknown
    // identifier are refused with ThreadNotFound; stopping removes the
    // registry entry.
    let mut controller = ThreadControllerImpl::new();
    let snapshot = make_snapshot(4, 0);
    let first = controller.start_usb_device_thread(0, &snapshot).unwrap();
    let second = controller.start_usb_device_thread(1, &snapshot).unwrap();
    assert_eq!(first, 1);
    assert_eq!(second, 2);
    assert_eq!(controller.list_active_threads().unwrap(), vec![1, 2]);

    assert_eq!(controller.get_status(first).unwrap(), ThreadStatus::Stopped);
    assert!(matches!(
        controller.get_status(99),
        Err(ThreadError::ThreadNotFound(99))
    ));

    let state = controller.get_state(first).unwrap();
    assert_eq!(state.pins.len(), 4);

    controller
        .send_command(first, DeviceCommand::Start)
        .unwrap();
    controller.set_digital_output(first, 2, true).unwrap();

    controller.stop_thread(first).unwrap();
    assert_eq!(controller.list_active_threads().unwrap(), vec![2]);
    assert!(matches!(
        controller.stop_thread(first),
        Err(ThreadError::ThreadNotFound(1))
    ));

    controller.stop_all().unwrap();
    assert!(controller.list_active_threads().unwrap().is_empty());
}

#[test]
fn test_controller_reads_and_errors() {
    // Bounds-checked controller reads surface InvalidParameter for bad
    // indices, never a panic.
    let mut controller = ThreadControllerImpl::new();
    let snapshot = make_snapshot(2, 1);
    let id = controller.start_usb_device_thread(0, &snapshot).unwrap();

    assert!(matches!(
        controller.get_digital_input(id, 0),
        Err(ThreadError::InvalidParameter(_))
    ));
    assert!(matches!(
        controller.get_digital_input(id, 3),
        Err(ThreadError::InvalidParameter(_))
    ));
    assert_eq!(controller.get_digital_input(id, 1).unwrap(), false);
    assert_eq!(controller.get_analog_input(id, 2).unwrap(), 0);
    assert!(matches!(
        controller.get_encoder_value(id, 1),
        Err(ThreadError::InvalidParameter(_))
    ));
    assert_eq!(controller.get_encoder_value(id, 0).unwrap(), 0);

    let values = controller.read_analog_inputs_bulk(id, vec![1, 2]).unwrap();
    assert_eq!(values, vec![0, 0]);
    assert!(matches!(
        controller.read_analog_inputs_bulk(id, vec![1, 7]),
        Err(ThreadError::InvalidParameter(_))
    ));
}

#[test]
fn test_controller_model_monitoring() {
    // Model monitoring is refused for device types without a capability
    // model, and for unknown identifiers.
    let mut controller = ThreadControllerImpl::new();
    let supported = make_snapshot(1, 0); // device_type_id 0 is unsupported
    let id = controller.start_usb_device_thread(0, &supported).unwrap();
    assert!(matches!(
        controller.start_model_monitoring(id),
        Err(ThreadError::UnsupportedDevice)
    ));

    let mut snap = make_snapshot(1, 0);
    snap.device_data.device_type_id = 30;
    let id2 = controller.start_usb_device_thread(1, &snap).unwrap();
    assert!(controller.start_model_monitoring(id2).is_ok());
    assert!(controller.stop_model_monitoring(id2).is_ok());
    assert!(matches!(
        controller.start_model_monitoring(77),
        Err(ThreadError::ThreadNotFound(77))
    ));
}

#[test]
fn test_controller_builder() {
    // The builder hands its settings to the controller.
    let controller: ThreadControllerImpl = ThreadControllerBuilder::new()
        .default_refresh_interval(250)
        .build();
    assert!(controller.list_active_threads().unwrap().is_empty());

    let builder = ThreadWorkerBuilder::new(7).refresh_interval(50);
    let snapshot = make_snapshot(1, 0);
    let worker = builder.build_usb_device(3, &snapshot).unwrap();
    assert_eq!(worker.thread_id(), 7);
}

#[test]
fn test_level_filtering() {
    // A message passes a filter exactly when its severity rank is
    // within the filter's rank.
    assert!(level_passes(LogLevel::Error, LevelFilter::Error));
    assert!(!level_passes(LogLevel::Warn, LevelFilter::Error));
    assert!(level_passes(LogLevel::Info, LevelFilter::Trace));
    assert!(!level_passes(LogLevel::Error, LevelFilter::Off));
    assert!(level_passes(LogLevel::Trace, LevelFilter::Trace));
    assert!(!level_passes(LogLevel::Trace, LevelFilter::Debug));
}

#[test]
fn test_worker_update_model_pauses_and_reconnects() {
    // An UpdateModel command attaches the model, pauses the worker, and
    // asks for a reconnect.
    let snapshot = make_snapshot(1, 0);
    let mut worker = DeviceWorkerImpl::new_usb(1, &snapshot, 0, 100);
    worker.send_command(DeviceCommand::Start).unwrap();
    let _ = worker.tick();
    assert_eq!(worker.status(), ThreadStatus::Running);

    worker
        .send_command(DeviceCommand::UpdateModel(DeviceModel::new(
            "PoKeys57E".to_string(),
        )))
        .unwrap();
    let plan = worker.tick();
    assert_eq!(plan.requests, vec![HwRequest::Reconnect]);
    assert_eq!(worker.status(), ThreadStatus::Paused);
    let state = worker.shared_state().get_state();
    assert_eq!(state.model.unwrap().name, "PoKeys57E");
}

#[test]
fn test_status_table() {
    // The status derivation table of the two flags.
    let mut shared = SharedDeviceState::new(DeviceInfo::default(), DeviceData::default());
    assert_eq!(shared.status(), ThreadStatus::Stopped);
    shared.set_paused(true);
    assert_eq!(shared.status(), ThreadStatus::Stopped); // paused alone is still stopped
    shared.set_running(true);
    assert_eq!(shared.status(), ThreadStatus::Paused);
    shared.set_paused(false);
    assert_eq!(shared.status(), ThreadStatus::Running);
    shared.set_running(false);
    assert_eq!(shared.status(), ThreadStatus::Stopped);
}

#[test]
fn test_worker_already_started() {
    // Starting a worker twice is refused with ThreadAlreadyExists.
    let snapshot = make_snapshot(1, 0);
    let builder = ThreadWorkerBuilder::new(9);
    let mut worker = builder.build_usb_device(0, &snapshot).unwrap();
    assert!(matches!(
        worker.start(),
        Err(ThreadError::ThreadAlreadyExists(9))
    ));
}

#[test]
fn test_stop_all_aggregates_errors() {
    // stop_all reports a join error when a worker is already gone, but
    // clears the registry either way.
    let mut controller = ThreadControllerImpl::new();
    let snapshot = make_snapshot(1, 0);
    let id = controller.start_usb_device_thread(0, &snapshot).unwrap();
    // Drive the worker down so its channel is gone.
    controller.send_command(id, DeviceCommand::Terminate).unwrap();
    // The command sits queued; stopping the thread drains it.
    controller.stop_thread(id).unwrap();
    let id2 = controller.start_usb_device_thread(0, &snapshot).unwrap();
    assert!(controller.stop_all().is_ok());
    assert!(controller.list_active_threads().unwrap().is_empty());
    assert!(matches!(
        controller.get_status(id2),
        Err(ThreadError::ThreadNotFound(_))
    ));
}

#[test]
fn test_global_log_level_reports_failures() {
    // A global log-level change reports a summary failure when a worker
    // can no longer be reached.
    let mut controller = ThreadControllerImpl::new();
    let snapshot = make_snapshot(1, 0);
    let id = controller.start_usb_device_thread(0, &snapshot).unwrap();
    assert!(controller.set_global_log_level(LevelFilter::Debug).is_ok());
    assert!(controller.set_thread_log_level(id, LevelFilter::Warn).is_ok());
}

#[test]
fn test_worker_loopback_roundtrip() {
    // A digital output command begun by the worker and completed with a
    // successful hardware outcome is reflected by the next read: the
    // loopback path through the worker state machine.
    let snapshot = make_snapshot(4, 0);
    let mut worker = DeviceWorkerImpl::new_usb(1, &snapshot, 0, 100);
    worker
        .send_command(DeviceCommand::SetDigitalOutput { pin: 2, value: true })
        .unwrap();
    let mut plan = worker.tick();
    assert_eq!(plan.requests.len(), 1);
    let request = plan.requests.remove(0);
    complete_request(worker.shared_state_mut(), request, Ok(()));
    assert_eq!(worker.shared_state().get_digital_input(2), Some(true));
}

#[test]
fn test_worker_records_hardware_failure() {
    // A failed hardware outcome is recorded in the error annotation and
    // does not terminate the worker.
    let snapshot = make_snapshot(4, 0);
    let mut worker = DeviceWorkerImpl::new_usb(1, &snapshot, 0, 100);
    worker.send_command(DeviceCommand::Start).unwrap();
    let _ = worker.tick();
    worker
        .send_command(DeviceCommand::SetDigitalOutput { pin: 2, value: true })
        .unwrap();
    let mut plan = worker.tick();
    let request = plan.requests.remove(0);
    complete_request(worker.shared_state_mut(), request, Err("bus stalled".to_string()));
    assert_eq!(
        worker.shared_state().get_error().unwrap(),
        "Failed to set digital output: bus stalled"
    );
    assert_eq!(worker.status(), ThreadStatus::Running);
    assert_eq!(worker.shared_state().get_digital_input(2), Some(false));
}

#[test]
fn test_error_message_texts() {
    // The constructor-built message texts, exactly.
    let error = ThreadError::pin_capability_error(17, "analog_input", None);
    match error {
        ThreadError::PinCapabilityError { message, .. } => {
            assert_eq!(message, "Pin 17 does not support analog_input");
        }
        _ => panic!("Expected PinCapabilityError"),
    }
    let error = ThreadError::hardware_constraint("too fast", "slow down");
    match error {
        ThreadError::HardwareConstraint { message, .. } => {
            assert_eq!(message, "Hardware constraint violated: too fast");
        }
        _ => panic!("Expected HardwareConstraint"),
    }
    let error = ThreadError::resource_conflict("Pin 17", "PWM output");
    match error {
        ThreadError::ResourceConflict { message, .. } => {
            assert_eq!(message, "Resource Pin 17 is already in use");
        }
        _ => panic!("Expected ResourceConflict"),
    }
}

#[test]
fn test_sync_all_channels_best_effort() {
    // With the digital, the analog and one encoder read all failing,
    // every failure is recorded in order and the snapshot is still
    // taken over.
    let mut shared = SharedDeviceState::new(DeviceInfo::default(), DeviceData::default());
    let observer = StateObserver::new(1, &mut shared);
    let mut sync = DeviceSync::new(1, 100, 0);

    let mut snapshot = make_snapshot(1, 2);
    snapshot.encoders[0].encoder_value = 9;
    let reads = SyncReads {
        digital_error: Some("dig down".to_string()),
        analog_error: Some("ana down".to_string()),
        encoder_errors: vec![(1, "enc down".to_string())],
        snapshot,
    };
    let result = sync.sync(&mut shared, reads, 100);
    // The digital failure is the one reported.
    match result {
        Err(ThreadError::DeviceError(m)) => assert_eq!(m, "dig down"),
        _ => panic!("Expected a transport error"),
    }
    // The last recorded failure stays in the annotation.
    assert_eq!(
        shared.get_error().unwrap(),
        "Failed to refresh encoder 1: enc down"
    );
    // The snapshot was still taken over.
    assert_eq!(shared.get_encoder_value(0), Some(9));
    let changes = observer.process_all_changes(&mut shared);
    // Three Error/FullUpdate pairs, then the refresh's FullUpdate.
    assert_eq!(changes.len(), 7);
    assert!(matches!(changes[0], StateChangeType::Error { .. }));
    assert!(matches!(changes[2], StateChangeType::Error { .. }));
    assert!(matches!(changes[4], StateChangeType::Error { .. }));
    assert!(matches!(changes[6], StateChangeType::FullUpdate));
}
