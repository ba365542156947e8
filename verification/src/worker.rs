//! Device worker: the per-device state machine behind the worker thread.
//! Each command is begun against the shared state and turned into the
//! hardware requests the owning thread must perform; each hardware
//! outcome is completed back into the shared state — the optimistic
//! local echo on success, the recorded error on failure.

use vstd::prelude::*;
use vstd::string::StringExecFns;
use crate::commands::DeviceCommand;
use crate::error::ThreadError;
use crate::state::{
    queues_extended, same_except_error, next_stamp, SharedDeviceState, StateChangeType,
    ThreadStatus, DeviceSnapshot,
};

verus! {

/// Summary of a network device found by discovery.
#[derive(Debug, Clone, Copy, PartialEq, Eq)]
pub struct NetworkDeviceSummary {
    pub serial_number: u32,
    pub ip_address: [u8; 4],
    pub host_ip: [u8; 4],
    pub firmware_version_major: u8,
    pub firmware_version_minor: u8,
    pub firmware_revision: u8,
    pub user_id: u8,
    pub dhcp: u8,
    pub hw_type: u8,
    pub use_udp: u8,
}

/// How a worker's device is reached, kept for reconnection.
#[derive(Debug, Clone, Copy, PartialEq, Eq)]
pub enum DeviceType {
    /// USB device with device index
    Usb(u32),
    /// Network device with device summary
    Network(NetworkDeviceSummary),
}

/// One hardware call the owning thread must perform on the device
/// handle.
#[derive(Debug, PartialEq, Eq)]
pub enum HwRequest {
    /// Drive a digital output pin
    SetDigitalOutput { pin: u32, value: bool },
    /// Drive an analog output pin
    SetAnalogOutput { pin: u32, value: u32 },
    /// Set the PWM duty cycle of a pin; `channel` names the mirror
    /// channel in the shared state, absent for servo pulses
    SetPwmPin { pin: u8, duty: u32, channel: Option<usize> },
    /// Write bytes to an I2C device
    I2cWrite { address: u8, data: Vec<u8> },
    /// Read bytes from an I2C device
    I2cRead { address: u8, length: u8 },
    /// Write then read on an I2C device
    I2cWriteRead { address: u8, write_data: Vec<u8>, read_length: u8 },
    /// Configure an encoder
    ConfigureEncoder { encoder_index: u8, pin_a: u8, pin_b: u8, enabled: bool, sampling_4x: bool },
    /// Reset a digital counter
    ResetDigitalCounter { pin: u32 },
    /// Configure a pin function
    SetPinFunction { pin: u32, function: u8 },
    /// Send a raw custom request
    Custom { request_type: u8, param1: u8, param2: u8, param3: u8, param4: u8 },
    /// Tear the connection down and connect anew
    Reconnect,
}

/// What beginning one command yields: whether the worker loop must exit,
/// and the hardware requests to perform, in order.
#[derive(Debug)]
pub struct CommandPlan {
    /// The worker loop must exit
    pub exit: bool,
    /// Hardware requests to perform, in order
    pub requests: Vec<HwRequest>,
}

/// The status notifications emitted when the `running` flag is cleared.
pub open spec fn terminate_tail(running: bool) -> Seq<StateChangeType> {
    if running {
        seq![StateChangeType::ThreadStatus { status: ThreadStatus::Stopped }]
    } else {
        Seq::empty()
    }
}

/// The status notifications emitted when the `paused` flag is set.
pub open spec fn pause_tail(running: bool, paused: bool) -> Seq<StateChangeType> {
    if running && !paused {
        seq![StateChangeType::ThreadStatus { status: ThreadStatus::Paused }]
    } else {
        Seq::empty()
    }
}

/// The status notifications emitted when the `paused` flag is cleared.
pub open spec fn resume_tail(running: bool, paused: bool) -> Seq<StateChangeType> {
    if running && paused {
        seq![StateChangeType::ThreadStatus { status: ThreadStatus::Running }]
    } else {
        Seq::empty()
    }
}

/// The status notifications emitted by a start or restart: the `running`
/// flag is set, then the `paused` flag is cleared.
pub open spec fn start_tail(running: bool, paused: bool) -> Seq<StateChangeType> {
    if !running && !paused {
        seq![StateChangeType::ThreadStatus { status: ThreadStatus::Running }]
    } else if !running && paused {
        seq![
            StateChangeType::ThreadStatus { status: ThreadStatus::Paused },
            StateChangeType::ThreadStatus { status: ThreadStatus::Running },
        ]
    } else if paused {
        seq![StateChangeType::ThreadStatus { status: ThreadStatus::Running }]
    } else {
        Seq::empty()
    }
}

/// The duty cycle for a servo angle in whole degrees, on the 12-bit
/// scale where 180 degrees is full range, held at the numeric ceiling.
pub open spec fn servo_angle_duty(angle: u32) -> u32 {
    if angle * 4095 / 180 > 0xFFFF_FFFF {
        0xFFFF_FFFFu32
    } else {
        (angle * 4095 / 180) as u32
    }
}

/// The duty cycle for a servo speed between -100 and 100, mapped onto
/// the 12-bit scale, held at the numeric floor and ceiling.
pub open spec fn servo_speed_duty(speed: i32) -> u32 {
    if speed + 100 < 0 {
        0u32
    } else if (speed + 100) * 4095 / 200 > 0xFFFF_FFFF {
        0xFFFF_FFFFu32
    } else {
        ((speed + 100) * 4095 / 200) as u32
    }
}

/// The probes of a full I2C bus scan: one single-byte read per address
/// from 0x08 through 0x77.
pub open spec fn i2c_scan_requests() -> Seq<HwRequest> {
    Seq::new(112, |i: int| HwRequest::I2cRead { address: (8 + i) as u8, length: 1u8 })
}

/// The per-pair requests of a bulk digital output command.
pub open spec fn digital_bulk_requests(s: Seq<(u32, bool)>) -> Seq<HwRequest> {
    s.map_values(|p: (u32, bool)| HwRequest::SetDigitalOutput { pin: p.0, value: p.1 })
}

/// The per-pair requests of a bulk PWM command: the channel-to-pin
/// mapping applied to each pair, skipping invalid channels.
pub open spec fn pwm_bulk_requests(s: Seq<(usize, u32)>) -> Seq<HwRequest>
    decreases s.len(),
{
    if s.len() == 0 {
        Seq::empty()
    } else {
        (if s[0].0 <= 5 {
            seq![
                HwRequest::SetPwmPin {
                    pin: (22 - s[0].0) as u8,
                    duty: s[0].1,
                    channel: Some(s[0].0),
                },
            ]
        } else {
            Seq::empty()
        }) + pwm_bulk_requests(s.drop_first())
    }
}

/// The shared state is untouched.
pub open spec fn shared_unchanged(pre: SharedDeviceState, post: SharedDeviceState) -> bool {
    post == pre
}

/// What beginning one command does to the shared state, whether the
/// worker loop exits, and which hardware requests come out of it.
pub open spec fn begin_post(
    pre: SharedDeviceState,
    post: SharedDeviceState,
    cmd: DeviceCommand,
    exit: bool,
    reqs: Seq<HwRequest>,
) -> bool {
    match cmd {
        DeviceCommand::Terminate => {
            &&& !post.running_spec()
            &&& post.paused_spec() == pre.paused_spec()
            &&& post.state_spec() == pre.state_spec()
            &&& post.last_update_spec() == pre.last_update_spec()
            &&& queues_extended(pre.queues(), post.queues(), terminate_tail(pre.running_spec()))
            &&& exit
            &&& reqs.len() == 0
        },
        DeviceCommand::Pause => {
            &&& post.running_spec() == pre.running_spec()
            &&& post.paused_spec()
            &&& post.state_spec() == pre.state_spec()
            &&& post.last_update_spec() == pre.last_update_spec()
            &&& queues_extended(
                pre.queues(),
                post.queues(),
                pause_tail(pre.running_spec(), pre.paused_spec()),
            )
            &&& !exit
            &&& reqs.len() == 0
        },
        DeviceCommand::Start => {
            &&& post.running_spec()
            &&& !post.paused_spec()
            &&& post.state_spec() == pre.state_spec()
            &&& post.last_update_spec() == pre.last_update_spec()
            &&& queues_extended(
                pre.queues(),
                post.queues(),
                start_tail(pre.running_spec(), pre.paused_spec()),
            )
            &&& !exit
            &&& reqs.len() == 0
        },
        DeviceCommand::Restart => {
            &&& post.running_spec()
            &&& !post.paused_spec()
            &&& post.state_spec() == pre.state_spec()
            &&& post.last_update_spec() == pre.last_update_spec()
            &&& queues_extended(
                pre.queues(),
                post.queues(),
                start_tail(pre.running_spec(), pre.paused_spec()),
            )
            &&& !exit
            &&& reqs.len() == 0
        },
        DeviceCommand::GetStatus => {
            &&& shared_unchanged(pre, post)
            &&& !exit
            &&& reqs.len() == 0
        },
        DeviceCommand::SetDigitalOutput { pin, value } => {
            &&& shared_unchanged(pre, post)
            &&& !exit
            &&& reqs == seq![HwRequest::SetDigitalOutput { pin, value }]
        },
        DeviceCommand::SetAnalogOutput { pin, value } => {
            &&& shared_unchanged(pre, post)
            &&& !exit
            &&& reqs == seq![HwRequest::SetAnalogOutput { pin, value }]
        },
        DeviceCommand::SetPwmDuty { channel, duty } => {
            &&& shared_unchanged(pre, post)
            &&& !exit
            &&& if channel <= 5 {
                reqs == seq![
                    HwRequest::SetPwmPin {
                        pin: (22 - channel) as u8,
                        duty,
                        channel: Some(channel),
                    },
                ]
            } else {
                reqs.len() == 0
            }
        },
        DeviceCommand::ConfigureServo { .. } => {
            &&& shared_unchanged(pre, post)
            &&& !exit
            &&& reqs.len() == 0
        },
        DeviceCommand::SetServoAngle { pin, angle } => {
            &&& shared_unchanged(pre, post)
            &&& !exit
            &&& reqs == seq![
                HwRequest::SetPwmPin { pin, duty: servo_angle_duty(angle), channel: None },
            ]
        },
        DeviceCommand::SetServoSpeed { pin, speed } => {
            &&& shared_unchanged(pre, post)
            &&& !exit
            &&& reqs == seq![
                HwRequest::SetPwmPin { pin, duty: servo_speed_duty(speed), channel: None },
            ]
        },
        DeviceCommand::StopServo { pin } => {
            &&& shared_unchanged(pre, post)
            &&& !exit
            &&& reqs == seq![HwRequest::SetPwmPin { pin, duty: 1500u32, channel: None }]
        },
        DeviceCommand::I2cWrite { address, data } => {
            &&& shared_unchanged(pre, post)
            &&& !exit
            &&& reqs == seq![HwRequest::I2cWrite { address, data }]
        },
        DeviceCommand::I2cRead { address, length } => {
            &&& shared_unchanged(pre, post)
            &&& !exit
            &&& reqs == seq![HwRequest::I2cRead { address, length }]
        },
        DeviceCommand::I2cWriteRead { address, write_data, read_length } => {
            &&& shared_unchanged(pre, post)
            &&& !exit
            &&& reqs == seq![HwRequest::I2cWriteRead { address, write_data, read_length }]
        },
        DeviceCommand::I2cScan => {
            &&& shared_unchanged(pre, post)
            &&& !exit
            &&& reqs == i2c_scan_requests()
        },
        DeviceCommand::ConfigureUSPIBridge { .. } => {
            &&& shared_unchanged(pre, post)
            &&& !exit
            &&& reqs.len() == 0
        },
        DeviceCommand::USPIBridgeCommand { .. } => {
            &&& shared_unchanged(pre, post)
            &&& !exit
            &&& reqs.len() == 0
        },
        DeviceCommand::SetDigitalOutputsBulk { pin_states } => {
            &&& shared_unchanged(pre, post)
            &&& !exit
            &&& reqs == digital_bulk_requests(pin_states@)
        },
        DeviceCommand::SetPwmDutiesBulk { channel_duties } => {
            &&& shared_unchanged(pre, post)
            &&& !exit
            &&& reqs == pwm_bulk_requests(channel_duties@)
        },
        DeviceCommand::ReadAnalogInputsBulk { .. } => {
            &&& shared_unchanged(pre, post)
            &&& !exit
            &&& reqs.len() == 0
        },
        DeviceCommand::CheckPinCapability { .. } => {
            &&& shared_unchanged(pre, post)
            &&& !exit
            &&& reqs.len() == 0
        },
        DeviceCommand::ValidatePinOperation { .. } => {
            &&& shared_unchanged(pre, post)
            &&& !exit
            &&& reqs.len() == 0
        },
        DeviceCommand::ConfigureEncoder { encoder_index, pin_a, pin_b, enabled, sampling_4x } => {
            if pin_a <= 255 && pin_b <= 255 {
                &&& shared_unchanged(pre, post)
                &&& !exit
                &&& reqs == seq![
                    HwRequest::ConfigureEncoder {
                        encoder_index: (encoder_index % 256) as u8,
                        pin_a: pin_a as u8,
                        pin_b: pin_b as u8,
                        enabled,
                        sampling_4x,
                    },
                ]
            } else {
                &&& post.running_spec() == pre.running_spec()
                &&& post.paused_spec() == pre.paused_spec()
                &&& same_except_error(pre.state_spec(), post.state_spec())
                &&& post.state_spec().error_message is Some
                &&& post.last_update_spec() == next_stamp(pre.last_update_spec())
                &&& queues_extended(
                    pre.queues(),
                    post.queues(),
                    seq![StateChangeType::FullUpdate],
                )
                &&& !exit
                &&& reqs.len() == 0
            }
        },
        DeviceCommand::ResetDigitalCounter { pin } => {
            &&& shared_unchanged(pre, post)
            &&& !exit
            &&& reqs == seq![HwRequest::ResetDigitalCounter { pin }]
        },
        DeviceCommand::SetPinFunction { pin, pin_function } => {
            &&& shared_unchanged(pre, post)
            &&& !exit
            &&& reqs == seq![HwRequest::SetPinFunction { pin, function: pin_function }]
        },
        DeviceCommand::Custom { request_type, param1, param2, param3, param4 } => {
            &&& shared_unchanged(pre, post)
            &&& !exit
            &&& reqs == seq![
                HwRequest::Custom { request_type, param1, param2, param3, param4 },
            ]
        },
        DeviceCommand::SetLogLevel(_) => {
            &&& shared_unchanged(pre, post)
            &&& !exit
            &&& reqs.len() == 0
        },
        DeviceCommand::UpdateModel(model) => {
            &&& post.running_spec() == pre.running_spec()
            &&& post.paused_spec()
            &&& post.state_spec().model == Some(model)
            &&& crate::state::same_except_model(pre.state_spec(), post.state_spec())
            &&& post.last_update_spec() == next_stamp(pre.last_update_spec())
            &&& queues_extended(
                pre.queues(),
                post.queues(),
                seq![StateChangeType::FullUpdate] + pause_tail(
                    pre.running_spec(),
                    pre.paused_spec(),
                ),
            )
            &&& !exit
            &&& reqs == seq![HwRequest::Reconnect]
        },
    }
}

/// Every queue of `q1` equals the matching queue of `q0`.
proof fn lemma_queues_extended_empty(q0: Seq<Seq<StateChangeType>>, q1: Seq<Seq<StateChangeType>>)
    requires
        q1 == q0,
    ensures
        queues_extended(q0, q1, Seq::empty()),
{
    assert forall|i: int| 0 <= i < q0.len() implies #[trigger] q1[i] == q0[i]
        + Seq::<StateChangeType>::empty() by {
        assert(q1[i] =~= q0[i] + Seq::<StateChangeType>::empty());
    }
}

/// A worker loop that exits leaves the derived status `Stopped`.
pub proof fn lemma_exit_means_stopped(
    pre: SharedDeviceState,
    post: SharedDeviceState,
    cmd: DeviceCommand,
    exit: bool,
    reqs: Seq<HwRequest>,
)
    requires
        begin_post(pre, post, cmd, exit, reqs),
        exit,
    ensures
        post.status_spec() == ThreadStatus::Stopped,
{
}

/// Begin one command against the shared state: apply its control effect
/// and hand back the hardware requests the owning thread must perform.
pub fn begin_command(shared: &mut SharedDeviceState, cmd: DeviceCommand) -> (plan: CommandPlan)
    ensures
        begin_post(*old(shared), *final(shared), cmd, plan.exit, plan.requests@),
{
    match cmd {
        DeviceCommand::Terminate => {
            let ghost q0 = shared.queues();
            let ghost r0 = shared.running_spec();
            shared.set_running(false);
            proof {
                if !r0 {
                    lemma_queues_extended_empty(q0, shared.queues());
                }
            }
            CommandPlan { exit: true, requests: Vec::new() }
        },
        DeviceCommand::Pause => {
            let ghost q0 = shared.queues();
            shared.set_paused(true);
            proof {
                if !(shared.running_spec() && !old(shared).paused_spec()) {
                    lemma_queues_extended_empty(q0, shared.queues());
                }
            }
            CommandPlan { exit: false, requests: Vec::new() }
        },
        DeviceCommand::Start => {
            begin_start(shared);
            CommandPlan { exit: false, requests: Vec::new() }
        },
        DeviceCommand::Restart => {
            begin_start(shared);
            CommandPlan { exit: false, requests: Vec::new() }
        },
        DeviceCommand::GetStatus => CommandPlan { exit: false, requests: Vec::new() },
        DeviceCommand::SetDigitalOutput { pin, value } => {
            let mut requests: Vec<HwRequest> = Vec::new();
            requests.push(HwRequest::SetDigitalOutput { pin, value });
            proof {
                assert(requests@ =~= seq![HwRequest::SetDigitalOutput { pin, value }]);
            }
            CommandPlan { exit: false, requests }
        },
        DeviceCommand::SetAnalogOutput { pin, value } => {
            let mut requests: Vec<HwRequest> = Vec::new();
            requests.push(HwRequest::SetAnalogOutput { pin, value });
            proof {
                assert(requests@ =~= seq![HwRequest::SetAnalogOutput { pin, value }]);
            }
            CommandPlan { exit: false, requests }
        },
        DeviceCommand::SetPwmDuty { channel, duty } => {
            let mut requests: Vec<HwRequest> = Vec::new();
            if channel <= 5 {
                let pin = (22 - channel) as u8;
                requests.push(HwRequest::SetPwmPin { pin, duty, channel: Some(channel) });
                proof {
                    assert(requests@ =~= seq![
                        HwRequest::SetPwmPin {
                            pin: (22 - channel) as u8,
                            duty,
                            channel: Some(channel),
                        },
                    ]);
                }
            }
            CommandPlan { exit: false, requests }
        },
        DeviceCommand::ConfigureServo { .. } => CommandPlan { exit: false, requests: Vec::new() },
        DeviceCommand::SetServoAngle { pin, angle } => {
            let wide: u64 = (angle as u64) * 4095 / 180;
            let duty: u32 = if wide > 0xFFFF_FFFFu64 {
                0xFFFF_FFFFu32
            } else {
                wide as u32
            };
            assert(duty == servo_angle_duty(angle));
            let mut requests: Vec<HwRequest> = Vec::new();
            requests.push(HwRequest::SetPwmPin { pin, duty, channel: None });
            proof {
                assert(requests@ =~= seq![
                    HwRequest::SetPwmPin { pin, duty: servo_angle_duty(angle), channel: None },
                ]);
            }
            CommandPlan { exit: false, requests }
        },
        DeviceCommand::SetServoSpeed { pin, speed } => {
            let shifted: i64 = (speed as i64) + 100;
            let duty: u32 = if shifted < 0 {
                0u32
            } else {
                let wide: i64 = shifted * 4095 / 200;
                if wide > 0xFFFF_FFFFi64 {
                    0xFFFF_FFFFu32
                } else {
                    wide as u32
                }
            };
            assert(duty == servo_speed_duty(speed));
            let mut requests: Vec<HwRequest> = Vec::new();
            requests.push(HwRequest::SetPwmPin { pin, duty, channel: None });
            proof {
                assert(requests@ =~= seq![
                    HwRequest::SetPwmPin { pin, duty: servo_speed_duty(speed), channel: None },
                ]);
            }
            CommandPlan { exit: false, requests }
        },
        DeviceCommand::StopServo { pin } => {
            let mut requests: Vec<HwRequest> = Vec::new();
            requests.push(HwRequest::SetPwmPin { pin, duty: 1500, channel: None });
            proof {
                assert(requests@ =~= seq![
                    HwRequest::SetPwmPin { pin, duty: 1500u32, channel: None },
                ]);
            }
            CommandPlan { exit: false, requests }
        },
        DeviceCommand::I2cWrite { address, data } => {
            let ghost gdata = data;
            let mut requests: Vec<HwRequest> = Vec::new();
            requests.push(HwRequest::I2cWrite { address, data });
            proof {
                assert(requests@ =~= seq![HwRequest::I2cWrite { address, data: gdata }]);
            }
            CommandPlan { exit: false, requests }
        },
        DeviceCommand::I2cRead { address, length } => {
            let mut requests: Vec<HwRequest> = Vec::new();
            requests.push(HwRequest::I2cRead { address, length });
            proof {
                assert(requests@ =~= seq![HwRequest::I2cRead { address, length }]);
            }
            CommandPlan { exit: false, requests }
        },
        DeviceCommand::I2cWriteRead { address, write_data, read_length } => {
            let ghost gdata = write_data;
            let mut requests: Vec<HwRequest> = Vec::new();
            requests.push(HwRequest::I2cWriteRead { address, write_data, read_length });
            proof {
                assert(requests@ =~= seq![
                    HwRequest::I2cWriteRead { address, write_data: gdata, read_length },
                ]);
            }
            CommandPlan { exit: false, requests }
        },
        DeviceCommand::I2cScan => {
            let mut requests: Vec<HwRequest> = Vec::new();
            let mut addr: u8 = 8;
            while addr <= 0x77
                invariant
                    8 <= addr <= 0x78,
                    requests@.len() == addr - 8,
                    forall|j: int|
                        0 <= j < requests@.len() ==> #[trigger] requests@[j]
                            == (HwRequest::I2cRead { address: (8 + j) as u8, length: 1u8 }),
                decreases 0x78 - addr,
            {
                requests.push(HwRequest::I2cRead { address: addr, length: 1 });
                addr += 1;
            }
            proof {
                assert(requests@ =~= i2c_scan_requests());
            }
            CommandPlan { exit: false, requests }
        },
        DeviceCommand::ConfigureUSPIBridge { .. } => CommandPlan {
            exit: false,
            requests: Vec::new(),
        },
        DeviceCommand::USPIBridgeCommand { .. } => CommandPlan {
            exit: false,
            requests: Vec::new(),
        },
        DeviceCommand::SetDigitalOutputsBulk { pin_states } => {
            let mut requests: Vec<HwRequest> = Vec::new();
            let n = pin_states.len();
            let mut i: usize = 0;
            while i < n
                invariant
                    i <= n,
                    n == pin_states@.len(),
                    requests@ =~= digital_bulk_requests(pin_states@.take(i as int)),
                decreases n - i,
            {
                let (pin, value) = pin_states[i];
                requests.push(HwRequest::SetDigitalOutput { pin, value });
                proof {
                    assert(requests@ =~= digital_bulk_requests(pin_states@.take(i + 1)));
                }
                i += 1;
            }
            proof {
                assert(pin_states@.take(n as int) =~= pin_states@);
                assert(requests@ =~= digital_bulk_requests(pin_states@));
            }
            CommandPlan { exit: false, requests }
        },
        DeviceCommand::SetPwmDutiesBulk { channel_duties } => {
            let mut requests: Vec<HwRequest> = Vec::new();
            let ghost s = channel_duties@;
            let n = channel_duties.len();
            let mut i: usize = 0;
            proof {
                assert(s.skip(0) =~= s);
                assert(requests@ + pwm_bulk_requests(s.skip(0)) =~= pwm_bulk_requests(s));
            }
            while i < n
                invariant
                    i <= n,
                    n == s.len(),
                    s == channel_duties@,
                    requests@ + pwm_bulk_requests(s.skip(i as int)) =~= pwm_bulk_requests(s),
                decreases n - i,
            {
                let ghost r0 = requests@;
                let (channel, duty) = channel_duties[i];
                if channel <= 5 {
                    let pin = (22 - channel) as u8;
                    requests.push(HwRequest::SetPwmPin { pin, duty, channel: Some(channel) });
                }
                proof {
                    assert(s.skip(i as int).drop_first() =~= s.skip(i + 1));
                    assert(s.skip(i as int)[0] == s[i as int]);
                    assert(requests@ + pwm_bulk_requests(s.skip(i + 1)) =~= r0
                        + pwm_bulk_requests(s.skip(i as int)));
                }
                i += 1;
            }
            proof {
                assert(s.skip(n as int) =~= Seq::<(usize, u32)>::empty());
                assert(requests@ =~= pwm_bulk_requests(s));
            }
            CommandPlan { exit: false, requests }
        },
        DeviceCommand::ReadAnalogInputsBulk { .. } => CommandPlan {
            exit: false,
            requests: Vec::new(),
        },
        DeviceCommand::CheckPinCapability { .. } => CommandPlan {
            exit: false,
            requests: Vec::new(),
        },
        DeviceCommand::ValidatePinOperation { .. } => CommandPlan {
            exit: false,
            requests: Vec::new(),
        },
        DeviceCommand::ConfigureEncoder { encoder_index, pin_a, pin_b, enabled, sampling_4x } => {
            if pin_a <= 255 && pin_b <= 255 {
                let mut requests: Vec<HwRequest> = Vec::new();
                let ei: u8 = (encoder_index % 256) as u8;
                requests.push(
                    HwRequest::ConfigureEncoder {
                        encoder_index: ei,
                        pin_a: pin_a as u8,
                        pin_b: pin_b as u8,
                        enabled,
                        sampling_4x,
                    },
                );
                proof {
                    assert(requests@ =~= seq![
                        HwRequest::ConfigureEncoder {
                            encoder_index: (encoder_index % 256) as u8,
                            pin_a: pin_a as u8,
                            pin_b: pin_b as u8,
                            enabled,
                            sampling_4x,
                        },
                    ]);
                }
                CommandPlan { exit: false, requests }
            } else {
                let message = if pin_a > 255 {
                    "Pin A value ".to_owned().concat(
                        crate::error::u64_to_dec(pin_a as u64).as_str(),
                    ).concat(" is out of range")
                } else {
                    "Pin B value ".to_owned().concat(
                        crate::error::u64_to_dec(pin_b as u64).as_str(),
                    ).concat(" is out of range")
                };
                shared.record_error(message);
                CommandPlan { exit: false, requests: Vec::new() }
            }
        },
        DeviceCommand::ResetDigitalCounter { pin } => {
            let mut requests: Vec<HwRequest> = Vec::new();
            requests.push(HwRequest::ResetDigitalCounter { pin });
            proof {
                assert(requests@ =~= seq![HwRequest::ResetDigitalCounter { pin }]);
            }
            CommandPlan { exit: false, requests }
        },
        DeviceCommand::SetPinFunction { pin, pin_function } => {
            let mut requests: Vec<HwRequest> = Vec::new();
            requests.push(HwRequest::SetPinFunction { pin, function: pin_function });
            proof {
                assert(requests@ =~= seq![
                    HwRequest::SetPinFunction { pin, function: pin_function },
                ]);
            }
            CommandPlan { exit: false, requests }
        },
        DeviceCommand::Custom { request_type, param1, param2, param3, param4 } => {
            let mut requests: Vec<HwRequest> = Vec::new();
            requests.push(HwRequest::Custom { request_type, param1, param2, param3, param4 });
            proof {
                assert(requests@ =~= seq![
                    HwRequest::Custom { request_type, param1, param2, param3, param4 },
                ]);
            }
            CommandPlan { exit: false, requests }
        },
        DeviceCommand::SetLogLevel(_) => CommandPlan { exit: false, requests: Vec::new() },
        DeviceCommand::UpdateModel(model) => {
            let ghost gmodel = model;
            let ghost q0 = shared.queues();
            shared.set_model(model);
            let ghost q1 = shared.queues();
            let ghost rf = shared.running_spec();
            let ghost pf = shared.paused_spec();
            shared.set_paused(true);
            proof {
                if rf && !pf {
                    crate::state::lemma_queues_extended_trans(
                        q0,
                        q1,
                        shared.queues(),
                        seq![StateChangeType::FullUpdate],
                        seq![StateChangeType::ThreadStatus { status: ThreadStatus::Paused }],
                    );
                } else {
                    crate::state::lemma_queues_extended_trans(
                        q0,
                        q1,
                        shared.queues(),
                        seq![StateChangeType::FullUpdate],
                        Seq::empty(),
                    );
                    lemma_queues_extended_empty(q1, shared.queues());
                }
                assert(seq![StateChangeType::FullUpdate] + pause_tail(rf, pf)
                    =~= seq![StateChangeType::FullUpdate] + pause_tail(rf, pf));
            }
            let mut requests: Vec<HwRequest> = Vec::new();
            requests.push(HwRequest::Reconnect);
            proof {
                assert(requests@ =~= seq![HwRequest::Reconnect]);
            }
            CommandPlan { exit: false, requests }
        },
    }
}

/// Apply a start or restart: set `running`, clear `paused`.
fn begin_start(shared: &mut SharedDeviceState)
    ensures
        final(shared).running_spec(),
        !final(shared).paused_spec(),
        final(shared).state_spec() == old(shared).state_spec(),
        final(shared).last_update_spec() == old(shared).last_update_spec(),
        queues_extended(
            old(shared).queues(),
            final(shared).queues(),
            start_tail(old(shared).running_spec(), old(shared).paused_spec()),
        ),
{
    let ghost q0 = shared.queues();
    let ghost r0 = shared.running_spec();
    let ghost p0 = shared.paused_spec();
    shared.set_running(true);
    let ghost q1 = shared.queues();
    shared.set_paused(false);
    proof {
        let q2 = shared.queues();
        if !r0 && !p0 {
            // first transition notifies Running; second changes nothing
            assert(queues_extended(q0, q1, start_tail(r0, p0)));
            assert(q2 == q1);
        } else if !r0 && p0 {
            crate::state::lemma_queues_extended_trans(
                q0,
                q1,
                q2,
                seq![StateChangeType::ThreadStatus { status: ThreadStatus::Paused }],
                seq![StateChangeType::ThreadStatus { status: ThreadStatus::Running }],
            );
            assert(seq![StateChangeType::ThreadStatus { status: ThreadStatus::Paused }]
                + seq![StateChangeType::ThreadStatus { status: ThreadStatus::Running }]
                =~= start_tail(r0, p0));
        } else if p0 {
            // already running: the first write changes nothing
            assert(q1 == q0);
            assert(queues_extended(q0, q2, start_tail(r0, p0)));
        } else {
            assert(q1 == q0);
            assert(q2 == q1);
            lemma_queues_extended_empty(q0, q2);
        }
    }
}

/// What completing one hardware outcome does to the shared state: the
/// optimistic local echo on success, the recorded error on failure.
pub open spec fn complete_post(
    pre: SharedDeviceState,
    post: SharedDeviceState,
    req: HwRequest,
    outcome: Result<(), String>,
) -> bool {
    match req {
        HwRequest::SetDigitalOutput { pin, value } => {
            match outcome {
                Result::Ok(_) => digital_echo_applied(pre, post, pin, value),
                Result::Err(m) => error_recorded(
                    pre,
                    post,
                    "Failed to set digital output: "@ + m@,
                ),
            }
        },
        HwRequest::SetAnalogOutput { pin, value } => {
            match outcome {
                Result::Ok(_) => analog_echo_applied(pre, post, pin, value),
                Result::Err(m) => error_recorded(
                    pre,
                    post,
                    "Failed to set analog output: "@ + m@,
                ),
            }
        },
        HwRequest::SetPwmPin { channel, duty, .. } => {
            match (channel, outcome) {
                (Option::Some(c), Result::Ok(_)) => pwm_echo_applied(pre, post, c, duty),
                (Option::Some(_), Result::Err(m)) => error_recorded(
                    pre,
                    post,
                    "Failed to set PWM duty cycle: "@ + m@,
                ),
                (Option::None, _) => post == pre,
            }
        },
        HwRequest::I2cWrite { .. } => post == pre,
        HwRequest::I2cRead { .. } => post == pre,
        HwRequest::I2cWriteRead { .. } => post == pre,
        HwRequest::ConfigureEncoder { .. } => {
            match outcome {
                Result::Ok(_) => post == pre,
                Result::Err(m) => error_recorded(
                    pre,
                    post,
                    "Failed to configure encoder: "@ + m@,
                ),
            }
        },
        HwRequest::ResetDigitalCounter { .. } => {
            match outcome {
                Result::Ok(_) => post == pre,
                Result::Err(m) => error_recorded(
                    pre,
                    post,
                    "Failed to reset digital counter: "@ + m@,
                ),
            }
        },
        HwRequest::SetPinFunction { .. } => {
            match outcome {
                Result::Ok(_) => post == pre,
                Result::Err(m) => error_recorded(
                    pre,
                    post,
                    "Failed to set pin function: "@ + m@,
                ),
            }
        },
        HwRequest::Custom { .. } => {
            match outcome {
                Result::Ok(_) => post == pre,
                Result::Err(m) => error_recorded(
                    pre,
                    post,
                    "Failed to send custom request: "@ + m@,
                ),
            }
        },
        HwRequest::Reconnect => {
            match outcome {
                Result::Ok(_) => resumed(pre, post),
                Result::Err(m) => reconnect_failed(
                    pre,
                    post,
                    "Failed to reconnect to device: "@ + m@,
                ),
            }
        },
    }
}

/// The shared-state effect of a successful digital output write: the
/// setter's local echo.
pub open spec fn digital_echo_applied(
    pre: SharedDeviceState,
    post: SharedDeviceState,
    pin: u32,
    value: bool,
) -> bool {
    &&& post.running_spec() == pre.running_spec()
    &&& post.paused_spec() == pre.paused_spec()
    &&& post.last_update_spec() == next_stamp(pre.last_update_spec())
    &&& pre.state_spec().valid_pin(pin) ==> {
        &&& post.state_spec().pins@ == pre.state_spec().pins@.update(
            pin - 1,
            crate::state::pin_with_digital(pre.state_spec().pins@[pin - 1], value),
        )
        &&& crate::state::same_except_pins(pre.state_spec(), post.state_spec())
        &&& queues_extended(
            pre.queues(),
            post.queues(),
            seq![StateChangeType::DigitalOutput { pin, value }, StateChangeType::FullUpdate],
        )
    }
    &&& !pre.state_spec().valid_pin(pin) ==> {
        &&& post.state_spec() == pre.state_spec()
        &&& queues_extended(pre.queues(), post.queues(), seq![StateChangeType::FullUpdate])
    }
}

/// The shared-state effect of a successful analog output write.
pub open spec fn analog_echo_applied(
    pre: SharedDeviceState,
    post: SharedDeviceState,
    pin: u32,
    value: u32,
) -> bool {
    &&& post.running_spec() == pre.running_spec()
    &&& post.paused_spec() == pre.paused_spec()
    &&& post.last_update_spec() == next_stamp(pre.last_update_spec())
    &&& pre.state_spec().valid_pin(pin) ==> {
        &&& post.state_spec().pins@ == pre.state_spec().pins@.update(
            pin - 1,
            crate::state::pin_with_analog(pre.state_spec().pins@[pin - 1], value),
        )
        &&& crate::state::same_except_pins(pre.state_spec(), post.state_spec())
        &&& queues_extended(
            pre.queues(),
            post.queues(),
            seq![StateChangeType::AnalogOutput { pin, value }, StateChangeType::FullUpdate],
        )
    }
    &&& !pre.state_spec().valid_pin(pin) ==> {
        &&& post.state_spec() == pre.state_spec()
        &&& queues_extended(pre.queues(), post.queues(), seq![StateChangeType::FullUpdate])
    }
}

/// The shared-state effect of a successful PWM write.
pub open spec fn pwm_echo_applied(
    pre: SharedDeviceState,
    post: SharedDeviceState,
    channel: usize,
    duty: u32,
) -> bool {
    &&& post.running_spec() == pre.running_spec()
    &&& post.paused_spec() == pre.paused_spec()
    &&& post.last_update_spec() == next_stamp(pre.last_update_spec())
    &&& pre.state_spec().valid_pwm_channel(channel) ==> {
        &&& post.state_spec().pwm.pwm_values@ == pre.state_spec().pwm.pwm_values@.update(
            channel as int,
            duty,
        )
        &&& crate::state::same_except_pwm(pre.state_spec(), post.state_spec())
        &&& queues_extended(
            pre.queues(),
            post.queues(),
            seq![StateChangeType::PwmDutyCycle { channel, duty }, StateChangeType::FullUpdate],
        )
    }
    &&& !pre.state_spec().valid_pwm_channel(channel) ==> {
        &&& post.state_spec() == pre.state_spec()
        &&& queues_extended(pre.queues(), post.queues(), seq![StateChangeType::FullUpdate])
    }
}

/// The shared-state effect of recording a hardware failure: the message
/// lands in the error annotation, and one `FullUpdate` goes out.
pub open spec fn error_recorded(
    pre: SharedDeviceState,
    post: SharedDeviceState,
    message: Seq<char>,
) -> bool {
    &&& post.running_spec() == pre.running_spec()
    &&& post.paused_spec() == pre.paused_spec()
    &&& post.last_update_spec() == next_stamp(pre.last_update_spec())
    &&& same_except_error(pre.state_spec(), post.state_spec())
    &&& (post.state_spec().error_message matches Some(s) && s@ == message)
    &&& queues_extended(pre.queues(), post.queues(), seq![StateChangeType::FullUpdate])
}

/// The shared-state effect of clearing the `paused` flag after a model
/// swap.
pub open spec fn resumed(pre: SharedDeviceState, post: SharedDeviceState) -> bool {
    &&& post.running_spec() == pre.running_spec()
    &&& !post.paused_spec()
    &&& post.state_spec() == pre.state_spec()
    &&& post.last_update_spec() == pre.last_update_spec()
    &&& queues_extended(
        pre.queues(),
        post.queues(),
        resume_tail(pre.running_spec(), pre.paused_spec()),
    )
}

/// The shared-state effect of a failed reconnect: the failure is
/// recorded and the worker resumes in a degraded state.
pub open spec fn reconnect_failed(
    pre: SharedDeviceState,
    post: SharedDeviceState,
    message: Seq<char>,
) -> bool {
    &&& post.running_spec() == pre.running_spec()
    &&& !post.paused_spec()
    &&& same_except_error(pre.state_spec(), post.state_spec())
    &&& (post.state_spec().error_message matches Some(s) && s@ == message)
    &&& post.last_update_spec() == next_stamp(pre.last_update_spec())
    &&& queues_extended(
        pre.queues(),
        post.queues(),
        seq![StateChangeType::FullUpdate] + resume_tail(
            pre.running_spec(),
            pre.paused_spec(),
        ),
    )
}

/// Complete one hardware outcome against the shared state.
pub fn complete_request(
    shared: &mut SharedDeviceState,
    req: HwRequest,
    outcome: Result<(), String>,
)
    ensures
        complete_post(*old(shared), *final(shared), req, outcome),
{
    match req {
        HwRequest::SetDigitalOutput { pin, value } => {
            match &outcome {
                Result::Ok(_) => {
                    shared.set_digital_output(pin, value);
                },
                Result::Err(m) => {
                    shared.record_error(
                        "Failed to set digital output: ".to_owned().concat(m.as_str()),
                    );
                },
            }
        },
        HwRequest::SetAnalogOutput { pin, value } => {
            match &outcome {
                Result::Ok(_) => {
                    shared.set_analog_output(pin, value);
                },
                Result::Err(m) => {
                    shared.record_error(
                        "Failed to set analog output: ".to_owned().concat(m.as_str()),
                    );
                },
            }
        },
        HwRequest::SetPwmPin { channel, duty, .. } => {
            match (&channel, &outcome) {
                (Option::Some(c), Result::Ok(_)) => {
                    shared.set_pwm_duty_cycle(*c, duty);
                },
                (Option::Some(_), Result::Err(m)) => {
                    shared.record_error(
                        "Failed to set PWM duty cycle: ".to_owned().concat(m.as_str()),
                    );
                },
                (Option::None, _) => {},
            }
        },
        HwRequest::I2cWrite { .. } => {},
        HwRequest::I2cRead { .. } => {},
        HwRequest::I2cWriteRead { .. } => {},
        HwRequest::ConfigureEncoder { .. } => {
            match &outcome {
                Result::Ok(_) => {},
                Result::Err(m) => {
                    shared.record_error(
                        "Failed to configure encoder: ".to_owned().concat(m.as_str()),
                    );
                },
            }
        },
        HwRequest::ResetDigitalCounter { .. } => {
            match &outcome {
                Result::Ok(_) => {},
                Result::Err(m) => {
                    shared.record_error(
                        "Failed to reset digital counter: ".to_owned().concat(m.as_str()),
                    );
                },
            }
        },
        HwRequest::SetPinFunction { .. } => {
            match &outcome {
                Result::Ok(_) => {},
                Result::Err(m) => {
                    shared.record_error(
                        "Failed to set pin function: ".to_owned().concat(m.as_str()),
                    );
                },
            }
        },
        HwRequest::Custom { .. } => {
            match &outcome {
                Result::Ok(_) => {},
                Result::Err(m) => {
                    shared.record_error(
                        "Failed to send custom request: ".to_owned().concat(m.as_str()),
                    );
                },
            }
        },
        HwRequest::Reconnect => {
            match &outcome {
                Result::Ok(_) => {
                    let ghost q0 = shared.queues();
                    let ghost r0 = shared.running_spec();
                    let ghost p0 = shared.paused_spec();
                    shared.set_paused(false);
                    proof {
                        if !(r0 && p0) {
                            lemma_queues_extended_empty(q0, shared.queues());
                        }
                    }
                },
                Result::Err(m) => {
                    let ghost q0 = shared.queues();
                    let ghost r0 = shared.running_spec();
                    let ghost p0 = shared.paused_spec();
                    shared.record_error(
                        "Failed to reconnect to device: ".to_owned().concat(m.as_str()),
                    );
                    let ghost q1 = shared.queues();
                    shared.set_paused(false);
                    proof {
                        if r0 && p0 {
                            crate::state::lemma_queues_extended_trans(
                                q0,
                                q1,
                                shared.queues(),
                                seq![StateChangeType::FullUpdate],
                                seq![
                                    StateChangeType::ThreadStatus {
                                        status: ThreadStatus::Running,
                                    },
                                ],
                            );
                        } else {
                            crate::state::lemma_queues_extended_trans(
                                q0,
                                q1,
                                shared.queues(),
                                seq![StateChangeType::FullUpdate],
                                Seq::empty(),
                            );
                            lemma_queues_extended_empty(q1, shared.queues());
                        }
                    }
                },
            }
        },
    }
}


/// The two worker values agree on every observable field.
pub open spec fn worker_fields_eq(w0: DeviceWorkerImpl, w1: DeviceWorkerImpl) -> bool {
    &&& w1.thread_id_spec() == w0.thread_id_spec()
    &&& w1.started_spec() == w0.started_spec()
    &&& w1.exited_spec() == w0.exited_spec()
    &&& w1.channel_connected_spec() == w0.channel_connected_spec()
    &&& w1.queue_spec() == w0.queue_spec()
    &&& w1.shared_spec() == w0.shared_spec()
    &&& w1.refresh_interval_spec() == w0.refresh_interval_spec()
    &&& w1.device_type_spec() == w0.device_type_spec()
}

/// Whether a `Terminate` command is queued.
pub open spec fn has_terminate(q: Seq<DeviceCommand>) -> bool {
    exists|i: int| 0 <= i < q.len() && q[i] is Terminate
}

/// Device worker: owns the shared state of one device and the queue of
/// commands its thread drains, one per tick.
pub struct DeviceWorkerImpl {
    /// Thread ID
    thread_id: u32,
    /// Whether the worker thread was started
    started: bool,
    /// Whether the worker loop has exited
    exited: bool,
    /// Whether the command channel still accepts commands
    channel_connected: bool,
    /// Pending commands, oldest first
    command_queue: Vec<DeviceCommand>,
    /// Shared device state
    shared_state: SharedDeviceState,
    /// Refresh interval in milliseconds
    refresh_interval: u64,
    /// Device type for reconnection
    device_type: DeviceType,
}

impl DeviceWorkerImpl {
    /// The worker's identifier, for contracts.
    pub closed spec fn thread_id_spec(self) -> u32 {
        self.thread_id
    }

    /// Whether the worker thread was started, for contracts.
    pub closed spec fn started_spec(self) -> bool {
        self.started
    }

    /// Whether the worker loop has exited, for contracts.
    pub closed spec fn exited_spec(self) -> bool {
        self.exited
    }

    /// Whether the command channel still accepts commands, for contracts.
    pub closed spec fn channel_connected_spec(self) -> bool {
        self.channel_connected
    }

    /// The pending commands, for contracts.
    pub closed spec fn queue_spec(self) -> Seq<DeviceCommand> {
        self.command_queue@
    }

    /// The shared state, for contracts.
    pub closed spec fn shared_spec(self) -> SharedDeviceState {
        self.shared_state
    }

    /// The refresh interval, for contracts.
    pub closed spec fn refresh_interval_spec(self) -> u64 {
        self.refresh_interval
    }

    /// The connection route, for contracts.
    pub closed spec fn device_type_spec(self) -> DeviceType {
        self.device_type
    }

    /// Create a new device worker around an initial hardware snapshot.
    pub(crate) fn new(
        thread_id: u32,
        device: &DeviceSnapshot,
        device_type: DeviceType,
        refresh_interval: u64,
    ) -> (r: Self)
        requires
            device.pins@.len() <= 0xFFFF_FFFF,
            device.encoders@.len() <= 0xFFFF_FFFF,
        ensures
            r.thread_id_spec() == thread_id,
            !r.started_spec(),
            !r.exited_spec(),
            r.channel_connected_spec(),
            r.queue_spec().len() == 0,
            r.refresh_interval_spec() == refresh_interval,
            r.device_type_spec() == device_type,
            !r.shared_spec().running_spec(),
            !r.shared_spec().paused_spec(),
            r.shared_spec().queues().len() == 0,
            r.shared_spec().state_spec().pins@ == device.pins@,
            r.shared_spec().state_spec().encoders@ == device.encoders@,
            r.shared_spec().state_spec().pwm == device.pwm,
            r.shared_spec().state_spec().device_info == device.device_info,
            r.shared_spec().state_spec().device_data == device.device_data,
    {
        let mut shared_state = SharedDeviceState::new(device.device_info, device.device_data);
        shared_state.update_from_device_with_notifications(device);
        DeviceWorkerImpl {
            thread_id,
            started: false,
            exited: false,
            channel_connected: true,
            command_queue: Vec::new(),
            shared_state,
            refresh_interval,
            device_type,
        }
    }

    /// Create a new device worker for a USB device.
    pub fn new_usb(
        thread_id: u32,
        device: &DeviceSnapshot,
        device_index: u32,
        refresh_interval: u64,
    ) -> (r: Self)
        requires
            device.pins@.len() <= 0xFFFF_FFFF,
            device.encoders@.len() <= 0xFFFF_FFFF,
        ensures
            r.thread_id_spec() == thread_id,
            !r.started_spec(),
            !r.exited_spec(),
            r.channel_connected_spec(),
            r.queue_spec().len() == 0,
            r.refresh_interval_spec() == refresh_interval,
            r.device_type_spec() == DeviceType::Usb(device_index),
            !r.shared_spec().running_spec(),
            !r.shared_spec().paused_spec(),
            r.shared_spec().queues().len() == 0,
            r.shared_spec().state_spec().pins@ == device.pins@,
            r.shared_spec().state_spec().encoders@ == device.encoders@,
            r.shared_spec().state_spec().pwm == device.pwm,
    {
        Self::new(thread_id, device, DeviceType::Usb(device_index), refresh_interval)
    }

    /// Create a new device worker for a network device.
    pub fn new_network(
        thread_id: u32,
        device: &DeviceSnapshot,
        device_summary: NetworkDeviceSummary,
        refresh_interval: u64,
    ) -> (r: Self)
        requires
            device.pins@.len() <= 0xFFFF_FFFF,
            device.encoders@.len() <= 0xFFFF_FFFF,
        ensures
            r.thread_id_spec() == thread_id,
            !r.started_spec(),
            !r.exited_spec(),
            r.channel_connected_spec(),
            r.queue_spec().len() == 0,
            r.refresh_interval_spec() == refresh_interval,
            r.device_type_spec() == DeviceType::Network(device_summary),
            !r.shared_spec().running_spec(),
            !r.shared_spec().paused_spec(),
            r.shared_spec().queues().len() == 0,
            r.shared_spec().state_spec().pins@ == device.pins@,
            r.shared_spec().state_spec().encoders@ == device.encoders@,
            r.shared_spec().state_spec().pwm == device.pwm,
    {
        Self::new(thread_id, device, DeviceType::Network(device_summary), refresh_interval)
    }

    /// Hand a command to the worker: queued in FIFO order while the
    /// channel is connected, refused once the worker has gone away.
    pub fn send_command(&mut self, command: DeviceCommand) -> (r: Result<(), ThreadError>)
        ensures
            old(self).channel_connected_spec() ==> r is Ok && final(self).queue_spec() == old(self).queue_spec().push(command),
            !old(self).channel_connected_spec() ==> (r matches Err(e) && e is CommandSendFailed)
                && final(self).queue_spec() == old(self).queue_spec(),
            final(self).shared_spec() == old(self).shared_spec(),
            final(self).started_spec() == old(self).started_spec(),
            final(self).exited_spec() == old(self).exited_spec(),
            final(self).channel_connected_spec() == old(self).channel_connected_spec(),
            final(self).thread_id_spec() == old(self).thread_id_spec(),
            final(self).refresh_interval_spec() == old(self).refresh_interval_spec(),
            final(self).device_type_spec() == old(self).device_type_spec(),
    {
        if self.channel_connected {
            self.command_queue.push(command);
            Result::Ok(())
        } else {
            Result::Err(ThreadError::CommandSendFailed("channel disconnected".to_owned()))
        }
    }

    /// Mark the worker thread started. Fails when it was already
    /// started.
    pub fn start(&mut self) -> (r: Result<(), ThreadError>)
        ensures
            !old(self).started_spec() ==> r is Ok && final(self).started_spec(),
            old(self).started_spec() ==> (r matches Err(e) && e matches
                ThreadError::ThreadAlreadyExists(id) && id == old(self).thread_id_spec()) && *final(self) == *old(self),
            final(self).shared_spec() == old(self).shared_spec(),
            final(self).queue_spec() == old(self).queue_spec(),
            final(self).exited_spec() == old(self).exited_spec(),
            final(self).channel_connected_spec() == old(self).channel_connected_spec(),
            final(self).thread_id_spec() == old(self).thread_id_spec(),
            final(self).refresh_interval_spec() == old(self).refresh_interval_spec(),
            final(self).device_type_spec() == old(self).device_type_spec(),
    {
        if self.started {
            Result::Err(ThreadError::ThreadAlreadyExists(self.thread_id))
        } else {
            self.started = true;
            Result::Ok(())
        }
    }

    /// One tick of the worker loop: drain at most one pending command
    /// and hand back what it asks of the hardware.
    pub fn tick(&mut self) -> (plan: CommandPlan)
        ensures
            old(self).queue_spec().len() == 0 ==> *final(self) == *old(self) && !plan.exit
                && plan.requests@.len() == 0,
            old(self).queue_spec().len() > 0 ==> {
                &&& final(self).queue_spec() == old(self).queue_spec().drop_first()
                &&& begin_post(
                    old(self).shared_spec(),
                    final(self).shared_spec(),
                    old(self).queue_spec()[0],
                    plan.exit,
                    plan.requests@,
                )
                &&& final(self).exited_spec() == (old(self).exited_spec() || plan.exit)
                &&& final(self).channel_connected_spec() == (old(self).channel_connected_spec()
                    && !plan.exit)
                &&& final(self).started_spec() == old(self).started_spec()
                &&& final(self).thread_id_spec() == old(self).thread_id_spec()
                &&& final(self).refresh_interval_spec() == old(self).refresh_interval_spec()
                &&& final(self).device_type_spec() == old(self).device_type_spec()
            },
    {
        if self.command_queue.len() == 0 {
            return CommandPlan { exit: false, requests: Vec::new() };
        }
        let cmd = self.command_queue.remove(0);
        proof {
            assert(self.command_queue@ =~= old(self).queue_spec().drop_first());
        }
        let plan = begin_command(&mut self.shared_state, cmd);
        if plan.exit {
            self.exited = true;
            self.channel_connected = false;
        }
        plan
    }

    /// Drain queued commands, discarding their hardware requests, until
    /// the worker loop exits. The queue must already hold a `Terminate`.
    fn run_until_exit(&mut self)
        requires
            old(self).exited_spec() || has_terminate(old(self).queue_spec()),
        ensures
            final(self).exited_spec(),
            !old(self).exited_spec() ==> final(self).shared_spec().status_spec()
                == ThreadStatus::Stopped,
            final(self).thread_id_spec() == old(self).thread_id_spec(),
    {
        while !self.exited
            invariant
                self.exited || has_terminate(self.queue_spec()),
                self.thread_id_spec() == old(self).thread_id_spec(),
                !self.exited && old(self).exited_spec() ==> false,
                self.exited && !old(self).exited_spec() ==> self.shared_spec().status_spec()
                    == ThreadStatus::Stopped,
            decreases self.queue_spec().len(),
        {
            let ghost pre = *self;
            let ghost qpre = self.queue_spec();
            proof {
                assert(has_terminate(qpre));
                assert(qpre.len() > 0);
            }
            let plan = self.tick();
            proof {
                let cmd = qpre[0];
                if plan.exit {
                    lemma_exit_means_stopped(
                        pre.shared_spec(),
                        self.shared_spec(),
                        cmd,
                        plan.exit,
                        plan.requests@,
                    );
                } else {
                    assert(!(cmd is Terminate));
                    let i = choose|i: int| 0 <= i < qpre.len() && qpre[i] is Terminate;
                    assert(i > 0);
                    assert(self.queue_spec()[i - 1] == qpre[i]);
                    assert(has_terminate(self.queue_spec()));
                }
            }
        }
    }

    /// Stop the worker: send `Terminate` and drive the loop until it
    /// exits, as joining the thread would. Fails when the channel is
    /// already gone.
    pub fn stop(&mut self) -> (r: Result<(), ThreadError>)
        ensures
            old(self).channel_connected_spec() <==> r is Ok,
            r is Ok ==> final(self).exited_spec(),
            r is Ok && !old(self).exited_spec() ==> final(self).shared_spec().status_spec()
                == ThreadStatus::Stopped,
            r matches Err(e) ==> e is CommandSendFailed && final(self).queue_spec() == old(self).queue_spec() && final(self).shared_spec() == old(self).shared_spec() && final(self).exited_spec() == old(self).exited_spec(),
    {
        let sent = self.send_command(DeviceCommand::Terminate);
        match sent {
            Result::Ok(_) => {
                proof {
                    let q = self.queue_spec();
                    assert(q[q.len() - 1] is Terminate);
                    assert(has_terminate(q));
                }
                self.run_until_exit();
                Result::Ok(())
            },
            Result::Err(e) => Result::Err(e),
        }
    }

    /// Ask the worker to pause: sync is suspended, commands still drain.
    pub fn pause(&mut self) -> (r: Result<(), ThreadError>)
        ensures
            old(self).channel_connected_spec() ==> r is Ok && final(self).queue_spec() == old(self).queue_spec().push(DeviceCommand::Pause),
            !old(self).channel_connected_spec() ==> r is Err,
            final(self).shared_spec() == old(self).shared_spec(),
    {
        self.send_command(DeviceCommand::Pause)
    }

    /// Ask the worker to resume.
    pub fn resume(&mut self) -> (r: Result<(), ThreadError>)
        ensures
            old(self).channel_connected_spec() ==> r is Ok && final(self).queue_spec() == old(self).queue_spec().push(DeviceCommand::Start),
            !old(self).channel_connected_spec() ==> r is Err,
            final(self).shared_spec() == old(self).shared_spec(),
    {
        self.send_command(DeviceCommand::Start)
    }

    /// The worker's identifier.
    pub fn thread_id(&self) -> (r: u32)
        ensures
            r == self.thread_id_spec(),
    {
        self.thread_id
    }

    /// Whether the command channel still accepts commands.
    pub fn channel_connected(&self) -> (r: bool)
        ensures
            r == self.channel_connected_spec(),
    {
        self.channel_connected
    }

    /// The worker's derived status.
    pub fn status(&self) -> (r: ThreadStatus)
        ensures
            r == self.shared_spec().status_spec(),
    {
        self.shared_state.status()
    }

    /// Read access to the worker's shared state.
    pub fn shared_state(&self) -> (r: &SharedDeviceState)
        ensures
            *r == self.shared_spec(),
    {
        &self.shared_state
    }

    /// Write access to the worker's shared state, for observers and the
    /// controller.
    pub fn shared_state_mut(&mut self) -> (r: &mut SharedDeviceState)
        ensures
            *r == old(self).shared_spec(),
            final(self).shared_spec() == *final(r),
            final(self).thread_id_spec() == old(self).thread_id_spec(),
            final(self).started_spec() == old(self).started_spec(),
            final(self).exited_spec() == old(self).exited_spec(),
            final(self).channel_connected_spec() == old(self).channel_connected_spec(),
            final(self).queue_spec() == old(self).queue_spec(),
            final(self).refresh_interval_spec() == old(self).refresh_interval_spec(),
            final(self).device_type_spec() == old(self).device_type_spec(),
    {
        &mut self.shared_state
    }

    /// Queue a log-level change for the worker.
    pub fn set_log_level(&mut self, level: crate::logging::LevelFilter) -> (r: Result<
        (),
        ThreadError,
    >)
        ensures
            old(self).channel_connected_spec() ==> r is Ok && final(self).queue_spec() == old(self).queue_spec().push(DeviceCommand::SetLogLevel(level)),
            !old(self).channel_connected_spec() ==> r is Err,
            final(self).shared_spec() == old(self).shared_spec(),
    {
        self.send_command(DeviceCommand::SetLogLevel(level))
    }
}

} // verus!
