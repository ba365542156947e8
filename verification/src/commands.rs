//! Commands that can be sent to device worker threads, and the plain
//! configuration records they carry.

use vstd::prelude::*;
use crate::logging::LevelFilter;
use crate::state::DeviceModel;

verus! {

/// The kind of servo attached to a PWM pin, with its calibration points.
#[derive(Debug, Clone, Copy, PartialEq, Eq, Structural)]
pub enum ServoType {
    /// 180-degree servo with calibrated 0 and 180 degree positions
    OneEighty { pos_0: u32, pos_180: u32 },
    /// 360-degree position servo (multi-turn with position feedback)
    ThreeSixtyPosition { pos_0: u32, pos_360: u32 },
    /// 360-degree speed servo (continuous rotation)
    ThreeSixtySpeed { stop: u32, clockwise: u32, anti_clockwise: u32 },
}

/// Servo configuration for a specific pin.
#[derive(Debug, Clone, Copy, PartialEq, Eq, Structural)]
pub struct ServoConfig {
    /// The PWM pin the servo is attached to
    pub pin: u8,
    /// The servo kind and calibration
    pub servo_type: ServoType,
}

impl ServoConfig {
    /// Create a new 180-degree servo configuration.
    pub fn one_eighty(pin: u8, pos_0: u32, pos_180: u32) -> (r: Self)
        ensures
            r == (ServoConfig { pin, servo_type: ServoType::OneEighty { pos_0, pos_180 } }),
    {
        ServoConfig { pin, servo_type: ServoType::OneEighty { pos_0, pos_180 } }
    }

    /// Create a new 360-degree position servo configuration.
    pub fn three_sixty_position(pin: u8, pos_0: u32, pos_360: u32) -> (r: Self)
        ensures
            r == (ServoConfig {
                pin,
                servo_type: ServoType::ThreeSixtyPosition { pos_0, pos_360 },
            }),
    {
        ServoConfig { pin, servo_type: ServoType::ThreeSixtyPosition { pos_0, pos_360 } }
    }

    /// Create a new 360-degree speed servo configuration.
    pub fn three_sixty_speed(pin: u8, stop: u32, clockwise: u32, anti_clockwise: u32) -> (r: Self)
        ensures
            r == (ServoConfig {
                pin,
                servo_type: ServoType::ThreeSixtySpeed { stop, clockwise, anti_clockwise },
            }),
    {
        ServoConfig {
            pin,
            servo_type: ServoType::ThreeSixtySpeed { stop, clockwise, anti_clockwise },
        }
    }
}

/// Configuration of a uSPIBridge daisy chain.
#[derive(Debug, Clone, Copy, PartialEq, Eq, Structural)]
pub struct USPIBridgeConfig {
    /// Number of devices in the daisy chain
    pub device_count: u8,
    /// Default brightness level (0-15)
    pub default_brightness: u8,
    /// Maximum number of virtual devices supported
    pub max_virtual_devices: u8,
}

impl USPIBridgeConfig {
    /// A configuration with the default chain of eight devices.
    pub fn new() -> (r: Self)
        ensures
            r == (USPIBridgeConfig {
                device_count: 8u8,
                default_brightness: 8u8,
                max_virtual_devices: 16u8,
            }),
    {
        USPIBridgeConfig { device_count: 8, default_brightness: 8, max_virtual_devices: 16 }
    }

    /// Set the number of devices in the daisy chain.
    pub fn with_device_count(self, count: u8) -> (r: Self)
        ensures
            r.device_count == count,
            r.default_brightness == self.default_brightness,
            r.max_virtual_devices == self.max_virtual_devices,
    {
        USPIBridgeConfig { device_count: count, ..self }
    }

    /// Set the default brightness level, held at the ceiling of 15.
    pub fn with_default_brightness(self, brightness: u8) -> (r: Self)
        ensures
            r.default_brightness == if brightness <= 15 {
                brightness
            } else {
                15u8
            },
            r.device_count == self.device_count,
            r.max_virtual_devices == self.max_virtual_devices,
    {
        let b = if brightness <= 15 {
            brightness
        } else {
            15
        };
        USPIBridgeConfig { default_brightness: b, ..self }
    }

    /// Set the maximum number of virtual devices.
    pub fn with_max_virtual_devices(self, max_devices: u8) -> (r: Self)
        ensures
            r.max_virtual_devices == max_devices,
            r.device_count == self.device_count,
            r.default_brightness == self.default_brightness,
    {
        USPIBridgeConfig { max_virtual_devices: max_devices, ..self }
    }
}

impl Default for USPIBridgeConfig {
    fn default() -> (r: Self)
        ensures
            r == (USPIBridgeConfig {
                device_count: 8u8,
                default_brightness: 8u8,
                max_virtual_devices: 16u8,
            }),
    {
        USPIBridgeConfig::new()
    }
}

/// Commands that can be sent to device worker threads.
#[derive(Debug)]
pub enum DeviceCommand {
    /// Start the device thread
    Start,
    /// Pause the device thread
    Pause,
    /// Terminate the device thread
    Terminate,
    /// Restart the device thread
    Restart,
    /// Get the current status of the device thread
    GetStatus,
    /// Set a digital output pin
    SetDigitalOutput { pin: u32, value: bool },
    /// Set an analog output
    SetAnalogOutput { pin: u32, value: u32 },
    /// Set PWM duty cycle
    SetPwmDuty { channel: usize, duty: u32 },
    /// Configure a servo
    ConfigureServo { pin: u8, config: ServoConfig },
    /// Set servo angle, in whole degrees
    SetServoAngle { pin: u8, angle: u32 },
    /// Set servo speed, from -100 (full anti-clockwise) to 100
    SetServoSpeed { pin: u8, speed: i32 },
    /// Stop servo
    StopServo { pin: u8 },
    /// I2C write operation
    I2cWrite { address: u8, data: Vec<u8> },
    /// I2C read operation
    I2cRead { address: u8, length: u8 },
    /// I2C write then read operation
    I2cWriteRead { address: u8, write_data: Vec<u8>, read_length: u8 },
    /// I2C bus scan
    I2cScan,
    /// Configure uSPIBridge
    ConfigureUSPIBridge { config: USPIBridgeConfig },
    /// Send uSPIBridge command
    USPIBridgeCommand { command: Vec<u8> },
    /// Bulk set digital outputs
    SetDigitalOutputsBulk { pin_states: Vec<(u32, bool)> },
    /// Bulk set PWM duty cycles
    SetPwmDutiesBulk { channel_duties: Vec<(usize, u32)> },
    /// Bulk read analog inputs
    ReadAnalogInputsBulk { pins: Vec<u32> },
    /// Check pin capability
    CheckPinCapability { pin: u8, capability: String },
    /// Validate pin operation
    ValidatePinOperation { pin: u8, operation: String },
    /// Configure an encoder
    ConfigureEncoder { encoder_index: u32, pin_a: u32, pin_b: u32, enabled: bool, sampling_4x: bool },
    /// Reset a digital counter
    ResetDigitalCounter { pin: u32 },
    /// Set pin function
    SetPinFunction { pin: u32, pin_function: u8 },
    /// Custom command with raw parameters
    Custom { request_type: u8, param1: u8, param2: u8, param3: u8, param4: u8 },
    /// Set log level
    SetLogLevel(LevelFilter),
    /// Update device model
    UpdateModel(DeviceModel),
}

} // verus!
