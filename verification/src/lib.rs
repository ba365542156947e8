//! Thread-per-device management for PoKeys I/O boards: a verified core for
//! the shared device state, change notifications, worker command handling,
//! sync cadence and the controller registry.

pub mod builder;
pub mod commands;
pub mod controller;
pub mod controller_builder;
pub mod error;
pub mod logging;
pub mod observer;
pub mod state;
pub mod sync;
pub mod worker;

pub use builder::ThreadWorkerBuilder;
pub use commands::{DeviceCommand, ServoConfig, ServoType, USPIBridgeConfig};
pub use controller::ThreadControllerImpl;
pub use controller_builder::ThreadControllerBuilder;
pub use error::ThreadError;
pub use logging::{LevelFilter, LogLevel, Logger, SimpleLogger, ThreadLogger};
pub use observer::StateObserver;
pub use state::{
    DeviceData, DeviceInfo, DeviceModel, DeviceSnapshot, DeviceState, EncoderData, PinData,
    PwmData, SharedDeviceState, StateChangeType, ThreadStatus,
};
pub use sync::{DeviceSync, SyncReads};
pub use worker::{CommandPlan, DeviceType, DeviceWorkerImpl, HwRequest, NetworkDeviceSummary};
