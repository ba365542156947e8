//! Builder for creating device workers.

use vstd::prelude::*;
use crate::error::ThreadError;
use crate::logging::SimpleLogger;
use crate::state::DeviceSnapshot;
use crate::worker::{DeviceType, DeviceWorkerImpl, NetworkDeviceSummary};

verus! {

/// Builder for creating device workers: collects the thread identifier,
/// refresh interval and logger before the worker is built around an
/// initial hardware snapshot.
pub struct ThreadWorkerBuilder {
    /// Thread ID
    thread_id: u32,
    /// Refresh interval in milliseconds
    refresh_interval: u64,
    /// Logger
    logger: Option<SimpleLogger>,
}

impl ThreadWorkerBuilder {
    /// The thread identifier, for contracts.
    pub closed spec fn thread_id_spec(self) -> u32 {
        self.thread_id
    }

    /// The refresh interval, for contracts.
    pub closed spec fn refresh_interval_spec(self) -> u64 {
        self.refresh_interval
    }

    /// Create a new thread worker builder with the default refresh
    /// interval.
    pub fn new(thread_id: u32) -> (r: Self)
        ensures
            r.thread_id_spec() == thread_id,
            r.refresh_interval_spec() == 100,
    {
        ThreadWorkerBuilder { thread_id, refresh_interval: 100, logger: Option::None }
    }

    /// Set the refresh interval.
    pub fn refresh_interval(self, interval_ms: u64) -> (r: Self)
        ensures
            r.thread_id_spec() == self.thread_id_spec(),
            r.refresh_interval_spec() == interval_ms,
    {
        ThreadWorkerBuilder { refresh_interval: interval_ms, ..self }
    }

    /// Set the logger.
    pub fn with_logger(self, logger: SimpleLogger) -> (r: Self)
        ensures
            r.thread_id_spec() == self.thread_id_spec(),
            r.refresh_interval_spec() == self.refresh_interval_spec(),
    {
        ThreadWorkerBuilder { logger: Option::Some(logger), ..self }
    }

    /// Build a started device worker for a USB device, around the
    /// snapshot the caller read while connecting.
    pub fn build_usb_device(self, device_index: u32, device: &DeviceSnapshot) -> (r: Result<
        DeviceWorkerImpl,
        ThreadError,
    >)
        requires
            device.pins@.len() <= 0xFFFF_FFFF,
            device.encoders@.len() <= 0xFFFF_FFFF,
        ensures
            r matches Ok(w) && w.thread_id_spec() == self.thread_id_spec()
                && w.refresh_interval_spec() == self.refresh_interval_spec()
                && w.device_type_spec() == DeviceType::Usb(device_index) && w.started_spec()
                && !w.exited_spec() && w.channel_connected_spec(),
    {
        let mut worker = DeviceWorkerImpl::new_usb(
            self.thread_id,
            device,
            device_index,
            self.refresh_interval,
        );
        let started = worker.start();
        proof {
            assert(started is Ok);
        }
        Result::Ok(worker)
    }

    /// Build a started device worker for a network device.
    pub fn build_network_device(self, device_summary: NetworkDeviceSummary, device: &DeviceSnapshot)
        -> (r: Result<DeviceWorkerImpl, ThreadError>)
        requires
            device.pins@.len() <= 0xFFFF_FFFF,
            device.encoders@.len() <= 0xFFFF_FFFF,
        ensures
            r matches Ok(w) && w.thread_id_spec() == self.thread_id_spec()
                && w.refresh_interval_spec() == self.refresh_interval_spec()
                && w.device_type_spec() == DeviceType::Network(device_summary) && w.started_spec()
                && !w.exited_spec() && w.channel_connected_spec(),
    {
        let mut worker = DeviceWorkerImpl::new_network(
            self.thread_id,
            device,
            device_summary,
            self.refresh_interval,
        );
        let started = worker.start();
        proof {
            assert(started is Ok);
        }
        Result::Ok(worker)
    }

    /// Build a started device worker for the device with a given serial
    /// number; the caller resolves the serial to a connection route.
    pub fn build_device_by_serial(
        self,
        serial_number: u32,
        device_type: DeviceType,
        device: &DeviceSnapshot,
    ) -> (r: Result<DeviceWorkerImpl, ThreadError>)
        requires
            device.pins@.len() <= 0xFFFF_FFFF,
            device.encoders@.len() <= 0xFFFF_FFFF,
        ensures
            r matches Ok(w) && w.thread_id_spec() == self.thread_id_spec()
                && w.refresh_interval_spec() == self.refresh_interval_spec()
                && w.device_type_spec() == device_type && w.started_spec() && !w.exited_spec()
                && w.channel_connected_spec(),
    {
        let _ = serial_number;
        let mut worker = DeviceWorkerImpl::new(
            self.thread_id,
            device,
            device_type,
            self.refresh_interval,
        );
        let started = worker.start();
        proof {
            assert(started is Ok);
        }
        Result::Ok(worker)
    }
}

} // verus!
