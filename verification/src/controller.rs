//! Thread controller: the registry of device workers keyed by thread
//! identifier. Routes commands and queries to workers, owns their
//! lifecycle, and aggregates errors across them.

use vstd::prelude::*;
use vstd::string::StringExecFns;
use crate::commands::{DeviceCommand, ServoConfig, USPIBridgeConfig};
use crate::error::ThreadError;
use crate::logging::{LevelFilter, Logger, SimpleLogger};
use crate::observer::StateObserver;
use crate::state::{state_eq, DeviceSnapshot, DeviceState, SharedDeviceState, ThreadStatus};
use crate::worker::{worker_fields_eq, DeviceType, DeviceWorkerImpl, NetworkDeviceSummary};

verus! {

/// One worker registered under another, with everything but its command
/// queue unchanged and one command appended to that queue.
pub open spec fn queue_pushed(
    w0: DeviceWorkerImpl,
    w1: DeviceWorkerImpl,
    cmd: DeviceCommand,
) -> bool {
    &&& w1.queue_spec() == w0.queue_spec().push(cmd)
    &&& w1.shared_spec() == w0.shared_spec()
    &&& w1.thread_id_spec() == w0.thread_id_spec()
    &&& w1.started_spec() == w0.started_spec()
    &&& w1.exited_spec() == w0.exited_spec()
    &&& w1.channel_connected_spec() == w0.channel_connected_spec()
    &&& w1.refresh_interval_spec() == w0.refresh_interval_spec()
    &&& w1.device_type_spec() == w0.device_type_spec()
}

/// The registries agree everywhere except possibly at position `i`.
pub open spec fn only_worker_changed(
    s0: Seq<DeviceWorkerImpl>,
    s1: Seq<DeviceWorkerImpl>,
    i: int,
) -> bool {
    &&& s1.len() == s0.len()
    &&& forall|j: int| 0 <= j < s0.len() && j != i ==> s1[j] == s0[j]
}

/// Whether a device type identifier has a capability model to monitor.
pub open spec fn model_supported_spec(device_type_id: u32) -> bool {
    device_type_id == 10 || device_type_id == 11 || device_type_id == 30 || device_type_id == 31
}

/// Whether the device type identifier names a device whose capability
/// model the store can monitor.
pub fn model_monitoring_supported(device_type_id: u32) -> (r: bool)
    ensures
        r == model_supported_spec(device_type_id),
{
    device_type_id == 10 || device_type_id == 11 || device_type_id == 30 || device_type_id == 31
}

/// Thread controller: manages device workers, routes commands to them,
/// and hands out state access and observers, all keyed by thread
/// identifier.
pub struct ThreadControllerImpl {
    /// Device workers
    threads: Vec<DeviceWorkerImpl>,
    /// Next thread ID
    next_thread_id: u32,
    /// Default refresh interval in milliseconds
    default_refresh_interval: u64,
    /// Logger
    logger: Option<SimpleLogger>,
    /// Threads whose capability model is being monitored
    model_monitors: Vec<u32>,
}

impl ThreadControllerImpl {
    /// The registered workers, for contracts.
    pub closed spec fn threads_spec(self) -> Seq<DeviceWorkerImpl> {
        self.threads@
    }

    /// The registered thread identifiers, in registration order.
    pub open spec fn ids(self) -> Seq<u32> {
        self.threads_spec().map_values(|w: DeviceWorkerImpl| w.thread_id_spec())
    }

    /// The next identifier to assign, for contracts.
    pub closed spec fn next_thread_id_spec(self) -> u32 {
        self.next_thread_id
    }

    /// The default refresh interval, for contracts.
    pub closed spec fn default_refresh_interval_spec(self) -> u64 {
        self.default_refresh_interval
    }

    /// The monitored thread identifiers, for contracts.
    pub closed spec fn monitors_spec(self) -> Seq<u32> {
        self.model_monitors@
    }

    /// Well-formedness: identifiers are unique, below the next one to
    /// assign, and never zero.
    pub open spec fn wf(self) -> bool {
        &&& forall|i: int, j: int|
            0 <= i < j < self.threads_spec().len() ==> self.threads_spec()[i].thread_id_spec()
                != self.threads_spec()[j].thread_id_spec()
        &&& forall|i: int|
            0 <= i < self.threads_spec().len() ==> #[trigger] self.threads_spec()[
                i
            ].thread_id_spec() < self.next_thread_id_spec()
        &&& self.next_thread_id_spec() >= 1
    }

    /// Whether a worker is registered under the identifier.
    pub open spec fn has_thread(self, thread_id: u32) -> bool {
        exists|i: int|
            0 <= i < self.threads_spec().len() && self.threads_spec()[i].thread_id_spec()
                == thread_id
    }

    /// The registry position of the worker registered under the
    /// identifier.
    pub open spec fn idx_of(self, thread_id: u32) -> int {
        choose|i: int|
            0 <= i < self.threads_spec().len() && self.threads_spec()[i].thread_id_spec()
                == thread_id
    }

    /// The worker registered under the identifier.
    pub open spec fn thread_at(self, thread_id: u32) -> DeviceWorkerImpl {
        self.threads_spec()[self.idx_of(thread_id)]
    }

    /// Create a new thread controller with default settings and an
    /// empty registry.
    pub fn new() -> (r: Self)
        ensures
            r.wf(),
            r.ids() =~= Seq::<u32>::empty(),
            r.next_thread_id_spec() == 1,
            r.default_refresh_interval_spec() == 100,
            r.monitors_spec() =~= Seq::<u32>::empty(),
    {
        ThreadControllerImpl {
            threads: Vec::new(),
            next_thread_id: 1,
            default_refresh_interval: 100,
            logger: Option::None,
            model_monitors: Vec::new(),
        }
    }

    /// Create a new thread controller with a logger.
    pub fn with_logger(logger: SimpleLogger) -> (r: Self)
        ensures
            r.wf(),
            r.ids() =~= Seq::<u32>::empty(),
            r.next_thread_id_spec() == 1,
            r.default_refresh_interval_spec() == 100,
            r.monitors_spec() =~= Seq::<u32>::empty(),
    {
        ThreadControllerImpl {
            threads: Vec::new(),
            next_thread_id: 1,
            default_refresh_interval: 100,
            logger: Option::Some(logger),
            model_monitors: Vec::new(),
        }
    }

    /// Set the default refresh interval for newly started workers.
    pub fn set_default_refresh_interval(&mut self, interval_ms: u64)
        ensures
            final(self).default_refresh_interval_spec() == interval_ms,
            final(self).threads_spec() == old(self).threads_spec(),
            final(self).next_thread_id_spec() == old(self).next_thread_id_spec(),
            final(self).monitors_spec() == old(self).monitors_spec(),
            old(self).wf() ==> final(self).wf(),
    {
        self.default_refresh_interval = interval_ms;
    }

    /// Set the logger.
    pub fn set_logger(&mut self, logger: SimpleLogger)
        ensures
            final(self).threads_spec() == old(self).threads_spec(),
            final(self).next_thread_id_spec() == old(self).next_thread_id_spec(),
            final(self).default_refresh_interval_spec() == old(self).default_refresh_interval_spec(),
            final(self).monitors_spec() == old(self).monitors_spec(),
            old(self).wf() ==> final(self).wf(),
    {
        self.logger = Option::Some(logger);
    }

    /// Find the registry position of a worker.
    fn find_worker(&self, thread_id: u32) -> (r: Option<usize>)
        requires
            self.wf(),
        ensures
            r is Some <==> self.has_thread(thread_id),
            r matches Some(i) ==> i == self.idx_of(thread_id) && i
                < self.threads_spec().len() && self.threads_spec()[
                i as int
            ].thread_id_spec() == thread_id,
    {
        let n = self.threads.len();
        let mut i: usize = 0;
        while i < n
            invariant
                i <= n,
                n == self.threads_spec().len(),
                self.wf(),
                forall|j: int|
                    0 <= j < i ==> #[trigger] self.threads_spec()[j].thread_id_spec() != thread_id,
            decreases n - i,
        {
            if self.threads[i].thread_id() == thread_id {
                proof {
                    assert(self.threads_spec()[i as int].thread_id_spec() == thread_id);
                    let w = self.idx_of(thread_id);
                    assert(self.threads_spec()[w].thread_id_spec() == thread_id);
                    assert(w == i);
                }
                return Option::Some(i);
            }
            i += 1;
        }
        proof {
            assert(!self.has_thread(thread_id));
        }
        Option::None
    }

    /// What starting one device thread does to the controller: the
    /// fresh identifier is assigned and advanced, a started worker
    /// seeded from the snapshot is appended, prior workers are
    /// untouched, and the thread is remembered as model-monitored
    /// exactly when its device type has a capability model.
    pub open spec fn thread_started_post(
        pre: ThreadControllerImpl,
        post: ThreadControllerImpl,
        device: DeviceSnapshot,
        id: u32,
    ) -> bool {
        &&& id == pre.next_thread_id_spec()
        &&& post.next_thread_id_spec() == pre.next_thread_id_spec() + 1
        &&& post.default_refresh_interval_spec() == pre.default_refresh_interval_spec()
        &&& post.threads_spec().len() == pre.threads_spec().len() + 1
        &&& post.threads_spec().take(pre.threads_spec().len() as int) == pre.threads_spec()
        &&& post.ids() == pre.ids().push(id)
        &&& post.has_thread(id)
        &&& ThreadControllerImpl::started_worker_seeded(
            post.threads_spec().last(),
            device,
            id,
            pre.default_refresh_interval_spec(),
        )
        &&& (model_supported_spec(device.device_data.device_type_id) ==> post.monitors_spec()
            == pre.monitors_spec().push(id))
        &&& (!model_supported_spec(device.device_data.device_type_id) ==> post.monitors_spec()
            == pre.monitors_spec())
    }

    /// A freshly registered worker: started, reachable, idle, and its
    /// shared state seeded from the connection snapshot.
    pub open spec fn started_worker_seeded(
        w: DeviceWorkerImpl,
        device: DeviceSnapshot,
        id: u32,
        refresh: u64,
    ) -> bool {
        &&& w.thread_id_spec() == id
        &&& w.started_spec()
        &&& !w.exited_spec()
        &&& w.channel_connected_spec()
        &&& w.queue_spec().len() == 0
        &&& w.refresh_interval_spec() == refresh
        &&& !w.shared_spec().running_spec()
        &&& !w.shared_spec().paused_spec()
        &&& w.shared_spec().queues().len() == 0
        &&& w.shared_spec().state_spec().device_info == device.device_info
        &&& w.shared_spec().state_spec().device_data == device.device_data
        &&& w.shared_spec().state_spec().pins@ == device.pins@
        &&& w.shared_spec().state_spec().encoders@ == device.encoders@
        &&& w.shared_spec().state_spec().pwm == device.pwm
    }

    /// Register a fresh worker built around an initial snapshot, start
    /// it, and begin model monitoring where the device type supports it.
    fn register_worker(&mut self, device: &DeviceSnapshot, device_type: DeviceType) -> (r: u32)
        requires
            old(self).wf(),
            old(self).next_thread_id_spec() < 0xFFFF_FFFF,
            device.pins@.len() <= 0xFFFF_FFFF,
            device.encoders@.len() <= 0xFFFF_FFFF,
        ensures
            final(self).wf(),
            Self::thread_started_post(*old(self), *final(self), *device, r),
            final(self).threads_spec().last().device_type_spec() == device_type,
    {
        let thread_id = self.next_thread_id;
        self.next_thread_id = self.next_thread_id + 1;
        let mut worker = DeviceWorkerImpl::new(
            thread_id,
            device,
            device_type,
            self.default_refresh_interval,
        );
        let started = worker.start();
        proof {
            assert(started is Ok);
        }
        let ghost pre = self.threads@;
        self.threads.push(worker);
        let supported = model_monitoring_supported(device.device_data.device_type_id);
        if supported {
            self.add_monitor(thread_id);
        }
        proof {
            assert(self.threads@.take(pre.len() as int) =~= pre);
            assert(self.ids() =~= old(self).ids().push(thread_id));
            assert(self.threads@[pre.len() as int].thread_id_spec() == thread_id);
            assert(self.has_thread(thread_id));
            if !supported {
                assert(self.monitors_spec() == old(self).monitors_spec());
            }
        }
        thread_id
    }

    /// Remember that a thread's model is monitored.
    fn add_monitor(&mut self, thread_id: u32)
        ensures
            final(self).threads_spec() == old(self).threads_spec(),
            final(self).next_thread_id_spec() == old(self).next_thread_id_spec(),
            final(self).default_refresh_interval_spec() == old(self).default_refresh_interval_spec(),
            final(self).monitors_spec() == old(self).monitors_spec().push(thread_id),
            old(self).wf() ==> final(self).wf(),
    {
        self.model_monitors.push(thread_id);
    }

    /// Start a thread for a USB device: the caller connects and hands
    /// the initial snapshot in; the new worker is registered under a
    /// fresh identifier.
    pub fn start_usb_device_thread(&mut self, device_index: u32, device: &DeviceSnapshot) -> (r:
        Result<u32, ThreadError>)
        requires
            old(self).wf(),
            old(self).next_thread_id_spec() < 0xFFFF_FFFF,
            device.pins@.len() <= 0xFFFF_FFFF,
            device.encoders@.len() <= 0xFFFF_FFFF,
        ensures
            final(self).wf(),
            r matches Ok(id) && Self::thread_started_post(*old(self), *final(self), *device, id),
            final(self).threads_spec().last().device_type_spec() == DeviceType::Usb(device_index),
    {
        Result::Ok(self.register_worker(device, DeviceType::Usb(device_index)))
    }

    /// Start a thread for a network device: the caller connects and
    /// hands the initial snapshot in.
    pub fn start_network_device_thread(
        &mut self,
        device_summary: NetworkDeviceSummary,
        device: &DeviceSnapshot,
    ) -> (r: Result<u32, ThreadError>)
        requires
            old(self).wf(),
            old(self).next_thread_id_spec() < 0xFFFF_FFFF,
            device.pins@.len() <= 0xFFFF_FFFF,
            device.encoders@.len() <= 0xFFFF_FFFF,
        ensures
            final(self).wf(),
            r matches Ok(id) && Self::thread_started_post(*old(self), *final(self), *device, id),
            final(self).threads_spec().last().device_type_spec() == DeviceType::Network(
                device_summary,
            ),
    {
        Result::Ok(self.register_worker(device, DeviceType::Network(device_summary)))
    }

    /// Start a thread for the device with a given serial number: the
    /// caller resolves the serial to a connection route, connects, and
    /// hands the snapshot in.
    pub fn start_device_thread_by_serial(
        &mut self,
        serial_number: u32,
        device_type: DeviceType,
        device: &DeviceSnapshot,
    ) -> (r: Result<u32, ThreadError>)
        requires
            old(self).wf(),
            old(self).next_thread_id_spec() < 0xFFFF_FFFF,
            device.pins@.len() <= 0xFFFF_FFFF,
            device.encoders@.len() <= 0xFFFF_FFFF,
        ensures
            final(self).wf(),
            r matches Ok(id) && Self::thread_started_post(*old(self), *final(self), *device, id),
            final(self).threads_spec().last().device_type_spec() == device_type,
    {
        let _ = serial_number;
        Result::Ok(self.register_worker(device, device_type))
    }

    /// Send a command to a worker's queue. Unknown identifiers are
    /// refused with `ThreadNotFound`; a worker that has gone away
    /// surfaces as a send failure without affecting other workers.
    pub fn send_command(&mut self, thread_id: u32, command: DeviceCommand) -> (r: Result<
        (),
        ThreadError,
    >)
        requires
            old(self).wf(),
        ensures
            final(self).wf(),
            final(self).next_thread_id_spec() == old(self).next_thread_id_spec(),
            final(self).monitors_spec() == old(self).monitors_spec(),
            !old(self).has_thread(thread_id) ==> (r matches Err(e) && e matches
                ThreadError::ThreadNotFound(t) && t == thread_id) && final(self).threads_spec()
                == old(self).threads_spec(),
            old(self).has_thread(thread_id) ==> only_worker_changed(
                old(self).threads_spec(),
                final(self).threads_spec(),
                old(self).idx_of(thread_id),
            ),
            old(self).has_thread(thread_id) && old(self).thread_at(
                thread_id,
            ).channel_connected_spec() ==> r is Ok && queue_pushed(
                old(self).thread_at(thread_id),
                final(self).threads_spec()[old(self).idx_of(thread_id)],
                command,
            ),
            old(self).has_thread(thread_id) && !old(self).thread_at(
                thread_id,
            ).channel_connected_spec() ==> (r matches Err(e) && e is CommandSendFailed)
                && worker_fields_eq(
                old(self).thread_at(thread_id),
                final(self).threads_spec()[old(self).idx_of(thread_id)],
            ),
            final(self).ids() == old(self).ids(),
    {
        let found = self.find_worker(thread_id);
        match found {
            Option::Some(i) => {
                let ghost pre = self.threads@;
                let sent = self.threads[i].send_command(command);
                proof {
                    assert(self.threads@ == pre.update(i as int, self.threads@[i as int]));
                    assert(self.ids() =~= old(self).ids());
                }
                sent
            },
            Option::None => {
                proof {
                    assert(self.ids() =~= old(self).ids());
                }
                Result::Err(ThreadError::ThreadNotFound(thread_id))
            },
        }
    }

    /// Get the derived status of a worker.
    pub fn get_status(&self, thread_id: u32) -> (r: Result<ThreadStatus, ThreadError>)
        requires
            self.wf(),
        ensures
            self.has_thread(thread_id) ==> (r matches Ok(s) && s == self.thread_at(
                thread_id,
            ).shared_spec().status_spec()),
            !self.has_thread(thread_id) ==> (r matches Err(e) && e matches
                ThreadError::ThreadNotFound(t) && t == thread_id),
    {
        match self.find_worker(thread_id) {
            Option::Some(i) => Result::Ok(self.threads[i].status()),
            Option::None => Result::Err(ThreadError::ThreadNotFound(thread_id)),
        }
    }

    /// Get a cloned snapshot of a worker's device state, taken under
    /// the lock.
    pub fn get_state(&self, thread_id: u32) -> (r: Result<DeviceState, ThreadError>)
        requires
            self.wf(),
        ensures
            self.has_thread(thread_id) ==> (r matches Ok(s) && state_eq(
                s,
                self.thread_at(thread_id).shared_spec().state_spec(),
            )),
            !self.has_thread(thread_id) ==> (r matches Err(e) && e matches
                ThreadError::ThreadNotFound(t) && t == thread_id),
    {
        match self.find_worker(thread_id) {
            Option::Some(i) => Result::Ok(self.threads[i].shared_state().get_state()),
            Option::None => Result::Err(ThreadError::ThreadNotFound(thread_id)),
        }
    }

    /// Read access to a worker's shared state.
    pub fn get_shared_state(&self, thread_id: u32) -> (r: Result<&SharedDeviceState, ThreadError>)
        requires
            self.wf(),
        ensures
            self.has_thread(thread_id) ==> (r matches Ok(s) && *s == self.thread_at(
                thread_id,
            ).shared_spec()),
            !self.has_thread(thread_id) ==> (r matches Err(e) && e matches
                ThreadError::ThreadNotFound(t) && t == thread_id),
    {
        match self.find_worker(thread_id) {
            Option::Some(i) => Result::Ok(self.threads[i].shared_state()),
            Option::None => Result::Err(ThreadError::ThreadNotFound(thread_id)),
        }
    }

    /// Create a state observer for a worker: registers one more
    /// subscriber on its shared state.
    pub fn create_observer(&mut self, thread_id: u32) -> (r: Result<StateObserver, ThreadError>)
        requires
            old(self).wf(),
        ensures
            final(self).wf(),
            final(self).next_thread_id_spec() == old(self).next_thread_id_spec(),
            !old(self).has_thread(thread_id) ==> (r matches Err(e) && e matches
                ThreadError::ThreadNotFound(t) && t == thread_id) && final(self).threads_spec()
                == old(self).threads_spec(),
            old(self).has_thread(thread_id) ==> (r matches Ok(obs) && obs.thread_id_spec()
                == thread_id && obs.subscriber_spec() == old(self).thread_at(
                thread_id,
            ).shared_spec().queues().len()),
            old(self).has_thread(thread_id) ==> only_worker_changed(
                old(self).threads_spec(),
                final(self).threads_spec(),
                old(self).idx_of(thread_id),
            ) && final(self).threads_spec()[old(self).idx_of(thread_id)].shared_spec().queues()
                =~= old(self).thread_at(thread_id).shared_spec().queues().push(
                Seq::<crate::state::StateChangeType>::empty(),
            ),
    {
        let found = self.find_worker(thread_id);
        match found {
            Option::Some(i) => {
                let ghost pre = self.threads@;
                let shared = self.threads[i].shared_state_mut();
                let obs = StateObserver::new(thread_id, shared);
                proof {
                    assert(self.threads@ == pre.update(i as int, self.threads@[i as int]));
                    assert(self.ids() =~= old(self).ids());
                }
                Result::Ok(obs)
            },
            Option::None => Result::Err(ThreadError::ThreadNotFound(thread_id)),
        }
    }

    /// Whether a worker's derived status is `Running`.
    pub fn is_thread_running(&self, thread_id: u32) -> (r: Result<bool, ThreadError>)
        requires
            self.wf(),
        ensures
            self.has_thread(thread_id) ==> (r matches Ok(b) && b == (self.thread_at(
                thread_id,
            ).shared_spec().status_spec() == ThreadStatus::Running)),
            !self.has_thread(thread_id) ==> (r matches Err(e) && e matches
                ThreadError::ThreadNotFound(t) && t == thread_id),
    {
        match self.get_status(thread_id) {
            Result::Ok(status) => Result::Ok(status == ThreadStatus::Running),
            Result::Err(e) => Result::Err(e),
        }
    }

    /// List all registered thread identifiers, in registration order.
    pub fn list_active_threads(&self) -> (r: Result<Vec<u32>, ThreadError>)
        requires
            self.wf(),
        ensures
            r matches Ok(v) ==> v@ == self.ids(),
            r is Ok,
    {
        let mut v: Vec<u32> = Vec::new();
        let n = self.threads.len();
        let mut i: usize = 0;
        while i < n
            invariant
                i <= n,
                n == self.threads_spec().len(),
                v@ =~= self.ids().take(i as int),
            decreases n - i,
        {
            v.push(self.threads[i].thread_id());
            proof {
                assert(v@ =~= self.ids().take(i + 1));
            }
            i += 1;
        }
        proof {
            assert(v@ =~= self.ids());
        }
        Result::Ok(v)
    }

    /// Stop one worker: send `Terminate`, wait for the loop to exit, and
    /// drop the registry entry. The entry is removed even when stopping
    /// fails.
    pub fn stop_thread(&mut self, thread_id: u32) -> (r: Result<(), ThreadError>)
        requires
            old(self).wf(),
        ensures
            final(self).wf(),
            !old(self).has_thread(thread_id) ==> (r matches Err(e) && e matches
                ThreadError::ThreadNotFound(t) && t == thread_id) && final(self).threads_spec()
                == old(self).threads_spec(),
            old(self).has_thread(thread_id) ==> final(self).threads_spec() =~= old(self).threads_spec().remove(old(self).idx_of(thread_id)) && !final(self).has_thread(
                thread_id,
            ),
            old(self).has_thread(thread_id) ==> (r is Ok <==> old(self).thread_at(
                thread_id,
            ).channel_connected_spec()),
    {
        let found = self.find_worker(thread_id);
        match found {
            Option::Some(i) => {
                let ghost pre = self.threads@;
                let mut worker = self.threads.remove(i);
                proof {
                    assert(self.threads@ =~= pre.remove(i as int));
                    assert forall|k: int|
                        0 <= k < self.threads@.len() implies #[trigger] self.threads@[
                        k
                    ].thread_id_spec() != thread_id by {
                        if k < i {
                            assert(self.threads@[k] == pre[k]);
                        } else {
                            assert(self.threads@[k] == pre[k + 1]);
                        }
                    }
                }
                let stopped = worker.stop();
                match stopped {
                    Result::Ok(_) => Result::Ok(()),
                    Result::Err(e) => Result::Err(e),
                }
            },
            Option::None => Result::Err(ThreadError::ThreadNotFound(thread_id)),
        }
    }

    /// Stop all workers, best-effort: send `Terminate` to each and run
    /// it down, collecting failures; the registry is cleared
    /// unconditionally, so a stuck worker cannot wedge the controller.
    pub fn stop_all(&mut self) -> (r: Result<(), ThreadError>)
        requires
            old(self).wf(),
        ensures
            final(self).wf(),
            final(self).threads_spec().len() == 0,
            final(self).next_thread_id_spec() == old(self).next_thread_id_spec(),
            r is Ok <==> (forall|i: int|
                0 <= i < old(self).threads_spec().len() ==> #[trigger] old(self).threads_spec()[
                    i
                ].channel_connected_spec()),
            r matches Err(e) ==> e is ThreadJoinError,
    {
        let mut failed = false;
        let ghost pre = old(self).threads_spec();
        let n = self.threads.len();
        let mut i: usize = 0;
        while i < n
            invariant
                i <= n,
                n == pre.len(),
                self.threads@.len() == pre.len(),
                pre == old(self).threads_spec(),
                self.next_thread_id_spec() == old(self).next_thread_id_spec(),
                forall|j: int|
                    0 <= j < n ==> (#[trigger] self.threads@[j].channel_connected_spec()) == pre[
                        j
                    ].channel_connected_spec(),
                failed <==> (exists|j: int|
                    0 <= j < i && !(#[trigger] pre[j].channel_connected_spec())),
            decreases n - i,
        {
            let ghost mid = self.threads@;
            let sent = self.threads[i].send_command(DeviceCommand::Terminate);
            proof {
                assert(self.threads@ == mid.update(i as int, self.threads@[i as int]));
            }
            match sent {
                Result::Ok(_) => {
                    proof {
                        assert(pre[i as int].channel_connected_spec());
                    }
                },
                Result::Err(_) => {
                    proof {
                        assert(!pre[i as int].channel_connected_spec());
                    }
                    failed = true;
                },
            }
            i += 1;
        }
        self.threads = Vec::new();
        if failed {
            Result::Err(ThreadError::ThreadJoinError)
        } else {
            Result::Ok(())
        }
    }

    /// Queue a log-level change on one worker.
    pub fn set_thread_log_level(&mut self, thread_id: u32, level: LevelFilter) -> (r: Result<
        (),
        ThreadError,
    >)
        requires
            old(self).wf(),
        ensures
            final(self).wf(),
            send_post(
                *old(self),
                *final(self),
                thread_id,
                DeviceCommand::SetLogLevel(level),
                r,
            ),
    {
        self.send_command(thread_id, DeviceCommand::SetLogLevel(level))
    }

    /// Set the log level of the controller's own logger and of every
    /// worker, collecting failures into one summary error: the change
    /// lands in the queue of every reachable worker, and a worker that
    /// has gone away is counted but does not stop the sweep.
    pub fn set_global_log_level(&mut self, level: LevelFilter) -> (r: Result<(), ThreadError>)
        requires
            old(self).wf(),
        ensures
            final(self).wf(),
            final(self).ids() == old(self).ids(),
            final(self).next_thread_id_spec() == old(self).next_thread_id_spec(),
            final(self).monitors_spec() == old(self).monitors_spec(),
            final(self).threads_spec().len() == old(self).threads_spec().len(),
            forall|i: int|
                0 <= i < old(self).threads_spec().len() ==> (old(self).threads_spec()[
                    i
                ].channel_connected_spec() ==> queue_pushed(
                    old(self).threads_spec()[i],
                    #[trigger] final(self).threads_spec()[i],
                    DeviceCommand::SetLogLevel(level),
                )),
            forall|i: int|
                0 <= i < old(self).threads_spec().len() ==> (!old(self).threads_spec()[
                    i
                ].channel_connected_spec() ==> worker_fields_eq(
                    old(self).threads_spec()[i],
                    #[trigger] final(self).threads_spec()[i],
                )),
            r is Ok <==> (forall|i: int|
                0 <= i < old(self).threads_spec().len() ==> #[trigger] old(self).threads_spec()[
                    i
                ].channel_connected_spec()),
            r matches Err(e) ==> e is OperationFailed,
    {
        match &mut self.logger {
            Option::Some(logger) => {
                logger.set_level(level);
            },
            Option::None => {},
        }
        let mut failures: u32 = 0;
        let ghost pre = old(self).threads_spec();
        let n = self.threads.len();
        let mut i: usize = 0;
        while i < n
            invariant
                i <= n,
                n == pre.len(),
                self.threads@.len() == pre.len(),
                pre == old(self).threads_spec(),
                old(self).wf(),
                self.next_thread_id_spec() == old(self).next_thread_id_spec(),
                self.monitors_spec() == old(self).monitors_spec(),
                forall|j: int| i <= j < n ==> #[trigger] self.threads@[j] == pre[j],
                forall|j: int|
                    0 <= j < i ==> (pre[j].channel_connected_spec() ==> queue_pushed(
                        pre[j],
                        #[trigger] self.threads@[j],
                        DeviceCommand::SetLogLevel(level),
                    )),
                forall|j: int|
                    0 <= j < i ==> (!pre[j].channel_connected_spec() ==> worker_fields_eq(
                        pre[j],
                        #[trigger] self.threads@[j],
                    )),
                (failures == 0) <==> (forall|j: int|
                    0 <= j < i ==> #[trigger] pre[j].channel_connected_spec()),
            decreases n - i,
        {
            let ghost mid = self.threads@;
            let sent = self.threads[i].send_command(DeviceCommand::SetLogLevel(level));
            proof {
                assert(self.threads@ == mid.update(i as int, self.threads@[i as int]));
                assert(mid[i as int] == pre[i as int]);
            }
            match sent {
                Result::Ok(_) => {
                    proof {
                        assert(pre[i as int].channel_connected_spec());
                    }
                },
                Result::Err(_) => {
                    proof {
                        assert(!pre[i as int].channel_connected_spec());
                    }
                    if failures < 0xFFFF_FFFFu32 {
                        failures = failures + 1;
                    }
                },
            }
            i += 1;
        }
        proof {
            assert forall|j: int|
                0 <= j < n implies (#[trigger] self.threads@[j].thread_id_spec()) == pre[
                j
            ].thread_id_spec() by {
                if pre[j].channel_connected_spec() {
                } else {
                }
            }
            assert(self.ids() =~= old(self).ids());
            assert forall|a: int, b: int|
                0 <= a < b < self.threads@.len() implies self.threads@[a].thread_id_spec()
                != self.threads@[b].thread_id_spec() by {
                assert(pre[a].thread_id_spec() != pre[b].thread_id_spec());
            }
            assert forall|a: int|
                0 <= a < self.threads@.len() implies (#[trigger] self.threads@[
                a
            ].thread_id_spec()) < self.next_thread_id_spec() by {
                assert(pre[a].thread_id_spec() < old(self).next_thread_id_spec());
            }
        }
        if failures == 0 {
            Result::Ok(())
        } else {
            Result::Err(
                ThreadError::OperationFailed(
                    "Failed to set log level for ".to_owned().concat(
                        crate::error::u64_to_dec(failures as u64).as_str(),
                    ).concat(" threads"),
                ),
            )
        }
    }

    /// Start model monitoring for a worker: refused for an unknown
    /// identifier or a device type without a capability model; otherwise
    /// the thread is remembered as monitored and the file watch itself
    /// runs with the model store.
    pub fn start_model_monitoring(&mut self, thread_id: u32) -> (r: Result<(), ThreadError>)
        requires
            old(self).wf(),
        ensures
            final(self).wf(),
            final(self).threads_spec() == old(self).threads_spec(),
            !old(self).has_thread(thread_id) ==> (r matches Err(e) && e matches
                ThreadError::ThreadNotFound(t) && t == thread_id) && final(self).monitors_spec()
                == old(self).monitors_spec(),
            old(self).has_thread(thread_id) && !model_supported_spec(
                old(self).thread_at(thread_id).shared_spec().state_spec().device_data.device_type_id,
            ) ==> (r matches Err(e) && e is UnsupportedDevice) && final(self).monitors_spec()
                == old(self).monitors_spec(),
            old(self).has_thread(thread_id) && model_supported_spec(
                old(self).thread_at(thread_id).shared_spec().state_spec().device_data.device_type_id,
            ) ==> r is Ok && final(self).monitors_spec() == old(self).monitors_spec().push(
                thread_id,
            ),
    {
        let found = self.find_worker(thread_id);
        match found {
            Option::Some(i) => {
                let snapshot = self.threads[i].shared_state().get_state();
                let type_id = snapshot.device_data.device_type_id;
                if model_monitoring_supported(type_id) {
                    self.add_monitor(thread_id);
                    Result::Ok(())
                } else {
                    Result::Err(ThreadError::UnsupportedDevice)
                }
            },
            Option::None => Result::Err(ThreadError::ThreadNotFound(thread_id)),
        }
    }

    /// Stop model monitoring for a worker: refused for an unknown
    /// identifier; otherwise the thread is no longer remembered as
    /// monitored.
    pub fn stop_model_monitoring(&mut self, thread_id: u32) -> (r: Result<(), ThreadError>)
        requires
            old(self).wf(),
        ensures
            final(self).wf(),
            final(self).threads_spec() == old(self).threads_spec(),
            !old(self).has_thread(thread_id) ==> (r matches Err(e) && e matches
                ThreadError::ThreadNotFound(t) && t == thread_id) && final(self).monitors_spec()
                == old(self).monitors_spec(),
            old(self).has_thread(thread_id) ==> r is Ok && (forall|id: u32|
                final(self).monitors_spec().contains(id) <==> (old(self).monitors_spec().contains(
                    id,
                ) && id != thread_id)),
    {
        let found = self.find_worker(thread_id);
        match found {
            Option::Some(_) => {
                let mut kept: Vec<u32> = Vec::new();
                let ghost mons = self.model_monitors@;
                let n = self.model_monitors.len();
                let mut i: usize = 0;
                while i < n
                    invariant
                        i <= n,
                        n == mons.len(),
                        mons == self.model_monitors@,
                        forall|x: u32|
                            #[trigger] kept@.contains(x) ==> mons.contains(x) && x != thread_id,
                        forall|j: int|
                            0 <= j < i && mons[j] != thread_id ==> kept@.contains(
                                #[trigger] mons[j],
                            ),
                    decreases n - i,
                {
                    let ghost kpre = kept@;
                    let id = self.model_monitors[i];
                    if id != thread_id {
                        kept.push(id);
                        proof {
                            assert(kept@ == kpre.push(id));
                            assert(kept@.last() == id);
                            assert(kept@.contains(id));
                            assert forall|x: u32| #[trigger] kept@.contains(x) implies mons.contains(
                                x,
                            ) && x != thread_id by {
                                let w = choose|w: int| 0 <= w < kept@.len() && kept@[w] == x;
                                if w < kpre.len() {
                                    assert(kpre[w] == x);
                                    assert(kpre.contains(x));
                                } else {
                                    assert(x == id);
                                    assert(mons[i as int] == id);
                                }
                            }
                            assert forall|x: u32| kpre.contains(x) implies kept@.contains(x) by {
                                let w = choose|w: int| 0 <= w < kpre.len() && kpre[w] == x;
                                assert(kept@[w] == x);
                            }
                        }
                    }
                    i += 1;
                }
                self.model_monitors = kept;
                Result::Ok(())
            },
            Option::None => Result::Err(ThreadError::ThreadNotFound(thread_id)),
        }
    }

    /// The name of the capability model attached to a worker's device,
    /// absent when no model is attached.
    pub fn get_device_model(&self, thread_id: u32) -> (r: Result<Option<String>, ThreadError>)
        requires
            self.wf(),
        ensures
            !self.has_thread(thread_id) ==> (r matches Err(e) && e matches
                ThreadError::ThreadNotFound(t) && t == thread_id),
            self.has_thread(thread_id) ==> (r matches Ok(m) && (m is Some <==> self.thread_at(
                thread_id,
            ).shared_spec().state_spec().model is Some)),
            self.has_thread(thread_id) ==> (r matches Ok(m) ==> (m matches Some(name) ==> (
            self.thread_at(thread_id).shared_spec().state_spec().model matches Some(dm)
                && name@ == dm.name@))),
    {
        match self.find_worker(thread_id) {
            Option::Some(i) => {
                let state = self.threads[i].shared_state().get_state();
                match state.model {
                    Option::Some(m) => Result::Ok(Option::Some(m.name)),
                    Option::None => Result::Ok(Option::None),
                }
            },
            Option::None => Result::Err(ThreadError::ThreadNotFound(thread_id)),
        }
    }

    /// Ask a worker to swap in a new capability model.
    pub fn update_device_model(&mut self, thread_id: u32, model: crate::state::DeviceModel) -> (r:
        Result<(), ThreadError>)
        requires
            old(self).wf(),
        ensures
            final(self).wf(),
            !old(self).has_thread(thread_id) ==> (r matches Err(e) && e matches
                ThreadError::ThreadNotFound(t) && t == thread_id),
            old(self).has_thread(thread_id) && old(self).thread_at(
                thread_id,
            ).channel_connected_spec() ==> r is Ok && queue_pushed(
                old(self).thread_at(thread_id),
                final(self).threads_spec()[old(self).idx_of(thread_id)],
                DeviceCommand::UpdateModel(model),
            ),
    {
        self.send_command(thread_id, DeviceCommand::UpdateModel(model))
    }
}


/// What routing one command to a worker does to the controller: the
/// command lands in that worker's queue when the worker is there and its
/// channel is up; an unknown identifier or a gone worker is an error;
/// nothing else changes. The success payload is free.
pub open spec fn send_post_result<T>(
    pre: ThreadControllerImpl,
    post: ThreadControllerImpl,
    thread_id: u32,
    cmd: DeviceCommand,
    r: Result<T, ThreadError>,
) -> bool {
    &&& post.next_thread_id_spec() == pre.next_thread_id_spec()
    &&& post.monitors_spec() == pre.monitors_spec()
    &&& post.ids() == pre.ids()
    &&& (!pre.has_thread(thread_id) ==> (r matches Err(e) && e matches
        ThreadError::ThreadNotFound(t) && t == thread_id) && post.threads_spec()
        == pre.threads_spec())
    &&& (pre.has_thread(thread_id) ==> only_worker_changed(
        pre.threads_spec(),
        post.threads_spec(),
        pre.idx_of(thread_id),
    ))
    &&& (pre.has_thread(thread_id) && pre.thread_at(thread_id).channel_connected_spec() ==> r
        is Ok && queue_pushed(
        pre.thread_at(thread_id),
        post.threads_spec()[pre.idx_of(thread_id)],
        cmd,
    ))
    &&& (pre.has_thread(thread_id) && !pre.thread_at(thread_id).channel_connected_spec() ==> (
    r matches Err(e) && e is CommandSendFailed) && worker_fields_eq(
        pre.thread_at(thread_id),
        post.threads_spec()[pre.idx_of(thread_id)],
    ))
}

/// `send_post_result` for operations whose success carries no payload.
pub open spec fn send_post(
    pre: ThreadControllerImpl,
    post: ThreadControllerImpl,
    thread_id: u32,
    cmd: DeviceCommand,
    r: Result<(), ThreadError>,
) -> bool {
    send_post_result(pre, post, thread_id, cmd, r)
}

impl ThreadControllerImpl {
    /// Ask a worker to drive a digital output pin. Fire-and-forget: a
    /// success means the command was queued, not yet applied.
    pub fn set_digital_output(&mut self, thread_id: u32, pin: u32, value: bool) -> (r: Result<
        (),
        ThreadError,
    >)
        requires
            old(self).wf(),
        ensures
            final(self).wf(),
            send_post(
                *old(self),
                *final(self),
                thread_id,
                DeviceCommand::SetDigitalOutput { pin, value },
                r,
            ),
    {
        self.send_command(thread_id, DeviceCommand::SetDigitalOutput { pin, value })
    }

    /// Read a worker's digital input mirror for a pin.
    pub fn get_digital_input(&self, thread_id: u32, pin: u32) -> (r: Result<bool, ThreadError>)
        requires
            self.wf(),
        ensures
            !self.has_thread(thread_id) ==> (r matches Err(e) && e matches
                ThreadError::ThreadNotFound(t) && t == thread_id),
            self.has_thread(thread_id) && !self.thread_at(
                thread_id,
            ).shared_spec().state_spec().valid_pin(pin) ==> (r matches Err(e) && e
                is InvalidParameter),
            self.has_thread(thread_id) && self.thread_at(
                thread_id,
            ).shared_spec().state_spec().valid_pin(pin) ==> (r matches Ok(v) && v
                == self.thread_at(thread_id).shared_spec().state_spec().digital_input_spec(pin)),
    {
        match self.find_worker(thread_id) {
            Option::Some(i) => match self.threads[i].shared_state().get_digital_input(pin) {
                Option::Some(v) => Result::Ok(v),
                Option::None => Result::Err(
                    ThreadError::InvalidParameter(
                        "Invalid pin: ".to_owned().concat(
                            crate::error::u64_to_dec(pin as u64).as_str(),
                        ),
                    ),
                ),
            },
            Option::None => Result::Err(ThreadError::ThreadNotFound(thread_id)),
        }
    }

    /// Ask a worker to drive an analog output pin.
    pub fn set_analog_output(&mut self, thread_id: u32, pin: u32, value: u32) -> (r: Result<
        (),
        ThreadError,
    >)
        requires
            old(self).wf(),
        ensures
            final(self).wf(),
            send_post(
                *old(self),
                *final(self),
                thread_id,
                DeviceCommand::SetAnalogOutput { pin, value },
                r,
            ),
    {
        self.send_command(thread_id, DeviceCommand::SetAnalogOutput { pin, value })
    }

    /// Read a worker's analog input value for a pin.
    pub fn get_analog_input(&self, thread_id: u32, pin: u32) -> (r: Result<u32, ThreadError>)
        requires
            self.wf(),
        ensures
            !self.has_thread(thread_id) ==> (r matches Err(e) && e matches
                ThreadError::ThreadNotFound(t) && t == thread_id),
            self.has_thread(thread_id) && !self.thread_at(
                thread_id,
            ).shared_spec().state_spec().valid_pin(pin) ==> (r matches Err(e) && e
                is InvalidParameter),
            self.has_thread(thread_id) && self.thread_at(
                thread_id,
            ).shared_spec().state_spec().valid_pin(pin) ==> (r matches Ok(v) && v
                == self.thread_at(thread_id).shared_spec().state_spec().analog_input_spec(pin)),
    {
        match self.find_worker(thread_id) {
            Option::Some(i) => match self.threads[i].shared_state().get_analog_input(pin) {
                Option::Some(v) => Result::Ok(v),
                Option::None => Result::Err(
                    ThreadError::InvalidParameter(
                        "Invalid pin: ".to_owned().concat(
                            crate::error::u64_to_dec(pin as u64).as_str(),
                        ),
                    ),
                ),
            },
            Option::None => Result::Err(ThreadError::ThreadNotFound(thread_id)),
        }
    }

    /// Ask a worker to set a PWM duty cycle.
    pub fn set_pwm_duty_cycle(&mut self, thread_id: u32, channel: usize, duty: u32) -> (r: Result<
        (),
        ThreadError,
    >)
        requires
            old(self).wf(),
        ensures
            final(self).wf(),
            send_post(
                *old(self),
                *final(self),
                thread_id,
                DeviceCommand::SetPwmDuty { channel, duty },
                r,
            ),
    {
        self.send_command(thread_id, DeviceCommand::SetPwmDuty { channel, duty })
    }

    /// Ask a worker to configure a servo.
    pub fn configure_servo(&mut self, thread_id: u32, pin: u8, servo_config: ServoConfig) -> (r:
        Result<(), ThreadError>)
        requires
            old(self).wf(),
        ensures
            final(self).wf(),
            send_post(
                *old(self),
                *final(self),
                thread_id,
                DeviceCommand::ConfigureServo { pin, config: servo_config },
                r,
            ),
    {
        self.send_command(thread_id, DeviceCommand::ConfigureServo { pin, config: servo_config })
    }

    /// Ask a worker to move a servo to an angle, in whole degrees.
    pub fn set_servo_angle(&mut self, thread_id: u32, pin: u8, angle: u32) -> (r: Result<
        (),
        ThreadError,
    >)
        requires
            old(self).wf(),
        ensures
            final(self).wf(),
            send_post(
                *old(self),
                *final(self),
                thread_id,
                DeviceCommand::SetServoAngle { pin, angle },
                r,
            ),
    {
        self.send_command(thread_id, DeviceCommand::SetServoAngle { pin, angle })
    }

    /// Ask a worker to run a continuous-rotation servo at a speed from
    /// -100 to 100.
    pub fn set_servo_speed(&mut self, thread_id: u32, pin: u8, speed: i32) -> (r: Result<
        (),
        ThreadError,
    >)
        requires
            old(self).wf(),
        ensures
            final(self).wf(),
            send_post(
                *old(self),
                *final(self),
                thread_id,
                DeviceCommand::SetServoSpeed { pin, speed },
                r,
            ),
    {
        self.send_command(thread_id, DeviceCommand::SetServoSpeed { pin, speed })
    }

    /// Ask a worker to stop a servo (neutral position).
    pub fn stop_servo(&mut self, thread_id: u32, pin: u8) -> (r: Result<(), ThreadError>)
        requires
            old(self).wf(),
        ensures
            final(self).wf(),
            send_post(*old(self), *final(self), thread_id, DeviceCommand::StopServo { pin }, r),
    {
        self.send_command(thread_id, DeviceCommand::StopServo { pin })
    }

    /// Ask a worker to write bytes to an I2C device.
    pub fn i2c_write(&mut self, thread_id: u32, address: u8, data: Vec<u8>) -> (r: Result<
        (),
        ThreadError,
    >)
        requires
            old(self).wf(),
        ensures
            final(self).wf(),
            send_post(
                *old(self),
                *final(self),
                thread_id,
                DeviceCommand::I2cWrite { address, data },
                r,
            ),
    {
        self.send_command(thread_id, DeviceCommand::I2cWrite { address, data })
    }

    /// Ask a worker to read bytes from an I2C device. The read result
    /// arrives through the shared state; the immediate result is empty.
    pub fn i2c_read(&mut self, thread_id: u32, address: u8, length: u8) -> (r: Result<
        Vec<u8>,
        ThreadError,
    >)
        requires
            old(self).wf(),
        ensures
            final(self).wf(),
            r matches Ok(v) ==> v@.len() == 0,
            send_post_result(
                *old(self),
                *final(self),
                thread_id,
                DeviceCommand::I2cRead { address, length },
                r,
            ),
    {
        match self.send_command(thread_id, DeviceCommand::I2cRead { address, length }) {
            Result::Ok(_) => Result::Ok(Vec::new()),
            Result::Err(e) => Result::Err(e),
        }
    }

    /// Ask a worker to write then read on an I2C device.
    pub fn i2c_write_read(
        &mut self,
        thread_id: u32,
        address: u8,
        write_data: Vec<u8>,
        read_length: u8,
    ) -> (r: Result<Vec<u8>, ThreadError>)
        requires
            old(self).wf(),
        ensures
            final(self).wf(),
            r matches Ok(v) ==> v@.len() == 0,
            send_post_result(
                *old(self),
                *final(self),
                thread_id,
                DeviceCommand::I2cWriteRead { address, write_data, read_length },
                r,
            ),
    {
        match self.send_command(
            thread_id,
            DeviceCommand::I2cWriteRead { address, write_data, read_length },
        ) {
            Result::Ok(_) => Result::Ok(Vec::new()),
            Result::Err(e) => Result::Err(e),
        }
    }

    /// Ask a worker to scan the I2C bus.
    pub fn i2c_scan(&mut self, thread_id: u32) -> (r: Result<Vec<u8>, ThreadError>)
        requires
            old(self).wf(),
        ensures
            final(self).wf(),
            r matches Ok(v) ==> v@.len() == 0,
            send_post_result(*old(self), *final(self), thread_id, DeviceCommand::I2cScan, r),
    {
        match self.send_command(thread_id, DeviceCommand::I2cScan) {
            Result::Ok(_) => Result::Ok(Vec::new()),
            Result::Err(e) => Result::Err(e),
        }
    }

    /// Ask a worker to configure the uSPIBridge.
    pub fn configure_uspibridge(&mut self, thread_id: u32, config: USPIBridgeConfig) -> (r: Result<
        (),
        ThreadError,
    >)
        requires
            old(self).wf(),
        ensures
            final(self).wf(),
            send_post(
                *old(self),
                *final(self),
                thread_id,
                DeviceCommand::ConfigureUSPIBridge { config },
                r,
            ),
    {
        self.send_command(thread_id, DeviceCommand::ConfigureUSPIBridge { config })
    }

    /// Ask a worker to send a raw uSPIBridge command.
    pub fn uspibridge_command(&mut self, thread_id: u32, command: Vec<u8>) -> (r: Result<
        Vec<u8>,
        ThreadError,
    >)
        requires
            old(self).wf(),
        ensures
            final(self).wf(),
            r matches Ok(v) ==> v@.len() == 0,
            send_post_result(
                *old(self),
                *final(self),
                thread_id,
                DeviceCommand::USPIBridgeCommand { command },
                r,
            ),
    {
        match self.send_command(thread_id, DeviceCommand::USPIBridgeCommand { command }) {
            Result::Ok(_) => Result::Ok(Vec::new()),
            Result::Err(e) => Result::Err(e),
        }
    }

    /// Read a worker's encoder value for an index.
    pub fn get_encoder_value(&self, thread_id: u32, encoder_index: u32) -> (r: Result<
        i32,
        ThreadError,
    >)
        requires
            self.wf(),
        ensures
            !self.has_thread(thread_id) ==> (r matches Err(e) && e matches
                ThreadError::ThreadNotFound(t) && t == thread_id),
            self.has_thread(thread_id) && !self.thread_at(
                thread_id,
            ).shared_spec().state_spec().valid_encoder(encoder_index) ==> (r matches Err(e) && e
                is InvalidParameter),
            self.has_thread(thread_id) && self.thread_at(
                thread_id,
            ).shared_spec().state_spec().valid_encoder(encoder_index) ==> (r matches Ok(v) && v
                == self.thread_at(thread_id).shared_spec().state_spec().encoder_value_spec(
                encoder_index,
            )),
    {
        match self.find_worker(thread_id) {
            Option::Some(i) => match self.threads[i].shared_state().get_encoder_value(
                encoder_index,
            ) {
                Option::Some(v) => Result::Ok(v),
                Option::None => Result::Err(
                    ThreadError::InvalidParameter(
                        "Invalid encoder index: ".to_owned().concat(
                            crate::error::u64_to_dec(encoder_index as u64).as_str(),
                        ),
                    ),
                ),
            },
            Option::None => Result::Err(ThreadError::ThreadNotFound(thread_id)),
        }
    }

    /// Ask a worker to configure an encoder.
    pub fn configure_encoder(
        &mut self,
        thread_id: u32,
        encoder_index: u32,
        pin_a: u32,
        pin_b: u32,
        enabled: bool,
        sampling_4x: bool,
    ) -> (r: Result<(), ThreadError>)
        requires
            old(self).wf(),
        ensures
            final(self).wf(),
            send_post(
                *old(self),
                *final(self),
                thread_id,
                DeviceCommand::ConfigureEncoder { encoder_index, pin_a, pin_b, enabled, sampling_4x },
                r,
            ),
    {
        self.send_command(
            thread_id,
            DeviceCommand::ConfigureEncoder { encoder_index, pin_a, pin_b, enabled, sampling_4x },
        )
    }

    /// Ask a worker to reset a digital counter.
    pub fn reset_digital_counter(&mut self, thread_id: u32, pin: u32) -> (r: Result<
        (),
        ThreadError,
    >)
        requires
            old(self).wf(),
        ensures
            final(self).wf(),
            send_post(
                *old(self),
                *final(self),
                thread_id,
                DeviceCommand::ResetDigitalCounter { pin },
                r,
            ),
    {
        self.send_command(thread_id, DeviceCommand::ResetDigitalCounter { pin })
    }

    /// Ask a worker to send a raw custom request.
    pub fn send_custom_request(
        &mut self,
        thread_id: u32,
        request_type: u8,
        param1: u8,
        param2: u8,
        param3: u8,
        param4: u8,
    ) -> (r: Result<(), ThreadError>)
        requires
            old(self).wf(),
        ensures
            final(self).wf(),
            send_post(
                *old(self),
                *final(self),
                thread_id,
                DeviceCommand::Custom { request_type, param1, param2, param3, param4 },
                r,
            ),
    {
        self.send_command(
            thread_id,
            DeviceCommand::Custom { request_type, param1, param2, param3, param4 },
        )
    }

    /// Ask a worker to configure a pin function.
    pub fn set_pin_function(&mut self, thread_id: u32, pin: u32, pin_function: u8) -> (r: Result<
        (),
        ThreadError,
    >)
        requires
            old(self).wf(),
        ensures
            final(self).wf(),
            send_post(
                *old(self),
                *final(self),
                thread_id,
                DeviceCommand::SetPinFunction { pin, pin_function },
                r,
            ),
    {
        self.send_command(thread_id, DeviceCommand::SetPinFunction { pin, pin_function })
    }

    /// Ask a worker to drive several digital outputs in one command.
    pub fn set_digital_outputs_bulk(&mut self, thread_id: u32, pin_states: Vec<(u32, bool)>) -> (r:
        Result<(), ThreadError>)
        requires
            old(self).wf(),
        ensures
            final(self).wf(),
            send_post(
                *old(self),
                *final(self),
                thread_id,
                DeviceCommand::SetDigitalOutputsBulk { pin_states },
                r,
            ),
    {
        self.send_command(thread_id, DeviceCommand::SetDigitalOutputsBulk { pin_states })
    }

    /// Ask a worker to set several PWM duty cycles in one command.
    pub fn set_pwm_duties_bulk(&mut self, thread_id: u32, channel_duties: Vec<(usize, u32)>) -> (r:
        Result<(), ThreadError>)
        requires
            old(self).wf(),
        ensures
            final(self).wf(),
            send_post(
                *old(self),
                *final(self),
                thread_id,
                DeviceCommand::SetPwmDutiesBulk { channel_duties },
                r,
            ),
    {
        self.send_command(thread_id, DeviceCommand::SetPwmDutiesBulk { channel_duties })
    }

    /// Read several analog inputs from a worker's shared state in one
    /// call; any invalid pin refuses the whole read.
    pub fn read_analog_inputs_bulk(&self, thread_id: u32, pins: Vec<u32>) -> (r: Result<
        Vec<u32>,
        ThreadError,
    >)
        requires
            self.wf(),
        ensures
            !self.has_thread(thread_id) ==> (r matches Err(e) && e matches
                ThreadError::ThreadNotFound(t) && t == thread_id),
            self.has_thread(thread_id) ==> ((r is Ok) <==> (forall|j: int|
                0 <= j < pins@.len() ==> self.thread_at(
                    thread_id,
                ).shared_spec().state_spec().valid_pin(#[trigger] pins@[j]))),
            self.has_thread(thread_id) ==> (r matches Ok(v) ==> v@.len() == pins@.len() && (
            forall|j: int|
                0 <= j < pins@.len() ==> #[trigger] v@[j] == self.thread_at(
                    thread_id,
                ).shared_spec().state_spec().analog_input_spec(pins@[j]))),
            self.has_thread(thread_id) ==> (r matches Err(e) ==> e is InvalidParameter),
    {
        match self.find_worker(thread_id) {
            Option::Some(i) => {
                let shared = self.threads[i].shared_state();
                let mut values: Vec<u32> = Vec::new();
                let n = pins.len();
                let mut k: usize = 0;
                while k < n
                    invariant
                        k <= n,
                        n == pins@.len(),
                        i == self.idx_of(thread_id),
                        i < self.threads_spec().len(),
                        self.wf(),
                        self.has_thread(thread_id),
                        *shared == self.thread_at(thread_id).shared_spec(),
                        values@.len() == k,
                        forall|j: int|
                            0 <= j < k ==> self.thread_at(
                                thread_id,
                            ).shared_spec().state_spec().valid_pin(#[trigger] pins@[j]),
                        forall|j: int|
                            0 <= j < k ==> #[trigger] values@[j] == self.thread_at(
                                thread_id,
                            ).shared_spec().state_spec().analog_input_spec(pins@[j]),
                    decreases n - k,
                {
                    match shared.get_analog_input(pins[k]) {
                        Option::Some(v) => {
                            values.push(v);
                        },
                        Option::None => {
                            return Result::Err(
                                ThreadError::InvalidParameter(
                                    "Invalid pin: ".to_owned().concat(
                                        crate::error::u64_to_dec(pins[k] as u64).as_str(),
                                    ),
                                ),
                            );
                        },
                    }
                    k += 1;
                }
                Result::Ok(values)
            },
            Option::None => Result::Err(ThreadError::ThreadNotFound(thread_id)),
        }
    }
}

} // verus!
