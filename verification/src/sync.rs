//! Device sync: the elapsed-time comparison against a configurable
//! interval, and the read-and-diff sequence of a full refresh. Hardware
//! reads are handed in as plain values; a failure on one channel is
//! recorded but does not abort refreshing the remaining channels.

use vstd::prelude::*;
use vstd::string::StringExecFns;
use crate::error::{dec_spec, u64_to_dec, ThreadError};
use crate::state::{
    full_diff_seq, lemma_queues_extended_trans, queues_extended, same_except_error,
    DeviceSnapshot, SharedDeviceState, StateChangeType,
};

verus! {

/// What one refresh round read from the hardware: the snapshot, and the
/// failures met on the way. A failed digital or analog read aborts the
/// refresh; failed encoder reads are recorded and the refresh goes on.
#[derive(Debug)]
pub struct SyncReads {
    /// Failure text of the digital input read, if it failed
    pub digital_error: Option<String>,
    /// Failure text of the analog input read, if it failed
    pub analog_error: Option<String>,
    /// Failure texts of encoder reads, each with its encoder index
    pub encoder_errors: Vec<(u32, String)>,
    /// What the hardware reported
    pub snapshot: DeviceSnapshot,
}

/// The notifications emitted while recording a list of read failures:
/// for each one an `Error` with its message and a `FullUpdate`.
pub open spec fn error_report_tail(msgs: Seq<String>) -> Seq<StateChangeType>
    decreases msgs.len(),
{
    if msgs.len() == 0 {
        Seq::empty()
    } else {
        seq![
            StateChangeType::Error { message: Some(msgs[0]) },
            StateChangeType::FullUpdate,
        ] + error_report_tail(msgs.drop_first())
    }
}

/// Recording one more failure appends its two notifications.
proof fn lemma_error_report_tail_push(msgs: Seq<String>, m: String)
    ensures
        error_report_tail(msgs.push(m)) =~= error_report_tail(msgs) + seq![
            StateChangeType::Error { message: Some(m) },
            StateChangeType::FullUpdate,
        ],
    decreases msgs.len(),
{
    let pair = seq![
        StateChangeType::Error { message: Some(m) },
        StateChangeType::FullUpdate,
    ];
    if msgs.len() == 0 {
        assert(msgs.push(m)[0] == m);
        assert(msgs.push(m).drop_first() =~= Seq::<String>::empty());
        assert(error_report_tail(msgs.push(m).drop_first()) =~= Seq::<StateChangeType>::empty());
        assert(error_report_tail(msgs.push(m)) =~= error_report_tail(msgs) + pair);
    } else {
        lemma_error_report_tail_push(msgs.drop_first(), m);
        assert(msgs.push(m)[0] == msgs[0]);
        assert(msgs.push(m).drop_first() =~= msgs.drop_first().push(m));
        assert(error_report_tail(msgs.push(m)) =~= error_report_tail(msgs) + pair);
    }
}

/// The text recorded for one failed encoder read.
pub open spec fn encoder_failure_text(e: (u32, String)) -> Seq<char> {
    "Failed to refresh encoder "@ + dec_spec(e.0 as int) + ": "@ + e.1@
}

/// The texts of the failures one refresh round records, in recording
/// order: the digital read, the analog read, then each failed encoder.
pub open spec fn sync_failure_texts(reads: SyncReads) -> Seq<Seq<char>> {
    (match reads.digital_error {
        Option::Some(m) => seq!["Failed to refresh digital inputs: "@ + m@],
        Option::None => Seq::empty(),
    }) + (match reads.analog_error {
        Option::Some(m) => seq!["Failed to refresh analog inputs: "@ + m@],
        Option::None => Seq::empty(),
    }) + Seq::new(
        reads.encoder_errors@.len(),
        |i: int| encoder_failure_text(reads.encoder_errors@[i]),
    )
}

/// Data synchronization: owns the sync cadence for one worker.
pub struct DeviceSync {
    /// Thread ID
    thread_id: u32,
    /// Time of the last completed sync, in milliseconds
    last_sync: u64,
    /// Sync interval in milliseconds
    sync_interval: u64,
}

impl DeviceSync {
    /// The time of the last completed sync, for contracts.
    pub closed spec fn last_sync_spec(self) -> u64 {
        self.last_sync
    }

    /// The sync interval, for contracts.
    pub closed spec fn sync_interval_spec(self) -> u64 {
        self.sync_interval
    }

    /// The owning thread's identifier, for contracts.
    pub closed spec fn thread_id_spec(self) -> u32 {
        self.thread_id
    }

    /// Create a new synchronizer; the cadence starts at the given time.
    pub fn new(thread_id: u32, sync_interval_ms: u64, now: u64) -> (r: Self)
        ensures
            r.thread_id_spec() == thread_id,
            r.last_sync_spec() == now,
            r.sync_interval_spec() == sync_interval_ms,
    {
        DeviceSync { thread_id, last_sync: now, sync_interval: sync_interval_ms }
    }

    /// Whether the interval has elapsed since the last completed sync.
    pub fn should_sync(&self, now: u64) -> (r: bool)
        ensures
            r == (self.last_sync_spec() <= now && now - self.last_sync_spec()
                >= self.sync_interval_spec()),
    {
        if now < self.last_sync {
            false
        } else {
            now - self.last_sync >= self.sync_interval
        }
    }

    /// Perform one refresh round against the shared state. Each
    /// hardware read is treated independently: every failure is
    /// recorded with its `Error` notification, and the round still
    /// takes the snapshot over — refreshing whatever the remaining
    /// reads delivered — emitting one `FullUpdate` and one notification
    /// per changed field, and completing the cadence. A failed digital
    /// or analog read is reported to the caller as a transport error;
    /// no failure is fatal to the worker.
    pub fn sync(
        &mut self,
        shared: &mut SharedDeviceState,
        reads: SyncReads,
        now: u64,
    ) -> (r: Result<(), ThreadError>)
        requires
            reads.snapshot.pins@.len() <= 0xFFFF_FFFF,
            reads.snapshot.encoders@.len() <= 0xFFFF_FFFF,
        ensures
            final(self).thread_id_spec() == old(self).thread_id_spec(),
            final(self).sync_interval_spec() == old(self).sync_interval_spec(),
            final(self).last_sync_spec() == now,
            final(shared).running_spec() == old(shared).running_spec(),
            final(shared).paused_spec() == old(shared).paused_spec(),
            final(shared).state_spec().device_info == reads.snapshot.device_info,
            final(shared).state_spec().device_data == reads.snapshot.device_data,
            final(shared).state_spec().model == reads.snapshot.model,
            final(shared).state_spec().pins@ == reads.snapshot.pins@,
            final(shared).state_spec().encoders@ == reads.snapshot.encoders@,
            final(shared).state_spec().pwm == reads.snapshot.pwm,
            final(shared).state_spec().status == old(shared).state_spec().status,
            final(shared).state_spec().custom_values == old(shared).state_spec().custom_values,
            r is Ok <==> reads.digital_error is None && reads.analog_error is None,
            reads.digital_error matches Some(m) ==> (r matches Err(e) && e matches
                ThreadError::DeviceError(t) && t@ == m@),
            reads.digital_error is None ==> (reads.analog_error matches Some(m) ==> (r matches
                Err(e) && e matches ThreadError::DeviceError(t) && t@ == m@)),
            sync_failure_texts(reads).len() == 0 ==> final(shared).state_spec().error_message
                == old(shared).state_spec().error_message,
            sync_failure_texts(reads).len() > 0 ==> (final(shared).state_spec().error_message
                matches Some(s) && s@ == sync_failure_texts(reads).last()),
            exists|msgs: Seq<String>|
                #![auto]
                msgs.len() == sync_failure_texts(reads).len() && (forall|j: int|
                    0 <= j < msgs.len() ==> msgs[j]@ == sync_failure_texts(reads)[j])
                    && queues_extended(
                    old(shared).queues(),
                    final(shared).queues(),
                    error_report_tail(msgs) + (seq![StateChangeType::FullUpdate] + full_diff_seq(
                        old(shared).state_spec(),
                        reads.snapshot,
                    )),
                ),
    {
        let SyncReads { digital_error, analog_error, encoder_errors, snapshot } = reads;
        let ghost q0 = shared.queues();
        let ghost state0 = shared.state_spec();
        let ghost texts = sync_failure_texts(reads);
        let ghost mut msgs: Seq<String> = Seq::empty();
        let mut failure: Option<String> = Option::None;
        proof {
            assert(error_report_tail(msgs) =~= Seq::<StateChangeType>::empty());
            crate::state::lemma_queues_extended_refl(q0);
        }
        if let Option::Some(m) = digital_error {
            let message = "Failed to refresh digital inputs: ".to_owned().concat(m.as_str());
            let ghost gmessage = message;
            let ghost qpre = shared.queues();
            shared.set_error(Option::Some(message));
            proof {
                lemma_queues_extended_trans(
                    q0,
                    qpre,
                    shared.queues(),
                    error_report_tail(msgs),
                    seq![
                        StateChangeType::Error { message: Some(gmessage) },
                        StateChangeType::FullUpdate,
                    ],
                );
                lemma_error_report_tail_push(msgs, gmessage);
                msgs = msgs.push(gmessage);
                assert(msgs[0]@ == texts[0]);
            }
            failure = Option::Some(m);
        }
        if let Option::Some(m) = analog_error {
            let message = "Failed to refresh analog inputs: ".to_owned().concat(m.as_str());
            let ghost gmessage = message;
            let ghost qpre = shared.queues();
            shared.set_error(Option::Some(message));
            proof {
                lemma_queues_extended_trans(
                    q0,
                    qpre,
                    shared.queues(),
                    error_report_tail(msgs),
                    seq![
                        StateChangeType::Error { message: Some(gmessage) },
                        StateChangeType::FullUpdate,
                    ],
                );
                lemma_error_report_tail_push(msgs, gmessage);
                msgs = msgs.push(gmessage);
                assert(msgs[msgs.len() - 1]@ == texts[msgs.len() - 1]);
            }
            if failure.is_none() {
                failure = Option::Some(m);
            }
        }
        let ghost base = msgs.len() as int;
        let mut errs = encoder_errors;
        while errs.len() > 0
            invariant
                q0 == old(shared).queues(),
                state0 == old(shared).state_spec(),
                snapshot == reads.snapshot,
                texts == sync_failure_texts(reads),
                base + reads.encoder_errors@.len() == texts.len(),
                msgs.len() + errs@.len() == texts.len(),
                base <= msgs.len(),
                errs@ == reads.encoder_errors@.skip(msgs.len() - base),
                forall|j: int| 0 <= j < msgs.len() ==> #[trigger] msgs[j]@ == texts[j],
                shared.running_spec() == old(shared).running_spec(),
                shared.paused_spec() == old(shared).paused_spec(),
                shared.state_spec().pins == state0.pins,
                shared.state_spec().encoders == state0.encoders,
                shared.state_spec().pwm == state0.pwm,
                shared.state_spec().device_info == state0.device_info,
                shared.state_spec().device_data == state0.device_data,
                shared.state_spec().model == state0.model,
                shared.state_spec().status == state0.status,
                shared.state_spec().custom_values == state0.custom_values,
                msgs.len() == 0 ==> shared.state_spec().error_message == state0.error_message,
                msgs.len() > 0 ==> (shared.state_spec().error_message matches Some(s) && s
                    == msgs.last()),
                queues_extended(q0, shared.queues(), error_report_tail(msgs)),
            decreases errs@.len(),
        {
            let ghost k = msgs.len() - base;
            let (index, text) = errs.remove(0);
            proof {
                assert(reads.encoder_errors@.skip(k)[0] == reads.encoder_errors@[k]);
                assert(errs@ =~= reads.encoder_errors@.skip(k + 1));
            }
            let message = "Failed to refresh encoder ".to_owned().concat(
                u64_to_dec(index as u64).as_str(),
            ).concat(": ").concat(text.as_str());
            let ghost gmessage = message;
            let ghost qpre = shared.queues();
            shared.set_error(Option::Some(message));
            proof {
                lemma_queues_extended_trans(
                    q0,
                    qpre,
                    shared.queues(),
                    error_report_tail(msgs),
                    seq![
                        StateChangeType::Error { message: Some(gmessage) },
                        StateChangeType::FullUpdate,
                    ],
                );
                lemma_error_report_tail_push(msgs, gmessage);
                msgs = msgs.push(gmessage);
                assert(texts[base + k] == encoder_failure_text(reads.encoder_errors@[k]));
                assert(msgs[base + k]@ == texts[base + k]);
            }
        }
        let ghost qmid = shared.queues();
        let ghost precall = shared.state_spec();
        shared.update_from_device_with_notifications(&snapshot);
        self.last_sync = now;
        proof {
            assert(full_diff_seq(precall, snapshot) == full_diff_seq(state0, snapshot)) by {
                assert(precall.pins@ == state0.pins@);
                assert(precall.encoders@ == state0.encoders@);
                assert(precall.pwm == state0.pwm);
            }
            lemma_queues_extended_trans(
                q0,
                qmid,
                shared.queues(),
                error_report_tail(msgs),
                seq![StateChangeType::FullUpdate] + full_diff_seq(state0, snapshot),
            );
            assert(msgs.len() == texts.len() && (forall|j: int|
                0 <= j < msgs.len() ==> msgs[j]@ == sync_failure_texts(reads)[j])
                && queues_extended(
                old(shared).queues(),
                shared.queues(),
                error_report_tail(msgs) + (seq![StateChangeType::FullUpdate] + full_diff_seq(
                    old(shared).state_spec(),
                    reads.snapshot,
                )),
            ));
        }
        match failure {
            Option::Some(m) => Result::Err(ThreadError::DeviceError(m)),
            Option::None => Result::Ok(()),
        }
    }

    /// Get the owning thread's identifier.
    pub fn thread_id(&self) -> (r: u32)
        ensures
            r == self.thread_id_spec(),
    {
        self.thread_id
    }

    /// Get the sync interval in milliseconds.
    pub fn sync_interval(&self) -> (r: u64)
        ensures
            r == self.sync_interval_spec(),
    {
        self.sync_interval
    }

    /// Set the sync interval in milliseconds.
    pub fn set_sync_interval(&mut self, sync_interval_ms: u64)
        ensures
            final(self).sync_interval_spec() == sync_interval_ms,
            final(self).last_sync_spec() == old(self).last_sync_spec(),
            final(self).thread_id_spec() == old(self).thread_id_spec(),
    {
        self.sync_interval = sync_interval_ms;
    }
}

} // verus!
