//! A bounded trace of surface pipeline events, from commit to presentation.
use std::collections::VecDeque;
use vstd::prelude::*;

verus! {

/// Records kept by a trace enabled from the environment.
pub const SURFACE_PIPELINE_TRACE_CAPACITY: usize = 512;

/// Position of a commit in the per-surface commit order.
#[derive(Debug, Clone, Copy, PartialEq, Eq, Structural)]
pub struct SurfaceCommitSequence(pub u64);

impl SurfaceCommitSequence {
    pub fn initial() -> (r: Self)
        ensures
            r.0 == 0,
    {
        SurfaceCommitSequence(0)
    }

    pub fn get(self) -> (r: u64)
        ensures
            r == self.0,
    {
        self.0
    }
}

#[derive(Debug, Clone, Copy, PartialEq, Eq, Structural)]
pub enum SurfacePipelineEvent {
    CommitCaptured,
    AcquirePending,
    AcquireReady,
    FifoBarrierSet,
    FifoWaitBlocked,
    FifoWaitReleased,
    CommitTimingCaptured,
    CommitTimingBlocked,
    CommitTimingReleased,
    TransactionQueued,
    TransactionPromoted,
    SceneResolved,
    SceneSampled,
    FrameBatchBuilt,
    FrameCallbacksDeferred,
    FrameCallbacksAdmitted,
    OutputFrameRendered,
    OutputFrameSubmitted,
    OutputFramePresented,
    PresentationFeedbackCompleted,
    BufferReleaseCompleted,
    CommitDiscarded,
    CommitSuperseded,
    TransactionAbandoned,
    SurfaceDetached,
}

/// One traced event with the identities that tie it to a commit and a frame.
#[derive(Debug, Clone, Copy, PartialEq, Eq, Structural)]
pub struct SurfacePipelineRecord {
    pub timestamp_ns: u64,
    pub kind: SurfacePipelineEvent,
    pub surface_id: u32,
    pub surface_generation: Option<u64>,
    pub commit_sequence: SurfaceCommitSequence,
    pub buffer_id: Option<u64>,
    pub buffer_generation: Option<u64>,
    pub xwayland_generation: Option<u64>,
    pub association_serial: Option<u64>,
    pub frame_batch_id: Option<u64>,
    pub surface_tree_transaction_id: Option<u64>,
    pub output_transaction_id: Option<u64>,
    pub output_frame_id: Option<u64>,
    pub pageflip_token: Option<u64>,
}

/// The time elapsed since the Unix epoch.
///
/// Trusted: calls `std::time::SystemTime::elapsed` on `UNIX_EPOCH`. Nothing
/// is promised of the value: it depends on the clock. A clock set before the
/// epoch, which the call reports as its error, reads as zero.
#[verifier::external_body]
fn time_since_epoch() -> (r: std::time::Duration) {
    match std::time::UNIX_EPOCH.elapsed() {
        Ok(elapsed) => elapsed,
        Err(_) => std::time::Duration::ZERO,
    }
}

/// The whole nanoseconds in `d`.
///
/// Trusted: calls `std::time::Duration::as_nanos`. The duration is opaque to
/// the library, so nothing is stated of the count.
#[verifier::external_body]
fn duration_as_nanos(d: &std::time::Duration) -> (r: u128) {
    d.as_nanos()
}

/// `n` as a `u64`, saturating at `u64::MAX`.
pub fn saturate_nanos(n: u128) -> (r: u64)
    ensures
        r == (if n > u64::MAX as u128 {
            u64::MAX as int
        } else {
            n as int
        }),
{
    if n > u64::MAX as u128 {
        u64::MAX
    } else {
        n as u64
    }
}

/// Wall-clock time in nanoseconds since the Unix epoch, saturating at `u64::MAX`.
fn trace_timestamp_ns() -> (r: u64) {
    saturate_nanos(duration_as_nanos(&time_since_epoch()))
}

/// A record of `kind` for the commit, carrying no frame or transaction identity.
pub open spec fn spec_event_record(
    kind: SurfacePipelineEvent,
    surface_id: u32,
    commit_sequence: SurfaceCommitSequence,
    timestamp_ns: u64,
) -> SurfacePipelineRecord {
    SurfacePipelineRecord {
        timestamp_ns,
        kind,
        surface_id,
        surface_generation: None,
        commit_sequence,
        buffer_id: None,
        buffer_generation: None,
        xwayland_generation: None,
        association_serial: None,
        frame_batch_id: None,
        surface_tree_transaction_id: None,
        output_transaction_id: None,
        output_frame_id: None,
        pageflip_token: None,
    }
}

impl SurfacePipelineRecord {
    /// A record of `kind` taken at `timestamp_ns`.
    pub fn for_event_at(
        kind: SurfacePipelineEvent,
        surface_id: u32,
        commit_sequence: SurfaceCommitSequence,
        timestamp_ns: u64,
    ) -> (r: Self)
        ensures
            r == spec_event_record(kind, surface_id, commit_sequence, timestamp_ns),
    {
        SurfacePipelineRecord {
            timestamp_ns,
            kind,
            surface_id,
            surface_generation: None,
            commit_sequence,
            buffer_id: None,
            buffer_generation: None,
            xwayland_generation: None,
            association_serial: None,
            frame_batch_id: None,
            surface_tree_transaction_id: None,
            output_transaction_id: None,
            output_frame_id: None,
            pageflip_token: None,
        }
    }

    /// A record of `kind` stamped with the current time.
    pub fn for_event(kind: SurfacePipelineEvent, surface_id: u32, commit_sequence: SurfaceCommitSequence) -> (r:
        Self)
        ensures
            r == spec_event_record(kind, surface_id, commit_sequence, r.timestamp_ns),
    {
        Self::for_event_at(kind, surface_id, commit_sequence, trace_timestamp_ns())
    }

    pub fn commit_captured(surface_id: u32, commit_sequence: SurfaceCommitSequence) -> (r: Self)
        ensures
            r == spec_event_record(SurfacePipelineEvent::CommitCaptured, surface_id, commit_sequence, r.timestamp_ns),
    {
        Self::for_event(SurfacePipelineEvent::CommitCaptured, surface_id, commit_sequence)
    }

    pub fn transaction_queued(surface_id: u32, commit_sequence: SurfaceCommitSequence, transaction_id: u64) -> (r:
        Self)
        ensures
            r == (SurfacePipelineRecord {
                surface_tree_transaction_id: Some(transaction_id),
                ..spec_event_record(SurfacePipelineEvent::TransactionQueued, surface_id, commit_sequence, r.timestamp_ns)
            }),
    {
        let base = Self::for_event(SurfacePipelineEvent::TransactionQueued, surface_id, commit_sequence);
        SurfacePipelineRecord { surface_tree_transaction_id: Some(transaction_id), ..base }
    }

    pub fn scene_sampled(surface_id: u32, commit_sequence: SurfaceCommitSequence, output_frame_id: u64) -> (r:
        Self)
        ensures
            r == (SurfacePipelineRecord {
                output_frame_id: Some(output_frame_id),
                ..spec_event_record(SurfacePipelineEvent::SceneSampled, surface_id, commit_sequence, r.timestamp_ns)
            }),
    {
        let base = Self::for_event(SurfacePipelineEvent::SceneSampled, surface_id, commit_sequence);
        SurfacePipelineRecord { output_frame_id: Some(output_frame_id), ..base }
    }

    pub fn output_presented(
        surface_id: u32,
        commit_sequence: SurfaceCommitSequence,
        output_frame_id: u64,
        pageflip_token: u64,
    ) -> (r: Self)
        ensures
            r == (SurfacePipelineRecord {
                output_frame_id: Some(output_frame_id),
                pageflip_token: Some(pageflip_token),
                ..spec_event_record(SurfacePipelineEvent::OutputFramePresented, surface_id, commit_sequence, r.timestamp_ns)
            }),
    {
        let base = Self::for_event(SurfacePipelineEvent::OutputFramePresented, surface_id, commit_sequence);
        SurfacePipelineRecord {
            output_frame_id: Some(output_frame_id),
            pageflip_token: Some(pageflip_token),
            ..base
        }
    }
}

/// A ring of the newest pipeline records; a disabled trace keeps nothing.
#[derive(Debug)]
pub struct SurfacePipelineTrace {
    pub records: Option<VecDeque<SurfacePipelineRecord>>,
    pub capacity: usize,
}

/// The abstract trace: `None` when disabled, otherwise the retained records, oldest first.
pub open spec fn trace_model(t: &SurfacePipelineTrace) -> Option<Seq<SurfacePipelineRecord>> {
    match t.records {
        None => None,
        Some(r) => Some(r@),
    }
}

/// The records after appending `r`: at most `capacity` records, the newest kept.
pub open spec fn spec_record(s: Seq<SurfacePipelineRecord>, capacity: int, r: SurfacePipelineRecord) -> Seq<
    SurfacePipelineRecord,
> {
    if capacity == 0 {
        s
    } else if s.len() == capacity {
        s.skip(1).push(r)
    } else {
        s.push(r)
    }
}

impl SurfacePipelineTrace {
    /// A trace never holds more records than its capacity.
    pub open spec fn wf(&self) -> bool {
        match self.records {
            None => true,
            Some(r) => r@.len() <= self.capacity,
        }
    }

    pub fn new(enabled: bool, capacity: usize) -> (r: Self)
        ensures
            r.capacity == capacity,
            trace_model(&r) == (if enabled {
                Some(Seq::<SurfacePipelineRecord>::empty())
            } else {
                None
            }),
            r.wf(),
    {
        SurfacePipelineTrace {
            records: if enabled {
                Some(VecDeque::with_capacity(capacity))
            } else {
                None
            },
            capacity,
        }
    }

    /// Appends `record`, dropping the oldest record when the ring is full.
    pub fn record(&mut self, record: SurfacePipelineRecord)
        requires
            old(self).wf(),
        ensures
            final(self).wf(),
            final(self).capacity == old(self).capacity,
            trace_model(final(self)) == match trace_model(old(self)) {
                None => None,
                Some(s) => Some(spec_record(s, old(self).capacity as int, record)),
            },
    {
        let capacity = self.capacity;
        match self.records.as_mut() {
            None => {},
            Some(records) => {
                if capacity == 0 {
                    return;
                }
                if records.len() == capacity {
                    let _ = records.pop_front();
                }
                records.push_back(record);
            },
        }
    }

    pub fn enabled(&self) -> (r: bool)
        ensures
            r == (self.records is Some),
    {
        self.records.is_some()
    }

    pub fn len(&self) -> (r: usize)
        ensures
            r == match trace_model(self) {
                None => 0,
                Some(s) => s.len(),
            },
    {
        match &self.records {
            None => 0,
            Some(records) => records.len(),
        }
    }

    /// The retained records, oldest first.
    pub fn records(&self) -> (r: Vec<SurfacePipelineRecord>)
        ensures
            r@ == match trace_model(self) {
                None => Seq::<SurfacePipelineRecord>::empty(),
                Some(s) => s,
            },
    {
        let mut out: Vec<SurfacePipelineRecord> = Vec::new();
        match &self.records {
            None => {},
            Some(records) => {
                let mut i: usize = 0;
                while i < records.len()
                    invariant
                        i <= records@.len(),
                        out@ == records@.take(i as int),
                    decreases records@.len() - i,
                {
                    out.push(records[i]);
                    proof {
                        assert(out@ =~= records@.take(i as int + 1));
                    }
                    i = i + 1;
                }
                assert(records@.take(records@.len() as int) =~= records@);
            },
        }
        out
    }
}

/// Recording into a full ring keeps exactly the newest `capacity` records,
/// in order: the trace is bounded and the newest lineage survives.
pub proof fn lemma_record_keeps_newest(s: Seq<SurfacePipelineRecord>, capacity: int, r: SurfacePipelineRecord)
    requires
        0 < capacity,
        s.len() <= capacity,
    ensures
        spec_record(s, capacity, r).len() <= capacity,
        spec_record(s, capacity, r) == s.push(r).skip(
            if s.len() + 1 > capacity {
                s.len() + 1 - capacity
            } else {
                0
            },
        ),
        spec_record(s, capacity, r).last() == r,
{
    if s.len() == capacity {
        assert(s.skip(1).push(r) =~= s.push(r).skip(1));
    } else {
        assert(s.push(r).skip(0) =~= s.push(r));
    }
}

} // verus!
