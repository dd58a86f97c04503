use typhon::pipeline_trace::{
    SurfaceCommitSequence, SurfacePipelineEvent, SurfacePipelineRecord, SurfacePipelineTrace,
};

#[test]
fn disabled_trace_retains_no_records() {
    let mut trace = SurfacePipelineTrace::new(false, 4);
    trace.record(SurfacePipelineRecord::commit_captured(
        7,
        SurfaceCommitSequence(11),
    ));
    assert_eq!(trace.len(), 0);
}

#[test]
fn enabled_trace_retains_the_first_event_before_the_ring_has_entries() {
    let mut trace = SurfacePipelineTrace::new(true, 4);
    assert!(trace.enabled());
    trace.record(SurfacePipelineRecord::commit_captured(
        7,
        SurfaceCommitSequence(11),
    ));
    assert_eq!(trace.len(), 1);
}

#[test]
fn trace_is_bounded_and_preserves_newest_lineage() {
    let mut trace = SurfacePipelineTrace::new(true, 2);
    trace.record(SurfacePipelineRecord::commit_captured(
        7,
        SurfaceCommitSequence(1),
    ));
    trace.record(SurfacePipelineRecord::transaction_queued(
        7,
        SurfaceCommitSequence(1),
        9,
    ));
    trace.record(SurfacePipelineRecord::scene_sampled(
        7,
        SurfaceCommitSequence(1),
        12,
    ));

    let records = trace.records();
    assert_eq!(records.len(), 2);
    assert_eq!(records[0].kind, SurfacePipelineEvent::TransactionQueued);
    assert_eq!(records[1].kind, SurfacePipelineEvent::SceneSampled);
    assert_eq!(records[1].surface_id, 7);
    assert_eq!(records[1].commit_sequence, SurfaceCommitSequence(1));
    assert_eq!(records[1].output_frame_id, Some(12));
}

#[test]
fn commit_to_frame_lineage_keeps_numeric_identity() {
    let mut trace = SurfacePipelineTrace::new(true, 16);
    trace.record(SurfacePipelineRecord::commit_captured(
        7,
        SurfaceCommitSequence(41),
    ));
    trace.record(SurfacePipelineRecord::transaction_queued(
        7,
        SurfaceCommitSequence(41),
        99,
    ));
    trace.record(SurfacePipelineRecord::scene_sampled(
        7,
        SurfaceCommitSequence(41),
        100,
    ));
    trace.record(SurfacePipelineRecord::output_presented(
        7,
        SurfaceCommitSequence(41),
        100,
        101,
    ));

    let records = trace.records();
    assert_eq!(records[0].kind, SurfacePipelineEvent::CommitCaptured);
    assert_eq!(records[1].surface_tree_transaction_id, Some(99));
    assert_eq!(records[2].output_frame_id, Some(100));
    assert_eq!(records[3].pageflip_token, Some(101));
    assert!(
        records.iter().all(|record| record.surface_id == 7
            && record.commit_sequence == SurfaceCommitSequence(41))
    );
}

#[test]
fn blocked_and_terminal_lineage_events_keep_commit_identity() {
    let mut trace = SurfacePipelineTrace::new(true, 32);
    for kind in [
        SurfacePipelineEvent::AcquirePending,
        SurfacePipelineEvent::AcquireReady,
        SurfacePipelineEvent::FifoWaitBlocked,
        SurfacePipelineEvent::FifoWaitReleased,
        SurfacePipelineEvent::CommitTimingBlocked,
        SurfacePipelineEvent::CommitTimingReleased,
        SurfacePipelineEvent::CommitDiscarded,
        SurfacePipelineEvent::CommitSuperseded,
        SurfacePipelineEvent::TransactionAbandoned,
        SurfacePipelineEvent::SurfaceDetached,
    ] {
        trace.record(SurfacePipelineRecord::for_event(
            kind,
            9,
            SurfaceCommitSequence(17),
        ));
    }

    let records = trace.records();
    assert_eq!(records.len(), 10);
    assert!(records.iter().all(|record| {
        record.surface_id == 9 && record.commit_sequence == SurfaceCommitSequence(17)
    }));
    assert_eq!(records[2].kind, SurfacePipelineEvent::FifoWaitBlocked);
    assert_eq!(records[4].kind, SurfacePipelineEvent::CommitTimingBlocked);
    assert_eq!(records[6].kind, SurfacePipelineEvent::CommitDiscarded);
    assert_eq!(records[8].kind, SurfacePipelineEvent::TransactionAbandoned);
}

#[test]
fn zero_capacity_trace_is_enabled_but_keeps_nothing() {
    let mut trace = SurfacePipelineTrace::new(true, 0);
    assert!(trace.enabled());
    trace.record(SurfacePipelineRecord::for_event_at(
        SurfacePipelineEvent::SurfaceDetached,
        1,
        SurfaceCommitSequence::initial(),
        5,
    ));
    assert_eq!(trace.len(), 0);
    assert!(trace.records().is_empty());
}

#[test]
fn event_record_carries_only_commit_identity() {
    let record = SurfacePipelineRecord::for_event_at(
        SurfacePipelineEvent::BufferReleaseCompleted,
        4,
        SurfaceCommitSequence(8),
        77,
    );
    assert_eq!(record.timestamp_ns, 77);
    assert_eq!(record.kind, SurfacePipelineEvent::BufferReleaseCompleted);
    assert_eq!(record.commit_sequence.get(), 8);
    assert_eq!(record.buffer_id, None);
    assert_eq!(record.output_frame_id, None);
}

#[test]
fn nanosecond_counts_saturate_at_u64_max() {
    assert_eq!(typhon::pipeline_trace::saturate_nanos(42), 42);
    assert_eq!(typhon::pipeline_trace::saturate_nanos(u64::MAX as u128), u64::MAX);
    assert_eq!(typhon::pipeline_trace::saturate_nanos(u64::MAX as u128 + 1), u64::MAX);
}
