use typhon::buffer::{BufferId, BufferIdentity};
use typhon::subsurface::{CachedBuffer, PendingSurfaceAttachment};
use typhon::surface_state::{AttachedBuffer, BufferTransform, SurfaceData};

fn buffer(id: u64) -> CachedBuffer {
    CachedBuffer {
        identity: BufferIdentity {
            id: BufferId(id),
            generation: 1,
        },
        dmabuf_planes: 0,
    }
}

#[test]
fn attach_records_the_pending_content_until_a_commit_takes_it() {
    let mut data = SurfaceData::new(7);
    assert!(!data.has_pending_buffer());

    data.set_pending(AttachedBuffer::Known(buffer(3)));
    assert!(data.has_pending_buffer());
    assert_eq!(
        data.take_pending(),
        Some(PendingSurfaceAttachment::Buffer(buffer(3)))
    );
    assert!(!data.has_pending_buffer());
    assert_eq!(data.take_pending(), None);

    data.set_pending(AttachedBuffer::Null);
    assert_eq!(data.take_pending(), Some(PendingSurfaceAttachment::RemoveContent));

    data.set_pending(AttachedBuffer::Known(buffer(4)));
    data.set_pending(AttachedBuffer::Unknown);
    assert!(!data.has_pending_buffer());
}

#[test]
fn frame_callbacks_are_taken_in_request_order() {
    let mut data = SurfaceData::new(7);
    data.push_frame_callback(11);
    data.push_frame_callback(12);
    assert_eq!(data.take_frame_callbacks(), vec![11, 12]);
    assert!(data.take_frame_callbacks().is_empty());
}

#[test]
fn setting_one_pending_value_leaves_the_others() {
    let mut data = SurfaceData::new(7);
    data.set_pending_offset(3, 4);
    data.set_pending_buffer_transform(BufferTransform::Flipped90);
    data.set_pending_buffer_scale(0);
    assert_eq!(data.take_pending_offset(), Some((3, 4)));
    assert_eq!(data.take_pending_buffer_transform(), Some(BufferTransform::Flipped90));
    assert_eq!(data.take_pending_buffer_scale(), Some(1));
    assert_eq!(data.surface_id(), 7);
}
