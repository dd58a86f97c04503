use typhon::compositor::CompositorState;
use typhon::xwayland_scene::{XwaylandSceneBatchDirty, XwaylandSceneBatchError};

#[test]
fn batch_commit_returns_deferred_work_and_closes_the_batch() {
    let mut state = CompositorState::default();
    let token = state.begin_xwayland_scene_batch().expect("batch");
    assert_eq!(token.epoch, 1);
    assert!(state.xwayland_scene_batch_active());

    assert!(state.defer_pointer_focus_refresh());
    assert!(state.defer_client_list_sync());
    assert!(state.xwayland_scene_batch_dirty());

    let dirty = state.commit_xwayland_scene_batch(token).expect("commit");
    assert_eq!(
        dirty,
        XwaylandSceneBatchDirty {
            pointer_focus_dirty: true,
            render_stack_dirty: false,
            client_lists_dirty: true,
            repaint_dirty: true,
        }
    );
    assert!(!state.xwayland_scene_batch_active());
    assert!(!state.xwayland_scene_batch_dirty());
}

#[test]
fn nested_batch_is_refused() {
    let mut state = CompositorState::default();
    let token = state.begin_xwayland_scene_batch().expect("batch");

    assert_eq!(
        state.begin_xwayland_scene_batch(),
        Err(XwaylandSceneBatchError::AlreadyActive)
    );
    assert!(state.commit_xwayland_scene_batch(token).is_ok());
}

#[test]
fn closed_and_foreign_tokens_are_refused() {
    let mut state = CompositorState::default();
    let first = state.begin_xwayland_scene_batch().expect("batch");
    assert_eq!(state.abort_xwayland_scene_batch(first), Ok(()));

    assert_eq!(
        state.commit_xwayland_scene_batch(first),
        Err(XwaylandSceneBatchError::NotActive)
    );
    let second = state.begin_xwayland_scene_batch().expect("batch");
    assert_eq!(second.epoch, 2);
    assert_eq!(
        state.commit_xwayland_scene_batch(first),
        Err(XwaylandSceneBatchError::InvalidToken)
    );
    assert!(state.xwayland_scene_batch_active());
}

#[test]
fn deferrals_outside_a_batch_do_nothing() {
    let mut state = CompositorState::default();

    assert!(!state.defer_pointer_focus_refresh());
    assert!(!state.defer_render_stack_reorder());
    assert!(!state.defer_client_list_sync());
    state.note_xwayland_scene_mutation();

    assert!(!state.xwayland_scene_batch_dirty());
    assert_eq!(state.xwayland_scene_batch_metrics().xwayland_scene_mutations, 0);
}

#[test]
fn repeated_reorders_and_syncs_are_coalesced() {
    let mut state = CompositorState::default();
    let token = state.begin_xwayland_scene_batch().expect("batch");

    assert!(state.defer_render_stack_reorder());
    assert!(state.defer_render_stack_reorder());
    assert!(state.defer_render_stack_reorder());
    assert!(state.defer_client_list_sync());
    assert!(state.defer_client_list_sync());
    state.note_xwayland_scene_mutation();

    let metrics = state.xwayland_scene_batch_metrics();
    assert_eq!(metrics.render_stack_reorders_coalesced, 2);
    assert_eq!(metrics.client_list_syncs_coalesced, 1);
    assert_eq!(metrics.xwayland_scene_mutations, 1);
    assert_eq!(metrics.xwayland_scene_batches, 1);

    let dirty = state.commit_xwayland_scene_batch(token).expect("commit");
    assert!(dirty.render_stack_dirty && dirty.client_lists_dirty && dirty.repaint_dirty);
    assert!(!dirty.pointer_focus_dirty);
    state.note_committed_pointer_refresh();
    assert_eq!(
        state.xwayland_scene_batch_metrics().pointer_refreshes_committed,
        1
    );
}

#[test]
fn aborted_batch_keeps_its_deferred_work_for_the_next_commit() {
    let mut state = CompositorState::default();
    let first = state.begin_xwayland_scene_batch().expect("batch");
    assert!(state.defer_pointer_focus_refresh());
    assert_eq!(state.abort_xwayland_scene_batch(first), Ok(()));
    assert!(state.xwayland_scene_batch_dirty());

    let second = state.begin_xwayland_scene_batch().expect("batch");
    let dirty = state.commit_xwayland_scene_batch(second).expect("commit");
    assert!(dirty.pointer_focus_dirty);
}
