use typhon::fixed::Fixed;
use typhon::pipeline_trace::SurfaceCommitSequence;
use typhon::subsurface::{
    CachedSubsurfaceCommit, CapturedPointerConstraintCommit, CapturedPointerConstraintSurfaceState,
    CapturedSubsurfacePosition, CapturedSubsurfaceRelationship, CapturedSubsurfaceStackEntry,
    CapturedSurfaceCommitContext, PointerConstraintHintCommit, PointerConstraintLifecycleCommit,
    PointerConstraintRegionCommit, SubsurfaceRelationshipId,
};
use typhon::subsurface_roles::{
    SubsurfaceRelationshipPhase, SubsurfaceSyncMode, SubsurfaceTransactionState,
};

fn empty_commit(sequence: u64) -> CachedSubsurfaceCommit {
    CachedSubsurfaceCommit {
        commit_id: sequence,
        commit_sequence: SurfaceCommitSequence(sequence),
        attachment: None,
        damage: None,
        frame_callbacks: Vec::new(),
        explicit_sync: None,
        offset: None,
        buffer_scale: None,
        buffer_transform: None,
        opaque_region: None,
        input_region: None,
        background_effect: None,
        presentation_feedbacks: Vec::new(),
        resize_capture_finalized: true,
        window_geometry: None,
        pointer_constraint_state: CapturedPointerConstraintSurfaceState::default(),
        commit_context: CapturedSurfaceCommitContext::default(),
        pacing_boundary: false,
    }
}

fn commit_with_hint(sequence: u64, constraint_id: u64, hint: PointerConstraintHintCommit) -> CachedSubsurfaceCommit {
    let mut commit = empty_commit(sequence);
    commit.pointer_constraint_state =
        CapturedPointerConstraintSurfaceState::Mutation(CapturedPointerConstraintCommit {
            constraint_id,
            lifecycle: PointerConstraintLifecycleCommit::NoChange,
            region: PointerConstraintRegionCommit::NoChange,
            cursor_position_hint: hint,
        });
    commit
}

#[test]
fn relationship_activation_follows_pending_latched_applied_lifecycle() {
    let mut transactions = SubsurfaceTransactionState::default();

    assert!(transactions.register(2, 1));
    assert_eq!(
        transactions.relationship_phase(2),
        Some(SubsurfaceRelationshipPhase::PendingParentCommit)
    );
    assert!(transactions.relationship_is_registered_child_of(2, 1));
    assert!(!transactions.relationship_is_applied_child_of(2, 1));

    let captured = transactions.captured_relationship(2).unwrap();
    assert_eq!(
        transactions.take_pending_relationship_activations_for_parent(1),
        vec![captured]
    );
    assert_eq!(
        transactions.relationship_phase(2),
        Some(SubsurfaceRelationshipPhase::Latched)
    );
    assert!(transactions
        .take_pending_relationship_activations_for_parent(1)
        .is_empty());

    assert!(transactions.apply_captured_relationship(captured));
    assert_eq!(
        transactions.relationship_phase(2),
        Some(SubsurfaceRelationshipPhase::Applied)
    );
    assert!(transactions.relationship_is_applied_child_of(2, 1));
}

#[test]
fn relationship_id_allocation_fails_without_wrapping() {
    let mut transactions = SubsurfaceTransactionState {
        next_relationship_id: u64::MAX,
        ..SubsurfaceTransactionState::default()
    };

    assert!(!transactions.register(2, 1));
    assert_eq!(transactions.relationship_phase(2), None);
}

#[test]
fn nested_relationship_activations_are_captured_at_each_parent_boundary() {
    let mut transactions = SubsurfaceTransactionState::default();
    assert!(transactions.register(2, 1));
    assert!(transactions.register(3, 2));

    let child = transactions.captured_relationship(2).unwrap();
    let grandchild = transactions.captured_relationship(3).unwrap();
    assert_eq!(
        transactions.take_pending_relationship_activations_for_parent(1),
        vec![child]
    );
    assert_eq!(
        transactions.take_pending_relationship_activations_for_parent(2),
        vec![grandchild]
    );
}

#[test]
fn destroying_each_relationship_phase_removes_its_live_identity() {
    let mut transactions = SubsurfaceTransactionState::default();

    assert!(transactions.register(2, 1));
    assert!(transactions.remove_role(2).is_empty());
    assert_eq!(transactions.relationship_phase(2), None);

    assert!(transactions.register(3, 1));
    let captured = transactions.captured_relationship(3).unwrap();
    assert_eq!(
        transactions.take_pending_relationship_activations_for_parent(1),
        vec![captured]
    );
    assert!(transactions.remove_role(3).is_empty());
    assert_eq!(transactions.relationship_phase(3), None);
    assert!(!transactions.relationship_matches(captured));

    assert!(transactions.register(4, 1));
    let captured = transactions.captured_relationship(4).unwrap();
    assert_eq!(
        transactions.take_pending_relationship_activations_for_parent(1),
        vec![captured]
    );
    assert!(transactions.apply_captured_relationship(captured));
    assert!(transactions.remove_role(4).is_empty());
    assert_eq!(transactions.relationship_phase(4), None);
}

#[test]
fn relationship_ids_are_monotonic_and_stale_captures_are_rejected() {
    let mut transactions = SubsurfaceTransactionState::default();

    assert!(transactions.register(2, 1));
    let first = transactions.captured_relationship(2).unwrap();
    assert_eq!(
        transactions.take_pending_relationship_activations_for_parent(1),
        vec![first]
    );
    assert!(transactions.remove_role(2).is_empty());

    assert!(transactions.register(2, 1));
    let second = transactions.captured_relationship(2).unwrap();
    assert_ne!(first.relationship_id, second.relationship_id);
    assert!(!transactions.apply_captured_relationship(first));
    assert_eq!(
        transactions.relationship_phase(2),
        Some(SubsurfaceRelationshipPhase::PendingParentCommit)
    );
    assert_eq!(
        transactions.take_pending_relationship_activations_for_parent(1),
        vec![second]
    );
    assert!(transactions.apply_captured_relationship(second));
}

#[test]
fn subsurface_new_role_defaults_to_synchronized() {
    let mut state = SubsurfaceTransactionState::default();
    assert!(state.register(2, 1));
    assert_eq!(
        state.requested_mode(2),
        Some(SubsurfaceSyncMode::Synchronized)
    );
    assert!(state.is_effectively_synchronized(2));
}

#[test]
fn subsurface_set_sync_and_set_desync_record_requested_mode() {
    let mut state = SubsurfaceTransactionState::default();
    assert!(state.register(2, 1));
    assert!(state.set_mode(2, SubsurfaceSyncMode::Desynchronized));
    assert_eq!(
        state.requested_mode(2),
        Some(SubsurfaceSyncMode::Desynchronized)
    );
    assert!(state.set_mode(2, SubsurfaceSyncMode::Synchronized));
    assert_eq!(
        state.requested_mode(2),
        Some(SubsurfaceSyncMode::Synchronized)
    );
}

#[test]
fn subsurface_desynchronized_descendant_under_synchronized_ancestor_remains_effectively_sync() {
    let mut state = SubsurfaceTransactionState::default();
    assert!(state.register(2, 1));
    assert!(state.register(3, 2));
    assert!(state.set_mode(3, SubsurfaceSyncMode::Desynchronized));
    assert!(state.is_effectively_synchronized(3));
    assert!(state.set_mode(2, SubsurfaceSyncMode::Desynchronized));
    assert!(!state.is_effectively_synchronized(3));
}

#[test]
fn subsurface_role_registration_rejects_reuse_and_cycles() {
    let mut state = SubsurfaceTransactionState::default();
    assert!(state.register(2, 1));
    assert!(!state.register(2, 3));
    assert!(!state.register(1, 2));
}

#[test]
fn subsurface_role_destruction_removes_only_that_role_while_surface_teardown_removes_subtree() {
    let mut state = SubsurfaceTransactionState::default();
    assert!(state.register(2, 1));
    assert!(state.register(3, 2));
    assert!(state.remove_role(2).is_empty());
    assert_eq!(state.parent(2), None);
    assert_eq!(state.parent(3), Some(2));

    assert!(state.register(4, 1));
    assert!(state.register(5, 4));
    assert!(state.remove_subtree(4).is_empty());
    assert_eq!(state.parent(4), None);
    assert_eq!(state.parent(5), None);
}

#[test]
fn register_refuses_a_surface_that_is_its_own_parent() {
    let mut state = SubsurfaceTransactionState::default();
    assert!(!state.register(7, 7));
    assert_eq!(state.parent(7), None);
    assert_eq!(state.next_relationship_id, 0);
}

#[test]
fn register_refuses_a_deep_cycle_and_keeps_the_identity_counter() {
    let mut state = SubsurfaceTransactionState::default();
    assert!(state.register(2, 1));
    assert!(state.register(3, 2));
    assert!(state.register(4, 3));
    assert_eq!(state.next_relationship_id, 3);
    assert!(!state.register(2, 4));
    assert_eq!(state.next_relationship_id, 3);
    assert_eq!(state.parent(2), Some(1));
}

#[test]
fn relationship_identities_count_up_from_one() {
    let mut state = SubsurfaceTransactionState::default();
    assert!(state.register_with_client(2, 1, Some(9)));
    assert!(state.register(3, 1));
    assert_eq!(
        state.captured_relationship(2),
        Some(CapturedSubsurfaceRelationship {
            surface_id: 2,
            parent_id: 1,
            relationship_id: SubsurfaceRelationshipId(1),
        })
    );
    assert_eq!(
        state.captured_relationship(3).unwrap().relationship_id,
        SubsurfaceRelationshipId(2)
    );
    assert_eq!(state.client_id(2), Some(9));
    assert_eq!(state.client_id(3), None);
    assert_eq!(state.client_id(4), None);
}

#[test]
fn activations_come_out_ordered_by_relationship_identity() {
    let mut state = SubsurfaceTransactionState::default();
    assert!(state.register(30, 1));
    assert!(state.register(10, 1));
    assert!(state.register(20, 1));
    assert!(state.register(40, 2));
    let taken = state.take_pending_relationship_activations_for_parent(1);
    let ids: Vec<u64> = taken.iter().map(|r| r.relationship_id.0).collect();
    assert_eq!(ids, vec![1, 2, 3]);
    let surfaces: Vec<u32> = taken.iter().map(|r| r.surface_id).collect();
    assert_eq!(surfaces, vec![30, 10, 20]);
    assert_eq!(
        state.relationship_phase(40),
        Some(SubsurfaceRelationshipPhase::PendingParentCommit)
    );
}

#[test]
fn applying_a_pending_relationship_is_refused() {
    let mut state = SubsurfaceTransactionState::default();
    assert!(state.register(2, 1));
    let captured = state.captured_relationship(2).unwrap();
    assert!(!state.apply_captured_relationship(captured));
    assert_eq!(
        state.relationship_phase(2),
        Some(SubsurfaceRelationshipPhase::PendingParentCommit)
    );
    assert!(!state.relationship_is_applied(captured));
}

#[test]
fn applied_children_lists_only_applied_relationships() {
    let mut state = SubsurfaceTransactionState::default();
    assert!(state.register(2, 1));
    assert!(state.register(3, 1));
    let taken = state.take_pending_relationship_activations_for_parent(1);
    assert!(state.apply_captured_relationship(taken[0]));
    assert!(state.relationship_is_applied(taken[0]));
    assert_eq!(state.applied_children_of(1), vec![2]);
    assert!(state.applied_children_of(2).is_empty());
}

#[test]
fn pending_positions_are_taken_once_in_identity_order() {
    let mut state = SubsurfaceTransactionState::default();
    assert!(state.register(5, 1));
    assert!(state.register(4, 1));
    assert!(state.register(6, 2));
    assert!(state.set_pending_position(4, -3, 8));
    assert!(state.set_pending_position(5, 10, 20));
    assert!(state.set_pending_position(6, 1, 1));
    assert!(!state.set_pending_position(9, 1, 1));
    let first = state.captured_relationship(5).unwrap();
    let second = state.captured_relationship(4).unwrap();
    assert_eq!(
        state.take_pending_positions_for_parent(1),
        vec![
            CapturedSubsurfacePosition {
                relationship: first,
                x: 10,
                y: 20,
            },
            CapturedSubsurfacePosition {
                relationship: second,
                x: -3,
                y: 8,
            },
        ]
    );
    assert!(state.take_pending_positions_for_parent(1).is_empty());
    assert_eq!(state.take_pending_positions_for_parent(2).len(), 1);
}

#[test]
fn captured_stack_keeps_the_parent_and_its_children_only() {
    let mut state = SubsurfaceTransactionState::default();
    assert!(state.register(2, 1));
    assert!(state.register(3, 1));
    assert!(state.register(4, 2));
    let two = state.captured_relationship(2).unwrap();
    let three = state.captured_relationship(3).unwrap();
    assert_eq!(
        state.capture_subsurface_stack(1, vec![3, 4, 1, 9, 2]),
        vec![
            CapturedSubsurfaceStackEntry::Child(three),
            CapturedSubsurfaceStackEntry::Parent,
            CapturedSubsurfaceStackEntry::Child(two),
        ]
    );
}

#[test]
fn cached_hint_is_the_newest_one_for_the_constraint() {
    let mut state = SubsurfaceTransactionState::default();
    assert!(state.register(2, 1));
    let older = PointerConstraintHintCommit::Changed(Fixed::from_raw(256), Fixed::from_raw(512));
    let newer = PointerConstraintHintCommit::Changed(Fixed::from_raw(768), Fixed::from_raw(1024));
    let role = state.roles.get_mut(&2).unwrap();
    role.cached_commits.push(commit_with_hint(1, 7, older));
    role.cached_commits.push(commit_with_hint(2, 7, newer));
    role.cached_commits.push(commit_with_hint(3, 7, PointerConstraintHintCommit::NoChange));
    role.cached_commits.push(commit_with_hint(4, 8, older));
    assert_eq!(
        state.cached_pointer_constraint_hint(2, 7),
        Some((Fixed::from_raw(768), Fixed::from_raw(1024)))
    );
    assert_eq!(
        state.cached_pointer_constraint_hint(2, 8),
        Some((Fixed::from_raw(256), Fixed::from_raw(512)))
    );
    assert_eq!(state.cached_pointer_constraint_hint(2, 9), None);
    assert_eq!(state.cached_pointer_constraint_hint(3, 7), None);
}

#[test]
fn drain_takes_every_cached_commit_and_keeps_the_roles() {
    let mut state = SubsurfaceTransactionState::default();
    assert!(state.register(2, 1));
    assert!(state.register(3, 2));
    state.roles.get_mut(&2).unwrap().cached_commits.push(empty_commit(1));
    state.roles.get_mut(&3).unwrap().cached_commits.push(empty_commit(2));
    state.roles.get_mut(&3).unwrap().cached_commits.push(empty_commit(3));
    let drained = state.drain_cached_commits();
    let mut sequences: Vec<u64> = drained.iter().map(|c| c.commit_id).collect();
    sequences.sort();
    assert_eq!(sequences, vec![1, 2, 3]);
    assert!(state.roles[&2].cached_commits.is_empty());
    assert!(state.roles[&3].cached_commits.is_empty());
    assert_eq!(state.parent(3), Some(2));
}

#[test]
fn removing_a_role_returns_its_cached_commits() {
    let mut state = SubsurfaceTransactionState::default();
    assert!(state.register(2, 1));
    assert!(state.register(3, 2));
    state.roles.get_mut(&2).unwrap().cached_commits.push(empty_commit(5));
    state.roles.get_mut(&3).unwrap().cached_commits.push(empty_commit(6));
    let removed = state.remove_subtree(2);
    let mut ids: Vec<u64> = removed.iter().map(|c| c.commit_id).collect();
    ids.sort();
    assert_eq!(ids, vec![5, 6]);
    assert!(state.roles.is_empty());
    assert_eq!(state.remove_role(2).len(), 0);
}

#[test]
fn teardown_of_a_parent_without_a_role_removes_its_children() {
    let mut state = SubsurfaceTransactionState::default();
    assert!(state.register(2, 1));
    assert!(state.register(3, 2));
    assert!(state.register(4, 8));
    assert!(state.remove_subtree(1).is_empty());
    assert_eq!(state.parent(2), None);
    assert_eq!(state.parent(3), None);
    assert_eq!(state.parent(4), Some(8));
}

#[test]
fn subsurface_cache_tests_new_role_defaults_to_synchronized() {
    let mut state = SubsurfaceTransactionState::default();
    assert!(state.register(2, 1));
    assert_eq!(
        state.requested_mode(2),
        Some(SubsurfaceSyncMode::Synchronized)
    );
    assert!(state.is_effectively_synchronized(2));
}

#[test]
fn subsurface_cache_tests_set_sync_and_set_desync_record_requested_mode() {
    let mut state = SubsurfaceTransactionState::default();
    assert!(state.register(2, 1));
    assert!(state.set_mode(2, SubsurfaceSyncMode::Desynchronized));
    assert_eq!(
        state.requested_mode(2),
        Some(SubsurfaceSyncMode::Desynchronized)
    );
    assert!(state.set_mode(2, SubsurfaceSyncMode::Synchronized));
    assert_eq!(
        state.requested_mode(2),
        Some(SubsurfaceSyncMode::Synchronized)
    );
}

#[test]
fn subsurface_cache_tests_desynchronized_descendant_under_synchronized_ancestor_remains_effectively_sync() {
    let mut state = SubsurfaceTransactionState::default();
    assert!(state.register(2, 1));
    assert!(state.register(3, 2));
    assert!(state.set_mode(3, SubsurfaceSyncMode::Desynchronized));
    assert!(state.is_effectively_synchronized(3));
    assert!(state.set_mode(2, SubsurfaceSyncMode::Desynchronized));
    assert!(!state.is_effectively_synchronized(3));
}

#[test]
fn subsurface_cache_tests_role_registration_rejects_reuse_and_cycles() {
    let mut state = SubsurfaceTransactionState::default();
    assert!(state.register(2, 1));
    assert!(!state.register(2, 3));
    assert!(!state.register(1, 2));
}

#[test]
fn subsurface_cache_tests_role_destruction_removes_only_that_role_while_surface_teardown_removes_subtree() {
    let mut state = SubsurfaceTransactionState::default();
    assert!(state.register(2, 1));
    assert!(state.register(3, 2));
    assert!(state.remove_role(2).is_empty());
    assert_eq!(state.parent(2), None);
    assert_eq!(state.parent(3), Some(2));

    assert!(state.register(4, 1));
    assert!(state.register(5, 4));
    assert!(state.remove_subtree(4).is_empty());
    assert_eq!(state.parent(4), None);
    assert_eq!(state.parent(5), None);
}
