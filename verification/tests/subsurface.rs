use typhon::buffer::{BufferId, BufferIdentity};
use typhon::fixed::Fixed;
use typhon::pipeline_trace::SurfaceCommitSequence;
use typhon::region::{BackgroundEffectRegion, InputRegionOp, InputRegionRect, SurfaceInputRegion};
use typhon::subsurface::{
    merge_damage, CachedBuffer, CachedSubsurfaceCommit, CapturedExplicitSyncPoints,
    CapturedLayerSurfaceCommitState, CapturedPointerConstraintCommit,
    CapturedPointerConstraintSurfaceState, CapturedPointerConstraintSurfaceTransition,
    CapturedSubsurfaceParentState, CapturedSubsurfacePosition, CapturedSubsurfaceRelationship,
    CapturedSubsurfaceStackEntry, CapturedSurfaceCommitContext, PendingSurfaceAttachment,
    PointerConstraintHintCommit, PointerConstraintLifecycleCommit, PointerConstraintRegionCommit,
    SubsurfaceRelationshipId,
};
use typhon::surface::{RenderableSurfaceDamage, SurfaceDamageRect};
use typhon::window_geometry::XdgWindowGeometry;

fn relationship(surface_id: u32, relationship_id: u64) -> CapturedSubsurfaceRelationship {
    CapturedSubsurfaceRelationship {
        surface_id,
        parent_id: 1,
        relationship_id: SubsurfaceRelationshipId(relationship_id),
    }
}

fn position(rel: CapturedSubsurfaceRelationship, x: i32, y: i32) -> CapturedSubsurfacePosition {
    CapturedSubsurfacePosition {
        relationship: rel,
        x,
        y,
    }
}

fn hint(x: f64, y: f64) -> PointerConstraintHintCommit {
    PointerConstraintHintCommit::Changed(
        Fixed::from_raw((x * 256.0) as i32),
        Fixed::from_raw((y * 256.0) as i32),
    )
}

fn custom_region(x: i32, y: i32, width: i32, height: i32) -> SurfaceInputRegion {
    SurfaceInputRegion::Custom(vec![InputRegionOp::Add(
        InputRegionRect::new(x, y, width, height).unwrap(),
    )])
}

fn cached_commit_with_window_geometry(
    sequence: u64,
    window_geometry: XdgWindowGeometry,
) -> CachedSubsurfaceCommit {
    CachedSubsurfaceCommit {
        commit_id: sequence,
        commit_sequence: SurfaceCommitSequence(sequence),
        attachment: None,
        damage: None,
        frame_callbacks: Vec::new(),
        explicit_sync: None,
        offset: None,
        buffer_scale: None,
        buffer_transform: None,
        opaque_region: None,
        input_region: None,
        background_effect: None,
        presentation_feedbacks: Vec::new(),
        resize_capture_finalized: true,
        window_geometry: Some(window_geometry),
        pointer_constraint_state: CapturedPointerConstraintSurfaceState::default(),
        commit_context: CapturedSurfaceCommitContext::default(),
        pacing_boundary: false,
    }
}

fn pointer_state(
    constraint_id: u64,
    lifecycle: PointerConstraintLifecycleCommit,
    region: PointerConstraintRegionCommit,
    cursor_position_hint: PointerConstraintHintCommit,
) -> CapturedPointerConstraintSurfaceState {
    CapturedPointerConstraintSurfaceState::Mutation(CapturedPointerConstraintCommit {
        constraint_id,
        lifecycle,
        region,
        cursor_position_hint,
    })
}

fn buffer(id: u64, dmabuf_planes: usize) -> CachedBuffer {
    CachedBuffer {
        identity: BufferIdentity {
            id: BufferId(id),
            generation: 1,
        },
        dmabuf_planes,
    }
}

#[test]
fn captured_context_merges_parent_state_chronologically() {
    let mut older = CapturedSurfaceCommitContext {
        subsurface_parent: CapturedSubsurfaceParentState {
            activations: vec![relationship(10, 1)],
            positions: vec![
                position(relationship(10, 1), 10, 10),
                position(relationship(20, 2), 20, 20),
            ],
            stack: Some(vec![
                CapturedSubsurfaceStackEntry::Parent,
                CapturedSubsurfaceStackEntry::Child(relationship(10, 1)),
                CapturedSubsurfaceStackEntry::Child(relationship(20, 2)),
            ]),
        },
        layer_surface: None,
    };
    let newer = CapturedSurfaceCommitContext {
        subsurface_parent: CapturedSubsurfaceParentState {
            activations: vec![relationship(20, 2)],
            positions: vec![position(relationship(10, 1), 30, 30)],
            stack: Some(vec![
                CapturedSubsurfaceStackEntry::Parent,
                CapturedSubsurfaceStackEntry::Child(relationship(20, 2)),
                CapturedSubsurfaceStackEntry::Child(relationship(10, 1)),
            ]),
        },
        layer_surface: None,
    };

    older.merge(newer);

    assert_eq!(
        older.subsurface_parent.positions,
        vec![
            position(relationship(10, 1), 30, 30),
            position(relationship(20, 2), 20, 20),
        ]
    );
    assert_eq!(
        older.subsurface_parent.stack,
        Some(vec![
            CapturedSubsurfaceStackEntry::Parent,
            CapturedSubsurfaceStackEntry::Child(relationship(20, 2)),
            CapturedSubsurfaceStackEntry::Child(relationship(10, 1)),
        ])
    );
    assert_eq!(
        older.subsurface_parent.activations,
        vec![relationship(10, 1), relationship(20, 2)]
    );
}

#[test]
fn captured_context_merge_preserves_older_activations_without_duplicates() {
    let mut older = CapturedSurfaceCommitContext {
        subsurface_parent: CapturedSubsurfaceParentState {
            activations: vec![relationship(10, 1)],
            ..CapturedSubsurfaceParentState::default()
        },
        layer_surface: None,
    };
    let newer = CapturedSurfaceCommitContext {
        subsurface_parent: CapturedSubsurfaceParentState {
            activations: vec![relationship(10, 1), relationship(20, 2)],
            ..CapturedSubsurfaceParentState::default()
        },
        layer_surface: None,
    };

    older.merge(newer);

    assert_eq!(
        older.subsurface_parent.activations,
        vec![relationship(10, 1), relationship(20, 2)]
    );
}

#[test]
fn captured_context_merge_keeps_recreated_surface_relationships_distinct() {
    let mut older = CapturedSurfaceCommitContext {
        subsurface_parent: CapturedSubsurfaceParentState {
            activations: vec![relationship(10, 1)],
            positions: vec![position(relationship(10, 1), 1, 2)],
            stack: Some(vec![
                CapturedSubsurfaceStackEntry::Parent,
                CapturedSubsurfaceStackEntry::Child(relationship(10, 1)),
            ]),
        },
        layer_surface: None,
    };
    let newer = CapturedSurfaceCommitContext {
        subsurface_parent: CapturedSubsurfaceParentState {
            activations: vec![relationship(10, 2)],
            positions: vec![position(relationship(10, 2), 3, 4)],
            stack: Some(vec![
                CapturedSubsurfaceStackEntry::Parent,
                CapturedSubsurfaceStackEntry::Child(relationship(10, 2)),
            ]),
        },
        layer_surface: None,
    };

    older.merge(newer);

    assert_eq!(
        older.subsurface_parent.activations,
        vec![relationship(10, 1), relationship(10, 2)]
    );
    assert_eq!(older.subsurface_parent.positions.len(), 2);
    assert_eq!(
        older.subsurface_parent.stack,
        Some(vec![
            CapturedSubsurfaceStackEntry::Parent,
            CapturedSubsurfaceStackEntry::Child(relationship(10, 2)),
        ])
    );
}

#[test]
fn layer_surface_acknowledgement_survives_a_newer_commit_without_one() {
    let mut older = CapturedSurfaceCommitContext {
        subsurface_parent: CapturedSubsurfaceParentState::default(),
        layer_surface: Some(CapturedLayerSurfaceCommitState {
            acknowledged_configure: Some(7),
        }),
    };
    older.merge(CapturedSurfaceCommitContext {
        subsurface_parent: CapturedSubsurfaceParentState::default(),
        layer_surface: Some(CapturedLayerSurfaceCommitState {
            acknowledged_configure: None,
        }),
    });
    assert_eq!(
        older.layer_surface,
        Some(CapturedLayerSurfaceCommitState {
            acknowledged_configure: Some(7)
        })
    );

    older.merge(CapturedSurfaceCommitContext {
        subsurface_parent: CapturedSubsurfaceParentState::default(),
        layer_surface: Some(CapturedLayerSurfaceCommitState {
            acknowledged_configure: Some(9),
        }),
    });
    assert_eq!(
        older.layer_surface,
        Some(CapturedLayerSurfaceCommitState {
            acknowledged_configure: Some(9)
        })
    );
}

#[test]
fn remove_and_install_different_constraints_preserve_both_sides() {
    let mut cached = cached_commit_with_window_geometry(1, XdgWindowGeometry::new(1, 2, 3, 4));
    cached.pointer_constraint_state = pointer_state(
        22,
        PointerConstraintLifecycleCommit::Remove,
        PointerConstraintRegionCommit::NoChange,
        PointerConstraintHintCommit::NoChange,
    );
    let mut newer = cached_commit_with_window_geometry(2, XdgWindowGeometry::new(1, 2, 3, 4));
    newer.pointer_constraint_state = pointer_state(
        23,
        PointerConstraintLifecycleCommit::Install,
        PointerConstraintRegionCommit::Changed(custom_region(5, 6, 7, 8)),
        hint(9.0, 10.0),
    );

    cached.merge(newer);

    assert_eq!(
        cached.pointer_constraint_state,
        CapturedPointerConstraintSurfaceState::Transition(
            CapturedPointerConstraintSurfaceTransition {
                retire: Some(CapturedPointerConstraintCommit {
                    constraint_id: 22,
                    lifecycle: PointerConstraintLifecycleCommit::Remove,
                    region: PointerConstraintRegionCommit::NoChange,
                    cursor_position_hint: PointerConstraintHintCommit::NoChange,
                }),
                install_or_update: Some(CapturedPointerConstraintCommit {
                    constraint_id: 23,
                    lifecycle: PointerConstraintLifecycleCommit::Install,
                    region: PointerConstraintRegionCommit::Changed(custom_region(5, 6, 7, 8)),
                    cursor_position_hint: hint(9.0, 10.0),
                }),
            },
        )
    );
}

#[test]
fn canceled_replacement_does_not_lose_old_retirement() {
    let mut cached = cached_commit_with_window_geometry(1, XdgWindowGeometry::new(1, 2, 3, 4));
    cached.pointer_constraint_state = pointer_state(
        22,
        PointerConstraintLifecycleCommit::Remove,
        PointerConstraintRegionCommit::NoChange,
        PointerConstraintHintCommit::NoChange,
    );
    let mut install = cached_commit_with_window_geometry(2, XdgWindowGeometry::new(1, 2, 3, 4));
    install.pointer_constraint_state = pointer_state(
        23,
        PointerConstraintLifecycleCommit::Install,
        PointerConstraintRegionCommit::Changed(SurfaceInputRegion::Default),
        hint(9.0, 10.0),
    );
    cached.merge(install);
    let mut cancel = cached_commit_with_window_geometry(3, XdgWindowGeometry::new(1, 2, 3, 4));
    cancel.pointer_constraint_state = pointer_state(
        23,
        PointerConstraintLifecycleCommit::Cancel,
        PointerConstraintRegionCommit::NoChange,
        PointerConstraintHintCommit::NoChange,
    );

    cached.merge(cancel);

    assert_eq!(
        cached.pointer_constraint_state.into_transition(),
        Some(CapturedPointerConstraintSurfaceTransition {
            retire: Some(CapturedPointerConstraintCommit {
                constraint_id: 22,
                lifecycle: PointerConstraintLifecycleCommit::Remove,
                region: PointerConstraintRegionCommit::NoChange,
                cursor_position_hint: PointerConstraintHintCommit::NoChange,
            }),
            install_or_update: None,
        })
    );
}

#[test]
fn newer_region_replaces_older_region_but_no_change_preserves_it() {
    let mut cached = cached_commit_with_window_geometry(1, XdgWindowGeometry::new(1, 2, 3, 4));
    cached.pointer_constraint_state = pointer_state(
        1,
        PointerConstraintLifecycleCommit::NoChange,
        PointerConstraintRegionCommit::Changed(custom_region(1, 2, 3, 4)),
        PointerConstraintHintCommit::NoChange,
    );
    let mut newer = cached_commit_with_window_geometry(2, XdgWindowGeometry::new(1, 2, 3, 4));
    newer.pointer_constraint_state = pointer_state(
        1,
        PointerConstraintLifecycleCommit::NoChange,
        PointerConstraintRegionCommit::Changed(custom_region(5, 6, 7, 8)),
        PointerConstraintHintCommit::NoChange,
    );

    cached.merge(newer);

    assert_eq!(
        cached.pointer_constraint_state,
        pointer_state(
            1,
            PointerConstraintLifecycleCommit::NoChange,
            PointerConstraintRegionCommit::Changed(custom_region(5, 6, 7, 8)),
            PointerConstraintHintCommit::NoChange,
        )
    );
}

#[test]
fn newer_pending_background_effect_replaces_older_pending_effect() {
    let mut cached = cached_commit_with_window_geometry(1, XdgWindowGeometry::new(1, 2, 3, 4));
    let first = BackgroundEffectRegion::from_surface_input_region(custom_region(1, 2, 3, 4));
    let second = BackgroundEffectRegion::from_surface_input_region(custom_region(5, 6, 7, 8));
    cached.background_effect = Some(first);
    let mut newer = cached_commit_with_window_geometry(2, XdgWindowGeometry::new(1, 2, 3, 4));
    newer.background_effect = Some(second.clone());

    cached.merge(newer);

    assert_eq!(cached.background_effect, Some(second));
}

#[test]
fn explicit_default_region_is_not_treated_as_no_change() {
    let mut cached = cached_commit_with_window_geometry(1, XdgWindowGeometry::new(1, 2, 3, 4));
    cached.pointer_constraint_state = pointer_state(
        1,
        PointerConstraintLifecycleCommit::NoChange,
        PointerConstraintRegionCommit::Changed(custom_region(1, 2, 3, 4)),
        PointerConstraintHintCommit::NoChange,
    );
    let mut newer = cached_commit_with_window_geometry(2, XdgWindowGeometry::new(1, 2, 3, 4));
    newer.pointer_constraint_state = pointer_state(
        1,
        PointerConstraintLifecycleCommit::NoChange,
        PointerConstraintRegionCommit::Changed(SurfaceInputRegion::Default),
        PointerConstraintHintCommit::NoChange,
    );

    cached.merge(newer);

    assert_eq!(
        cached.pointer_constraint_state,
        pointer_state(
            1,
            PointerConstraintLifecycleCommit::NoChange,
            PointerConstraintRegionCommit::Changed(SurfaceInputRegion::Default),
            PointerConstraintHintCommit::NoChange,
        )
    );
}

#[test]
fn install_then_remove_before_publication_collapses_without_activation() {
    let mut cached = cached_commit_with_window_geometry(1, XdgWindowGeometry::new(1, 2, 3, 4));
    cached.pointer_constraint_state = pointer_state(
        22,
        PointerConstraintLifecycleCommit::Install,
        PointerConstraintRegionCommit::Changed(custom_region(11, 12, 13, 14)),
        hint(15.0, 16.0),
    );
    let mut newer = cached_commit_with_window_geometry(2, XdgWindowGeometry::new(1, 2, 3, 4));
    newer.pointer_constraint_state = pointer_state(
        22,
        PointerConstraintLifecycleCommit::Remove,
        PointerConstraintRegionCommit::NoChange,
        PointerConstraintHintCommit::NoChange,
    );

    cached.merge(newer);

    assert_eq!(
        cached.pointer_constraint_state,
        CapturedPointerConstraintSurfaceState::NoChange
    );
}

#[test]
fn current_constraint_removal_survives_cached_commit_merge() {
    let mut cached = cached_commit_with_window_geometry(1, XdgWindowGeometry::new(1, 2, 3, 4));
    cached.pointer_constraint_state = pointer_state(
        22,
        PointerConstraintLifecycleCommit::Remove,
        PointerConstraintRegionCommit::NoChange,
        PointerConstraintHintCommit::NoChange,
    );
    let newer = cached_commit_with_window_geometry(2, XdgWindowGeometry::new(1, 2, 3, 4));

    cached.merge(newer);

    assert_eq!(
        cached.pointer_constraint_state,
        CapturedPointerConstraintSurfaceState::Mutation(CapturedPointerConstraintCommit {
            constraint_id: 22,
            lifecycle: PointerConstraintLifecycleCommit::Remove,
            region: PointerConstraintRegionCommit::NoChange,
            cursor_position_hint: PointerConstraintHintCommit::NoChange,
        })
    );
}

#[test]
fn no_change_hint_preserves_captured_hint_until_a_new_hint_is_captured() {
    let mut cached = cached_commit_with_window_geometry(1, XdgWindowGeometry::new(1, 2, 3, 4));
    cached.pointer_constraint_state = pointer_state(
        1,
        PointerConstraintLifecycleCommit::NoChange,
        PointerConstraintRegionCommit::NoChange,
        hint(12.0, 18.0),
    );
    let newer = cached_commit_with_window_geometry(2, XdgWindowGeometry::new(1, 2, 3, 4));

    cached.merge(newer);

    assert_eq!(
        cached.pointer_constraint_state,
        CapturedPointerConstraintSurfaceState::Mutation(CapturedPointerConstraintCommit {
            constraint_id: 1,
            lifecycle: PointerConstraintLifecycleCommit::NoChange,
            region: PointerConstraintRegionCommit::NoChange,
            cursor_position_hint: hint(12.0, 18.0),
        })
    );
}

#[test]
fn cached_window_geometry_uses_latest_committed_value() {
    let mut cached = cached_commit_with_window_geometry(1, XdgWindowGeometry::new(1, 2, 300, 200));
    let newer = cached_commit_with_window_geometry(2, XdgWindowGeometry::new(8, 9, 320, 220));

    cached.merge(newer);

    assert_eq!(
        cached.window_geometry,
        Some(XdgWindowGeometry::new(8, 9, 320, 220))
    );
}

#[test]
fn update_then_removal_of_effective_constraint_retires_with_its_update() {
    let older = pointer_state(
        5,
        PointerConstraintLifecycleCommit::NoChange,
        PointerConstraintRegionCommit::NoChange,
        hint(3.0, 4.0),
    );
    let newer = pointer_state(
        5,
        PointerConstraintLifecycleCommit::Remove,
        PointerConstraintRegionCommit::NoChange,
        PointerConstraintHintCommit::NoChange,
    );

    assert_eq!(
        older.merge(newer),
        pointer_state(
            5,
            PointerConstraintLifecycleCommit::Remove,
            PointerConstraintRegionCommit::NoChange,
            hint(3.0, 4.0),
        )
    );
}

#[test]
fn cached_merge_keeps_identity_callbacks_and_releases_superseded_state() {
    let mut cached = cached_commit_with_window_geometry(1, XdgWindowGeometry::new(0, 0, 10, 10));
    cached.attachment = Some(PendingSurfaceAttachment::Buffer(buffer(7, 0)));
    cached.frame_callbacks = vec![100, 101];
    cached.presentation_feedbacks = vec![200];
    cached.offset = Some((1, 2));
    cached.explicit_sync = Some(CapturedExplicitSyncPoints {
        acquire: true,
        release: true,
    });
    let mut newer = cached_commit_with_window_geometry(2, XdgWindowGeometry::new(0, 0, 10, 10));
    newer.attachment = Some(PendingSurfaceAttachment::Buffer(buffer(8, 2)));
    newer.frame_callbacks = vec![102];
    newer.presentation_feedbacks = vec![201];

    assert_eq!(cached.merged_cached_obligation_count(&newer), 3 + 1 + 3);
    let outcome = cached.merge(newer);

    assert_eq!(outcome.superseded_buffer, Some(buffer(7, 0)));
    assert_eq!(outcome.discarded_feedbacks, vec![200]);
    assert_eq!(cached.commit_id, 2);
    assert_eq!(cached.commit_sequence, SurfaceCommitSequence(2));
    assert_eq!(cached.frame_callbacks, vec![100, 101, 102]);
    assert_eq!(cached.presentation_feedbacks, vec![201]);
    assert_eq!(cached.offset, Some((1, 2)));
    assert_eq!(cached.explicit_sync, None);
    assert_eq!(
        cached.attachment,
        Some(PendingSurfaceAttachment::Buffer(buffer(8, 2)))
    );
    assert_eq!(cached.cached_obligation_count(), 3 + 1 + 3);
}

#[test]
fn removed_content_supersedes_no_buffer() {
    let mut cached = cached_commit_with_window_geometry(1, XdgWindowGeometry::new(0, 0, 10, 10));
    cached.attachment = Some(PendingSurfaceAttachment::RemoveContent);
    let mut newer = cached_commit_with_window_geometry(2, XdgWindowGeometry::new(0, 0, 10, 10));
    newer.attachment = Some(PendingSurfaceAttachment::Buffer(buffer(9, 0)));

    assert_eq!(cached.merge(newer).superseded_buffer, None);
}

#[test]
fn damage_merge_unions_partial_lists_and_full_absorbs() {
    let a = SurfaceDamageRect {
        x: 0,
        y: 0,
        width: 1,
        height: 1,
    };
    let b = SurfaceDamageRect {
        x: 5,
        y: 5,
        width: 2,
        height: 2,
    };
    assert_eq!(
        merge_damage(
            Some(RenderableSurfaceDamage::Partial(vec![a])),
            Some(RenderableSurfaceDamage::Partial(vec![b]))
        ),
        Some(RenderableSurfaceDamage::Partial(vec![a, b]))
    );
    assert_eq!(
        merge_damage(
            Some(RenderableSurfaceDamage::Partial(vec![a])),
            Some(RenderableSurfaceDamage::Full)
        ),
        Some(RenderableSurfaceDamage::Full)
    );
    assert_eq!(
        merge_damage(None, Some(RenderableSurfaceDamage::Partial(vec![b]))),
        Some(RenderableSurfaceDamage::Partial(vec![b]))
    );
    assert_eq!(merge_damage(None, None), None);
}
