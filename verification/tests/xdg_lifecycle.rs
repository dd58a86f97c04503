use typhon::compositor::{CompositorState, PendingSurfaceTreeTransaction};
use typhon::xdg_lifecycle::{XdgMapState, XdgSurfaceLifecycle};

fn initialized_lifecycle() -> XdgSurfaceLifecycle {
    let mut lifecycle = XdgSurfaceLifecycle::default();
    assert!(lifecycle.mark_initial_empty_commit());
    lifecycle.record_configure(1);
    assert!(lifecycle.acknowledge(1).is_ok());
    lifecycle.mark_buffer_commit();
    lifecycle
}

#[test]
fn first_buffer_requires_initial_configure_ack() {
    let mut lifecycle = XdgSurfaceLifecycle::default();
    assert!(!lifecycle.can_commit_buffer());
    assert!(lifecycle.mark_initial_empty_commit());
    lifecycle.record_configure(1);
    assert!(!lifecycle.can_commit_buffer());
    assert!(lifecycle.acknowledge(1).is_ok());
    assert!(lifecycle.can_commit_buffer());
}

#[test]
fn mapped_surface_accepts_existing_valid_content_with_outstanding_configure() {
    let mut lifecycle = initialized_lifecycle();
    lifecycle.record_configure(2);

    assert!(lifecycle.has_outstanding_configure());
    assert!(lifecycle.can_commit_buffer());
}

#[test]
fn acknowledging_newest_configure_retires_older_records() {
    let mut lifecycle = initialized_lifecycle();
    lifecycle.record_configure(2);
    lifecycle.record_configure(3);

    assert!(lifecycle.acknowledge(3).is_ok());
    assert!(!lifecycle.has_outstanding_configure());
    assert_eq!(lifecycle.last_acked_serial, Some(3));
    assert!(lifecycle.can_commit_buffer());
}

#[test]
fn unknown_configure_acknowledgement_is_rejected() {
    let mut lifecycle = initialized_lifecycle();
    lifecycle.record_configure(2);

    assert!(lifecycle.acknowledge(99).is_err());
    assert!(lifecycle.has_outstanding_configure());
    assert!(lifecycle.can_commit_buffer());
}

#[test]
fn unmap_requires_a_fresh_configure_ack_before_remap() {
    let mut lifecycle = initialized_lifecycle();
    lifecycle.mark_unmapped();
    assert!(!lifecycle.can_commit_buffer());

    assert!(lifecycle.needs_configure());
    lifecycle.record_configure(4);
    assert!(!lifecycle.can_commit_buffer());
    assert!(lifecycle.acknowledge(4).is_ok());
    assert!(lifecycle.can_commit_buffer());
}

#[test]
fn configure_sequences_do_not_regress_initialized_state() {
    let mut lifecycle = initialized_lifecycle();
    for serial in 2..=32 {
        lifecycle.record_configure(serial);
        assert!(lifecycle.can_commit_buffer());
        assert!(lifecycle.acknowledge(serial).is_ok());
        assert!(lifecycle.can_commit_buffer());
    }
}

#[test]
fn bounded_configure_model_never_accepts_pre_initial_buffer() {
    let mut lifecycle = XdgSurfaceLifecycle::default();
    let mut random = 0x5eed_u32;

    for step in 0..256 {
        random = random.wrapping_mul(1_664_525).wrapping_add(1_013_904_223);
        match random % 5 {
            0 => {
                lifecycle.mark_initial_empty_commit();
            }
            1 => {
                lifecycle.record_configure(step + 1);
            }
            2 => {
                let serial = if random & 1 == 0 { step + 1 } else { random };
                let _ = lifecycle.acknowledge(serial);
            }
            3 => {
                lifecycle.mark_buffer_commit();
            }
            _ => {
                lifecycle.mark_unmapped();
            }
        }

        if !lifecycle.can_commit_buffer() {
            assert!(
                lifecycle.last_acked_serial.is_none()
                    || lifecycle.map_state == XdgMapState::AwaitingInitialConfigureAck
            );
        }
    }
}

#[test]
fn reassociation_guard_detects_unpublished_surface_tree_work() {
    let mut state = CompositorState::default();
    state
        .pending_surface_tree_transactions
        .push(PendingSurfaceTreeTransaction {
            root_surface_id: 7,
            nodes: vec![7],
        });

    assert!(state.has_unpublished_surface_work(7));
    assert!(!state.has_unpublished_surface_work(8));
}

#[test]
fn construction_accepts_one_role_only() {
    let mut lifecycle = XdgSurfaceLifecycle::default();
    assert!(!lifecycle.is_constructed());
    assert!(lifecycle.construct_toplevel().is_ok());
    assert!(lifecycle.is_constructed());
    assert!(lifecycle.construct_popup().is_err());
    assert!(lifecycle.construct_toplevel().is_err());
}

#[test]
fn first_empty_commit_requests_configure_once() {
    let mut lifecycle = XdgSurfaceLifecycle::default();
    assert!(!lifecycle.needs_configure());
    lifecycle.begin_empty_or_unmap_commit();
    assert!(lifecycle.needs_configure());
    assert_eq!(lifecycle.map_state, XdgMapState::AwaitingInitialConfigureAck);
    assert!(!lifecycle.mark_initial_empty_commit());
    lifecycle.record_configure(5);
    assert!(!lifecycle.needs_configure());
    assert!(lifecycle.acknowledge(5).is_ok());
    assert!(lifecycle.acknowledge(5).is_err());
    assert_eq!(lifecycle.map_state, XdgMapState::UnmappedConfigured);
    lifecycle.mark_buffer_commit();
    assert_eq!(lifecycle.map_state, XdgMapState::Mapped);
    lifecycle.begin_empty_or_unmap_commit();
    assert_eq!(lifecycle.map_state, XdgMapState::AwaitingInitialEmptyCommit);
    assert!(!lifecycle.can_commit_buffer());
}

#[test]
fn compositor_routes_configure_acknowledgements_per_surface() {
    let mut state = CompositorState::default();
    state
        .xdg_surface_lifecycles
        .insert(3, XdgSurfaceLifecycle::default());
    assert!(!state.acknowledge_xdg_configure(4, 1));
    assert!(state.mark_xdg_empty_commit(3));
    state.record_xdg_configure(3, 10);
    assert!(!state.xdg_surface_is_configured(3));
    assert!(!state.acknowledge_xdg_configure(3, 11));
    assert!(state.acknowledge_xdg_configure(3, 10));
    assert!(state.xdg_surface_is_configured(3));
    state.mark_xdg_buffer_commit(3);
    assert!(!state.xdg_surface_is_constructed(3));
    state.begin_xdg_empty_or_unmap_commit(3);
    assert!(!state.xdg_surface_is_configured(3));
}

#[test]
fn lifecycle_lookup_finds_only_registered_surfaces() {
    let mut state = CompositorState::default();
    assert!(state.xdg_surface_lifecycle(7).is_none());
    state.xdg_surface_lifecycles.insert(7, initialized_lifecycle());
    let lifecycle = state.xdg_surface_lifecycle(7).expect("lifecycle");
    assert!(lifecycle.can_commit_buffer());
    assert!(state.xdg_surface_lifecycle(8).is_none());
}
