//! Protocol-compliance and buffer-lifetime counters.
use vstd::prelude::*;

verus! {

/// `counter + amount`, saturating at `u64::MAX`.
pub open spec fn saturated(counter: u64, amount: int) -> u64 {
    if counter + amount > u64::MAX {
        u64::MAX
    } else {
        (counter + amount) as u64
    }
}

/// Counters of protocol-compliance events. Every counter saturates instead of wrapping.
#[derive(Debug, Clone, Copy, PartialEq, Eq, Structural)]
pub struct CoreComplianceMetrics {
    pub protocol_errors_total: u64,
    pub supported_request_unhandled_total: u64,
    pub client_state_leaks_detected: u64,
    pub xdg_same_role_reassociations_total: u64,
    pub xdg_cross_role_reassociation_rejections: u64,
    pub xdg_role_destroyed_pending_commits_retired: u64,
    pub xdg_role_destroyed_pending_trees_retired: u64,
    pub xdg_role_destroyed_acquire_watches_cancelled: u64,
    pub xdg_reassociation_blocked_stale_unpublished_work: u64,
    pub surface_enter_events: u64,
    pub surface_leave_events: u64,
    pub broad_membership_reconciliations: u64,
    pub affected_root_membership_reconciliations: u64,
    pub membership_surfaces_inspected: u64,
    pub membership_noops: u64,
    pub active_root_scene_refreshes: u64,
    pub prevented_duplicate_root_refreshes: u64,
    pub preferred_scale_events: u64,
    pub preferred_transform_events: u64,
    pub dnd_sessions_started: u64,
    pub dnd_sessions_finished: u64,
    pub dnd_sessions_cancelled: u64,
    pub dnd_duplicate_terminal_attempts: u64,
    pub dnd_orphaned_resources_detected: u64,
    pub dnd_source_cancelled_events: u64,
    pub dnd_source_finished_events: u64,
    pub dnd_offer_action_events: u64,
    pub dnd_source_action_events: u64,
    pub pointer_axis_frames: u64,
    pub surface_commit_buffer_rotations: u64,
    pub surface_commit_partial_damage_preserved: u64,
    pub surface_commit_empty_damage_preserved: u64,
    pub surface_commit_mapping_full_promotions: u64,
    pub surface_commit_stack_reorders: u64,
    pub surface_commit_stack_reorder_skips: u64,
    pub surface_commit_geometry_noops: u64,
    pub surface_commit_popup_topology_updates: u64,
    pub surface_commit_popup_pointer_refreshes: u64,
}

/// Why a request reached the unhandled path.
#[derive(Debug, Clone, Copy, PartialEq, Eq, Structural)]
pub enum UnhandledRequestClass {
    /// A request from a newer protocol version, or a generated non-exhaustive arm.
    FutureVersionOrGeneratedNonExhaustive,
    /// A request the compositor advertises but does not handle: a compliance defect.
    SupportedButUnhandled,
}

impl CoreComplianceMetrics {
    /// Whether every counter is still zero.
    pub open spec fn all_zero(self) -> bool {
        &&& self.protocol_errors_total == 0
        &&& self.supported_request_unhandled_total == 0
        &&& self.client_state_leaks_detected == 0
        &&& self.xdg_same_role_reassociations_total == 0
        &&& self.xdg_cross_role_reassociation_rejections == 0
        &&& self.xdg_role_destroyed_pending_commits_retired == 0
        &&& self.xdg_role_destroyed_pending_trees_retired == 0
        &&& self.xdg_role_destroyed_acquire_watches_cancelled == 0
        &&& self.xdg_reassociation_blocked_stale_unpublished_work == 0
        &&& self.surface_enter_events == 0
        &&& self.surface_leave_events == 0
        &&& self.broad_membership_reconciliations == 0
        &&& self.affected_root_membership_reconciliations == 0
        &&& self.membership_surfaces_inspected == 0
        &&& self.membership_noops == 0
        &&& self.active_root_scene_refreshes == 0
        &&& self.prevented_duplicate_root_refreshes == 0
        &&& self.preferred_scale_events == 0
        &&& self.preferred_transform_events == 0
        &&& self.dnd_sessions_started == 0
        &&& self.dnd_sessions_finished == 0
        &&& self.dnd_sessions_cancelled == 0
        &&& self.dnd_duplicate_terminal_attempts == 0
        &&& self.dnd_orphaned_resources_detected == 0
        &&& self.dnd_source_cancelled_events == 0
        &&& self.dnd_source_finished_events == 0
        &&& self.dnd_offer_action_events == 0
        &&& self.dnd_source_action_events == 0
        &&& self.pointer_axis_frames == 0
        &&& self.surface_commit_buffer_rotations == 0
        &&& self.surface_commit_partial_damage_preserved == 0
        &&& self.surface_commit_empty_damage_preserved == 0
        &&& self.surface_commit_mapping_full_promotions == 0
        &&& self.surface_commit_stack_reorders == 0
        &&& self.surface_commit_stack_reorder_skips == 0
        &&& self.surface_commit_geometry_noops == 0
        &&& self.surface_commit_popup_topology_updates == 0
        &&& self.surface_commit_popup_pointer_refreshes == 0
    }
}

impl Default for CoreComplianceMetrics {
    fn default() -> (r: Self)
        ensures
            r.all_zero(),
    {
        CoreComplianceMetrics {
            protocol_errors_total: 0,
            supported_request_unhandled_total: 0,
            client_state_leaks_detected: 0,
            xdg_same_role_reassociations_total: 0,
            xdg_cross_role_reassociation_rejections: 0,
            xdg_role_destroyed_pending_commits_retired: 0,
            xdg_role_destroyed_pending_trees_retired: 0,
            xdg_role_destroyed_acquire_watches_cancelled: 0,
            xdg_reassociation_blocked_stale_unpublished_work: 0,
            surface_enter_events: 0,
            surface_leave_events: 0,
            broad_membership_reconciliations: 0,
            affected_root_membership_reconciliations: 0,
            membership_surfaces_inspected: 0,
            membership_noops: 0,
            active_root_scene_refreshes: 0,
            prevented_duplicate_root_refreshes: 0,
            preferred_scale_events: 0,
            preferred_transform_events: 0,
            dnd_sessions_started: 0,
            dnd_sessions_finished: 0,
            dnd_sessions_cancelled: 0,
            dnd_duplicate_terminal_attempts: 0,
            dnd_orphaned_resources_detected: 0,
            dnd_source_cancelled_events: 0,
            dnd_source_finished_events: 0,
            dnd_offer_action_events: 0,
            dnd_source_action_events: 0,
            pointer_axis_frames: 0,
            surface_commit_buffer_rotations: 0,
            surface_commit_partial_damage_preserved: 0,
            surface_commit_empty_damage_preserved: 0,
            surface_commit_mapping_full_promotions: 0,
            surface_commit_stack_reorders: 0,
            surface_commit_stack_reorder_skips: 0,
            surface_commit_geometry_noops: 0,
            surface_commit_popup_topology_updates: 0,
            surface_commit_popup_pointer_refreshes: 0,
        }
    }
}

impl CoreComplianceMetrics {
    pub fn note_protocol_error(&mut self)
        ensures
            *final(self) == (CoreComplianceMetrics { protocol_errors_total: saturated(old(self).protocol_errors_total, 1), ..*old(self) }),
    {
        self.protocol_errors_total = self.protocol_errors_total.saturating_add(1);
    }

    pub fn note_unhandled_supported_request(&mut self)
        ensures
            *final(self) == (CoreComplianceMetrics { supported_request_unhandled_total: saturated(old(self).supported_request_unhandled_total, 1), ..*old(self) }),
    {
        self.supported_request_unhandled_total = self.supported_request_unhandled_total.saturating_add(1);
    }

    pub fn note_surface_commit_buffer_rotation(&mut self)
        ensures
            *final(self) == (CoreComplianceMetrics { surface_commit_buffer_rotations: saturated(old(self).surface_commit_buffer_rotations, 1), ..*old(self) }),
    {
        self.surface_commit_buffer_rotations = self.surface_commit_buffer_rotations.saturating_add(1);
    }

    pub fn note_surface_commit_partial_damage_preserved(&mut self)
        ensures
            *final(self) == (CoreComplianceMetrics { surface_commit_partial_damage_preserved: saturated(old(self).surface_commit_partial_damage_preserved, 1), ..*old(self) }),
    {
        self.surface_commit_partial_damage_preserved = self.surface_commit_partial_damage_preserved.saturating_add(1);
    }

    pub fn note_surface_commit_empty_damage_preserved(&mut self)
        ensures
            *final(self) == (CoreComplianceMetrics { surface_commit_empty_damage_preserved: saturated(old(self).surface_commit_empty_damage_preserved, 1), ..*old(self) }),
    {
        self.surface_commit_empty_damage_preserved = self.surface_commit_empty_damage_preserved.saturating_add(1);
    }

    pub fn note_surface_commit_mapping_full_promotion(&mut self)
        ensures
            *final(self) == (CoreComplianceMetrics { surface_commit_mapping_full_promotions: saturated(old(self).surface_commit_mapping_full_promotions, 1), ..*old(self) }),
    {
        self.surface_commit_mapping_full_promotions = self.surface_commit_mapping_full_promotions.saturating_add(1);
    }

    pub fn note_surface_commit_stack_reorder(&mut self)
        ensures
            *final(self) == (CoreComplianceMetrics { surface_commit_stack_reorders: saturated(old(self).surface_commit_stack_reorders, 1), ..*old(self) }),
    {
        self.surface_commit_stack_reorders = self.surface_commit_stack_reorders.saturating_add(1);
    }

    pub fn note_surface_commit_stack_reorder_skip(&mut self)
        ensures
            *final(self) == (CoreComplianceMetrics { surface_commit_stack_reorder_skips: saturated(old(self).surface_commit_stack_reorder_skips, 1), ..*old(self) }),
    {
        self.surface_commit_stack_reorder_skips = self.surface_commit_stack_reorder_skips.saturating_add(1);
    }

    pub fn note_surface_commit_geometry_noop(&mut self)
        ensures
            *final(self) == (CoreComplianceMetrics { surface_commit_geometry_noops: saturated(old(self).surface_commit_geometry_noops, 1), ..*old(self) }),
    {
        self.surface_commit_geometry_noops = self.surface_commit_geometry_noops.saturating_add(1);
    }

    pub fn note_surface_commit_popup_topology_update(&mut self)
        ensures
            *final(self) == (CoreComplianceMetrics { surface_commit_popup_topology_updates: saturated(old(self).surface_commit_popup_topology_updates, 1), ..*old(self) }),
    {
        self.surface_commit_popup_topology_updates = self.surface_commit_popup_topology_updates.saturating_add(1);
    }

    pub fn note_surface_commit_popup_pointer_refresh(&mut self)
        ensures
            *final(self) == (CoreComplianceMetrics { surface_commit_popup_pointer_refreshes: saturated(old(self).surface_commit_popup_pointer_refreshes, 1), ..*old(self) }),
    {
        self.surface_commit_popup_pointer_refreshes = self.surface_commit_popup_pointer_refreshes.saturating_add(1);
    }

    pub fn note_xdg_same_role_reassociation(&mut self)
        ensures
            *final(self) == (CoreComplianceMetrics { xdg_same_role_reassociations_total: saturated(old(self).xdg_same_role_reassociations_total, 1), ..*old(self) }),
    {
        self.xdg_same_role_reassociations_total = self.xdg_same_role_reassociations_total.saturating_add(1);
    }

    pub fn note_xdg_cross_role_reassociation_rejection(&mut self)
        ensures
            *final(self) == (CoreComplianceMetrics { xdg_cross_role_reassociation_rejections: saturated(old(self).xdg_cross_role_reassociation_rejections, 1), ..*old(self) }),
    {
        self.xdg_cross_role_reassociation_rejections = self.xdg_cross_role_reassociation_rejections.saturating_add(1);
    }

    pub fn note_xdg_reassociation_blocked_stale_unpublished_work(&mut self)
        ensures
            *final(self) == (CoreComplianceMetrics { xdg_reassociation_blocked_stale_unpublished_work: saturated(old(self).xdg_reassociation_blocked_stale_unpublished_work, 1), ..*old(self) }),
    {
        self.xdg_reassociation_blocked_stale_unpublished_work = self.xdg_reassociation_blocked_stale_unpublished_work.saturating_add(1);
    }

    pub fn note_dnd_duplicate_terminal_attempt(&mut self)
        ensures
            *final(self) == (CoreComplianceMetrics { dnd_duplicate_terminal_attempts: saturated(old(self).dnd_duplicate_terminal_attempts, 1), ..*old(self) }),
    {
        self.dnd_duplicate_terminal_attempts = self.dnd_duplicate_terminal_attempts.saturating_add(1);
    }

    /// Counts a supported-but-unhandled request; returns whether the request
    /// is a compliance defect that the caller should report.
    pub fn note_unhandled_request(&mut self, class: UnhandledRequestClass) -> (report: bool)
        ensures
            report == (class == UnhandledRequestClass::SupportedButUnhandled),
            report ==> *final(self) == (CoreComplianceMetrics {
                supported_request_unhandled_total: saturated(old(self).supported_request_unhandled_total, 1),
                ..*old(self)
            }),
            !report ==> *final(self) == *old(self),
    {
        match class {
            UnhandledRequestClass::FutureVersionOrGeneratedNonExhaustive => false,
            UnhandledRequestClass::SupportedButUnhandled => {
                self.note_unhandled_supported_request();
                true
            },
        }
    }

    pub fn note_xdg_role_destroyed_pending_commits_retired(&mut self, count: usize)
        ensures
            *final(self) == (CoreComplianceMetrics { xdg_role_destroyed_pending_commits_retired: saturated(old(self).xdg_role_destroyed_pending_commits_retired, count as int), ..*old(self) }),
    {
        self.xdg_role_destroyed_pending_commits_retired = self.xdg_role_destroyed_pending_commits_retired.saturating_add(count as u64);
    }

    pub fn note_xdg_role_destroyed_pending_trees_retired(&mut self, count: usize)
        ensures
            *final(self) == (CoreComplianceMetrics { xdg_role_destroyed_pending_trees_retired: saturated(old(self).xdg_role_destroyed_pending_trees_retired, count as int), ..*old(self) }),
    {
        self.xdg_role_destroyed_pending_trees_retired = self.xdg_role_destroyed_pending_trees_retired.saturating_add(count as u64);
    }

    pub fn note_xdg_role_destroyed_acquire_watches_cancelled(&mut self, count: usize)
        ensures
            *final(self) == (CoreComplianceMetrics { xdg_role_destroyed_acquire_watches_cancelled: saturated(old(self).xdg_role_destroyed_acquire_watches_cancelled, count as int), ..*old(self) }),
    {
        self.xdg_role_destroyed_acquire_watches_cancelled = self.xdg_role_destroyed_acquire_watches_cancelled.saturating_add(count as u64);
    }

}

/// Counters of shared-memory buffer lifetime events.
#[derive(Debug, Clone, Copy, PartialEq, Eq, Structural)]
pub struct ShmBufferLifetimeMetrics {
    pub shm_materializations_total: u64,
    pub shm_materialization_failures_total: u64,
    pub shm_releases_after_materialization_total: u64,
    pub shm_releases_deferred_unmaterialized_total: u64,
    pub shm_releases_superseded_without_read_total: u64,
    pub shm_copy_to_release_us: u64,
    pub presentation_bound_shm_release_total: u64,
    pub released_shm_backing_read_attempts_total: u64,
}

impl Default for ShmBufferLifetimeMetrics {
    fn default() -> (r: Self)
        ensures
            r.shm_materializations_total == 0,
            r.shm_materialization_failures_total == 0,
            r.shm_releases_after_materialization_total == 0,
            r.shm_releases_deferred_unmaterialized_total == 0,
            r.shm_releases_superseded_without_read_total == 0,
            r.shm_copy_to_release_us == 0,
            r.presentation_bound_shm_release_total == 0,
            r.released_shm_backing_read_attempts_total == 0,
    {
        ShmBufferLifetimeMetrics {
            shm_materializations_total: 0,
            shm_materialization_failures_total: 0,
            shm_releases_after_materialization_total: 0,
            shm_releases_deferred_unmaterialized_total: 0,
            shm_releases_superseded_without_read_total: 0,
            shm_copy_to_release_us: 0,
            presentation_bound_shm_release_total: 0,
            released_shm_backing_read_attempts_total: 0,
        }
    }
}

} // verus!
