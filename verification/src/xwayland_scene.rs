//! Batching of XWayland scene changes: while a batch is open, pointer-focus
//! refreshes, render-stack reorders and client-list syncs are deferred and
//! coalesced into dirty flags that the batch's commit hands back at once.
use vstd::prelude::*;
use crate::compositor::{bump, CompositorState};

verus! {

/// Proof of having opened the current batch.
#[derive(Debug, Clone, Copy, PartialEq, Eq, Structural)]
pub struct XwaylandSceneBatchToken {
    pub epoch: u64,
}

#[derive(Debug, Clone, Copy, PartialEq, Eq, Structural)]
pub enum XwaylandSceneBatchError {
    AlreadyActive,
    NotActive,
    InvalidToken,
}

/// The work a batch deferred.
#[derive(Debug, Clone, Copy, PartialEq, Eq, Structural)]
pub struct XwaylandSceneBatchDirty {
    pub pointer_focus_dirty: bool,
    pub render_stack_dirty: bool,
    pub client_lists_dirty: bool,
    pub repaint_dirty: bool,
}

pub open spec fn clean_dirty() -> XwaylandSceneBatchDirty {
    XwaylandSceneBatchDirty {
        pointer_focus_dirty: false,
        render_stack_dirty: false,
        client_lists_dirty: false,
        repaint_dirty: false,
    }
}

impl Default for XwaylandSceneBatchDirty {
    fn default() -> (r: Self)
        ensures
            r == clean_dirty(),
    {
        XwaylandSceneBatchDirty {
            pointer_focus_dirty: false,
            render_stack_dirty: false,
            client_lists_dirty: false,
            repaint_dirty: false,
        }
    }
}

/// Counters of batching; all saturate.
#[derive(Debug, Clone, Copy, PartialEq, Eq, Structural)]
pub struct XwaylandSceneBatchMetrics {
    pub xwayland_scene_batches: u64,
    pub xwayland_scene_mutations: u64,
    pub pointer_refreshes_deferred: u64,
    pub intermediate_pointer_targets_suppressed: u64,
    pub pointer_refreshes_committed: u64,
    pub render_stack_reorders_coalesced: u64,
    pub client_list_syncs_coalesced: u64,
}

impl Default for XwaylandSceneBatchMetrics {
    fn default() -> (r: Self)
        ensures
            r == (XwaylandSceneBatchMetrics {
                xwayland_scene_batches: 0,
                xwayland_scene_mutations: 0,
                pointer_refreshes_deferred: 0,
                intermediate_pointer_targets_suppressed: 0,
                pointer_refreshes_committed: 0,
                render_stack_reorders_coalesced: 0,
                client_list_syncs_coalesced: 0,
            }),
    {
        XwaylandSceneBatchMetrics {
            xwayland_scene_batches: 0,
            xwayland_scene_mutations: 0,
            pointer_refreshes_deferred: 0,
            intermediate_pointer_targets_suppressed: 0,
            pointer_refreshes_committed: 0,
            render_stack_reorders_coalesced: 0,
            client_list_syncs_coalesced: 0,
        }
    }
}

/// The open batch, if any, the epoch of the last batch, what it deferred, and counters.
#[derive(Debug, Clone, Copy, PartialEq, Eq, Structural)]
pub struct XwaylandSceneBatch {
    pub active: Option<XwaylandSceneBatchToken>,
    pub next_epoch: u64,
    pub dirty: XwaylandSceneBatchDirty,
    pub metrics: XwaylandSceneBatchMetrics,
}

impl Default for XwaylandSceneBatch {
    fn default() -> (r: Self)
        ensures
            r.active is None,
            r.next_epoch == 0,
            r.dirty == clean_dirty(),
            r.metrics.xwayland_scene_batches == 0,
    {
        XwaylandSceneBatch {
            active: None,
            next_epoch: 0,
            dirty: XwaylandSceneBatchDirty::default(),
            metrics: XwaylandSceneBatchMetrics::default(),
        }
    }
}

/// Opening a batch: refused while one is open; otherwise the epoch advances
/// (saturating, never 0) and names the new token.
pub open spec fn spec_begin_batch(b: XwaylandSceneBatch) -> (XwaylandSceneBatch, Result<
    XwaylandSceneBatchToken,
    XwaylandSceneBatchError,
>) {
    if b.active is Some {
        (b, Err(XwaylandSceneBatchError::AlreadyActive))
    } else {
        let epoch = if bump(b.next_epoch) == 0 {
            1u64
        } else {
            bump(b.next_epoch)
        };
        let token = XwaylandSceneBatchToken { epoch };
        (
            XwaylandSceneBatch {
                active: Some(token),
                next_epoch: epoch,
                metrics: XwaylandSceneBatchMetrics {
                    xwayland_scene_batches: bump(b.metrics.xwayland_scene_batches),
                    ..b.metrics
                },
                ..b
            },
            Ok(token),
        )
    }
}

/// Which error, if any, `token` meets against the open batch.
pub open spec fn spec_token_check(b: XwaylandSceneBatch, token: XwaylandSceneBatchToken) -> Result<
    (),
    XwaylandSceneBatchError,
> {
    match b.active {
        None => Err(XwaylandSceneBatchError::NotActive),
        Some(active) => if active == token {
            Ok(())
        } else {
            Err(XwaylandSceneBatchError::InvalidToken)
        },
    }
}

/// Committing: with the open batch's token, closes it and hands back (and clears) what it deferred.
pub open spec fn spec_commit_batch(b: XwaylandSceneBatch, token: XwaylandSceneBatchToken) -> (
    XwaylandSceneBatch,
    Result<XwaylandSceneBatchDirty, XwaylandSceneBatchError>,
) {
    match spec_token_check(b, token) {
        Err(e) => (b, Err(e)),
        Ok(_) => (XwaylandSceneBatch { active: None, dirty: clean_dirty(), ..b }, Ok(b.dirty)),
    }
}

/// Aborting: with the open batch's token, closes it; deferred work stays recorded.
pub open spec fn spec_abort_batch(b: XwaylandSceneBatch, token: XwaylandSceneBatchToken) -> (
    XwaylandSceneBatch,
    Result<(), XwaylandSceneBatchError>,
) {
    match spec_token_check(b, token) {
        Err(e) => (b, Err(e)),
        Ok(_) => (XwaylandSceneBatch { active: None, ..b }, Ok(())),
    }
}

pub open spec fn with_batch(s: CompositorState, b: XwaylandSceneBatch) -> CompositorState {
    CompositorState { xwayland_scene_batch: b, ..s }
}

impl CompositorState {
    /// Opens a scene batch.
    pub fn begin_xwayland_scene_batch(&mut self) -> (r: Result<XwaylandSceneBatchToken, XwaylandSceneBatchError>)
        ensures
            r == spec_begin_batch(old(self).xwayland_scene_batch).1,
            *final(self) == with_batch(*old(self), spec_begin_batch(old(self).xwayland_scene_batch).0),
    {
        if self.xwayland_scene_batch.active.is_some() {
            return Err(XwaylandSceneBatchError::AlreadyActive);
        }
        let next = self.xwayland_scene_batch.next_epoch.saturating_add(1);
        self.xwayland_scene_batch.next_epoch = if next == 0 {
            1
        } else {
            next
        };
        let token = XwaylandSceneBatchToken { epoch: self.xwayland_scene_batch.next_epoch };
        self.xwayland_scene_batch.active = Some(token);
        self.xwayland_scene_batch.metrics.xwayland_scene_batches =
            self.xwayland_scene_batch.metrics.xwayland_scene_batches.saturating_add(1);
        Ok(token)
    }

    /// Closes the batch that `token` opened and returns what it deferred.
    pub fn commit_xwayland_scene_batch(&mut self, token: XwaylandSceneBatchToken) -> (r: Result<
        XwaylandSceneBatchDirty,
        XwaylandSceneBatchError,
    >)
        ensures
            r == spec_commit_batch(old(self).xwayland_scene_batch, token).1,
            *final(self) == with_batch(*old(self), spec_commit_batch(old(self).xwayland_scene_batch, token).0),
    {
        match self.validate_xwayland_scene_batch_token(token) {
            Err(e) => {
                return Err(e);
            },
            Ok(()) => {},
        }
        self.xwayland_scene_batch.active = None;
        let dirty = self.xwayland_scene_batch.dirty;
        self.xwayland_scene_batch.dirty = XwaylandSceneBatchDirty::default();
        Ok(dirty)
    }

    /// Closes the batch that `token` opened without handing back its deferred work.
    pub fn abort_xwayland_scene_batch(&mut self, token: XwaylandSceneBatchToken) -> (r: Result<
        (),
        XwaylandSceneBatchError,
    >)
        ensures
            r == spec_abort_batch(old(self).xwayland_scene_batch, token).1,
            *final(self) == with_batch(*old(self), spec_abort_batch(old(self).xwayland_scene_batch, token).0),
    {
        match self.validate_xwayland_scene_batch_token(token) {
            Err(e) => {
                return Err(e);
            },
            Ok(()) => {},
        }
        self.xwayland_scene_batch.active = None;
        Ok(())
    }

    fn validate_xwayland_scene_batch_token(&self, token: XwaylandSceneBatchToken) -> (r: Result<
        (),
        XwaylandSceneBatchError,
    >)
        ensures
            r == spec_token_check(self.xwayland_scene_batch, token),
    {
        match self.xwayland_scene_batch.active {
            None => Err(XwaylandSceneBatchError::NotActive),
            Some(active) => if active == token {
                Ok(())
            } else {
                Err(XwaylandSceneBatchError::InvalidToken)
            },
        }
    }

    pub fn xwayland_scene_batch_active(&self) -> (r: bool)
        ensures
            r == (self.xwayland_scene_batch.active is Some),
    {
        self.xwayland_scene_batch.active.is_some()
    }

    /// Inside a batch, a scene mutation is counted and makes a repaint due.
    pub fn note_xwayland_scene_mutation(&mut self)
        ensures
            old(self).xwayland_scene_batch.active is None ==> *final(self) == *old(self),
            old(self).xwayland_scene_batch.active is Some ==> *final(self) == with_batch(
                *old(self),
                XwaylandSceneBatch {
                    dirty: XwaylandSceneBatchDirty {
                        repaint_dirty: true,
                        ..old(self).xwayland_scene_batch.dirty
                    },
                    metrics: XwaylandSceneBatchMetrics {
                        xwayland_scene_mutations: bump(
                            old(self).xwayland_scene_batch.metrics.xwayland_scene_mutations,
                        ),
                        ..old(self).xwayland_scene_batch.metrics
                    },
                    ..old(self).xwayland_scene_batch
                },
            ),
    {
        if !self.xwayland_scene_batch_active() {
            return;
        }
        self.xwayland_scene_batch.metrics.xwayland_scene_mutations =
            self.xwayland_scene_batch.metrics.xwayland_scene_mutations.saturating_add(1);
        self.xwayland_scene_batch.dirty.repaint_dirty = true;
    }

    /// Inside a batch, a pointer-focus refresh is deferred (returns `true`);
    /// outside one the caller refreshes at once (returns `false`).
    pub fn defer_pointer_focus_refresh(&mut self) -> (r: bool)
        ensures
            r == (old(self).xwayland_scene_batch.active is Some),
            !r ==> *final(self) == *old(self),
            r ==> *final(self) == with_batch(
                *old(self),
                XwaylandSceneBatch {
                    dirty: XwaylandSceneBatchDirty {
                        pointer_focus_dirty: true,
                        repaint_dirty: true,
                        ..old(self).xwayland_scene_batch.dirty
                    },
                    metrics: XwaylandSceneBatchMetrics {
                        pointer_refreshes_deferred: bump(
                            old(self).xwayland_scene_batch.metrics.pointer_refreshes_deferred,
                        ),
                        intermediate_pointer_targets_suppressed: bump(
                            old(self).xwayland_scene_batch.metrics.intermediate_pointer_targets_suppressed,
                        ),
                        ..old(self).xwayland_scene_batch.metrics
                    },
                    ..old(self).xwayland_scene_batch
                },
            ),
    {
        if !self.xwayland_scene_batch_active() {
            return false;
        }
        self.xwayland_scene_batch.dirty.pointer_focus_dirty = true;
        self.xwayland_scene_batch.dirty.repaint_dirty = true;
        self.xwayland_scene_batch.metrics.pointer_refreshes_deferred =
            self.xwayland_scene_batch.metrics.pointer_refreshes_deferred.saturating_add(1);
        self.xwayland_scene_batch.metrics.intermediate_pointer_targets_suppressed =
            self.xwayland_scene_batch.metrics.intermediate_pointer_targets_suppressed.saturating_add(1);
        true
    }

    /// Inside a batch, a render-stack reorder is deferred; a second one in the
    /// same batch is coalesced with the first and counted.
    pub fn defer_render_stack_reorder(&mut self) -> (r: bool)
        ensures
            r == (old(self).xwayland_scene_batch.active is Some),
            !r ==> *final(self) == *old(self),
            r ==> *final(self) == with_batch(
                *old(self),
                XwaylandSceneBatch {
                    dirty: XwaylandSceneBatchDirty {
                        render_stack_dirty: true,
                        repaint_dirty: true,
                        ..old(self).xwayland_scene_batch.dirty
                    },
                    metrics: XwaylandSceneBatchMetrics {
                        render_stack_reorders_coalesced: if old(
                            self,
                        ).xwayland_scene_batch.dirty.render_stack_dirty {
                            bump(old(self).xwayland_scene_batch.metrics.render_stack_reorders_coalesced)
                        } else {
                            old(self).xwayland_scene_batch.metrics.render_stack_reorders_coalesced
                        },
                        ..old(self).xwayland_scene_batch.metrics
                    },
                    ..old(self).xwayland_scene_batch
                },
            ),
    {
        if !self.xwayland_scene_batch_active() {
            return false;
        }
        if self.xwayland_scene_batch.dirty.render_stack_dirty {
            self.xwayland_scene_batch.metrics.render_stack_reorders_coalesced =
                self.xwayland_scene_batch.metrics.render_stack_reorders_coalesced.saturating_add(1);
        }
        self.xwayland_scene_batch.dirty.render_stack_dirty = true;
        self.xwayland_scene_batch.dirty.repaint_dirty = true;
        true
    }

    /// Inside a batch, a client-list sync is deferred; repeated ones are coalesced and counted.
    pub fn defer_client_list_sync(&mut self) -> (r: bool)
        ensures
            r == (old(self).xwayland_scene_batch.active is Some),
            !r ==> *final(self) == *old(self),
            r ==> *final(self) == with_batch(
                *old(self),
                XwaylandSceneBatch {
                    dirty: XwaylandSceneBatchDirty {
                        client_lists_dirty: true,
                        ..old(self).xwayland_scene_batch.dirty
                    },
                    metrics: XwaylandSceneBatchMetrics {
                        client_list_syncs_coalesced: if old(
                            self,
                        ).xwayland_scene_batch.dirty.client_lists_dirty {
                            bump(old(self).xwayland_scene_batch.metrics.client_list_syncs_coalesced)
                        } else {
                            old(self).xwayland_scene_batch.metrics.client_list_syncs_coalesced
                        },
                        ..old(self).xwayland_scene_batch.metrics
                    },
                    ..old(self).xwayland_scene_batch
                },
            ),
    {
        if !self.xwayland_scene_batch_active() {
            return false;
        }
        if self.xwayland_scene_batch.dirty.client_lists_dirty {
            self.xwayland_scene_batch.metrics.client_list_syncs_coalesced =
                self.xwayland_scene_batch.metrics.client_list_syncs_coalesced.saturating_add(1);
        }
        self.xwayland_scene_batch.dirty.client_lists_dirty = true;
        true
    }

    /// Counts a pointer refresh performed when a batch's deferred work is applied.
    pub fn note_committed_pointer_refresh(&mut self)
        ensures
            *final(self) == with_batch(
                *old(self),
                XwaylandSceneBatch {
                    metrics: XwaylandSceneBatchMetrics {
                        pointer_refreshes_committed: bump(
                            old(self).xwayland_scene_batch.metrics.pointer_refreshes_committed,
                        ),
                        ..old(self).xwayland_scene_batch.metrics
                    },
                    ..old(self).xwayland_scene_batch
                },
            ),
    {
        self.xwayland_scene_batch.metrics.pointer_refreshes_committed =
            self.xwayland_scene_batch.metrics.pointer_refreshes_committed.saturating_add(1);
    }

    /// Whether the batch has deferred anything.
    pub fn xwayland_scene_batch_dirty(&self) -> (r: bool)
        ensures
            r == (self.xwayland_scene_batch.dirty != clean_dirty()),
    {
        let dirty = self.xwayland_scene_batch.dirty;
        dirty.pointer_focus_dirty || dirty.render_stack_dirty || dirty.client_lists_dirty
            || dirty.repaint_dirty
    }

    pub fn xwayland_scene_batch_metrics(&self) -> (r: XwaylandSceneBatchMetrics)
        ensures
            r == self.xwayland_scene_batch.metrics,
    {
        self.xwayland_scene_batch.metrics
    }
}

/// Committing with the token that opened the batch succeeds, hands back
/// exactly the work deferred in between, and leaves no batch open and nothing deferred.
pub proof fn lemma_begin_then_commit(b: XwaylandSceneBatch)
    requires
        b.active is None,
    ensures
        ({
            let (opened, begun) = spec_begin_batch(b);
            begun matches Ok(token) && {
                let (closed, committed) = spec_commit_batch(opened, token);
                &&& committed == Ok::<XwaylandSceneBatchDirty, XwaylandSceneBatchError>(b.dirty)
                &&& closed.active is None
                &&& closed.dirty == clean_dirty()
            }
        }),
{
}

/// While a batch is open a second one cannot be opened.
pub proof fn lemma_no_nested_batch(b: XwaylandSceneBatch)
    requires
        b.active is Some,
    ensures
        spec_begin_batch(b) == (b, Err::<XwaylandSceneBatchToken, XwaylandSceneBatchError>(
            XwaylandSceneBatchError::AlreadyActive,
        )),
{
}

/// Once its batch is closed a token is refused: with no batch open it is
/// `NotActive`, and after a new batch opens (before the epoch saturates) it is
/// `InvalidToken`. Neither refusal changes the state.
pub proof fn lemma_closed_token_is_refused(b: XwaylandSceneBatch)
    requires
        b.active is None,
        b.next_epoch < u64::MAX - 1,
    ensures
        ({
            let (opened, begun) = spec_begin_batch(b);
            begun matches Ok(token) && {
                let (closed, _) = spec_commit_batch(opened, token);
                let (reopened, _) = spec_begin_batch(closed);
                &&& spec_commit_batch(closed, token) == (closed, Err::<
                    XwaylandSceneBatchDirty,
                    XwaylandSceneBatchError,
                >(XwaylandSceneBatchError::NotActive))
                &&& spec_abort_batch(reopened, token) == (reopened, Err::<(), XwaylandSceneBatchError>(
                    XwaylandSceneBatchError::InvalidToken,
                ))
            }
        }),
{
}

} // verus!
