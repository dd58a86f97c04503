//! State a parent surface's commit carries for its subsurfaces, and how two
//! such commits coalesce when a synchronized child caches them.
use vstd::prelude::*;
use crate::fixed::Fixed;
use crate::buffer::BufferIdentity;
use crate::pipeline_trace::SurfaceCommitSequence;
use crate::region::{BackgroundEffectRegion, SurfaceInputRegion};
use crate::surface::{damage_rects, RenderableSurfaceDamage, SurfaceDamageRect};
use crate::surface_state::BufferTransform;
use crate::window_geometry::XdgWindowGeometry;

verus! {

/// Identity of one parent/child subsurface relationship; a recreated
/// relationship between the same surfaces gets a new identity.
#[derive(Debug, Clone, Copy, PartialEq, Eq, Structural)]
pub struct SubsurfaceRelationshipId(pub u64);

#[derive(Debug, Clone, Copy, PartialEq, Eq, Structural)]
pub struct CapturedSubsurfaceRelationship {
    pub surface_id: u32,
    pub parent_id: u32,
    pub relationship_id: SubsurfaceRelationshipId,
}

/// A `wl_subsurface.set_position` captured by the parent's commit.
#[derive(Debug, Clone, Copy, PartialEq, Eq, Structural)]
pub struct CapturedSubsurfacePosition {
    pub relationship: CapturedSubsurfaceRelationship,
    pub x: i32,
    pub y: i32,
}

#[derive(Debug, Clone, Copy, PartialEq, Eq, Structural)]
pub enum CapturedSubsurfaceStackEntry {
    Parent,
    Child(CapturedSubsurfaceRelationship),
}

/// Subsurface state a parent commit latches: relationships it activates,
/// child positions, and the restacked order, if it changed.
#[derive(Debug, Clone, PartialEq, Eq)]
pub struct CapturedSubsurfaceParentState {
    pub activations: Vec<CapturedSubsurfaceRelationship>,
    pub positions: Vec<CapturedSubsurfacePosition>,
    pub stack: Option<Vec<CapturedSubsurfaceStackEntry>>,
}

impl Default for CapturedSubsurfaceParentState {
    fn default() -> (r: Self)
        ensures
            r.activations@.len() == 0,
            r.positions@.len() == 0,
            r.stack is None,
    {
        CapturedSubsurfaceParentState { activations: Vec::new(), positions: Vec::new(), stack: None }
    }
}

/// What a layer-surface commit carries that coalescing has to respect: the
/// configure serial it acknowledged, if any.
#[derive(Debug, Clone, Copy, PartialEq, Eq, Structural)]
pub struct CapturedLayerSurfaceCommitState {
    pub acknowledged_configure: Option<u32>,
}

#[derive(Debug, Clone, PartialEq, Eq)]
pub struct CapturedSurfaceCommitContext {
    pub subsurface_parent: CapturedSubsurfaceParentState,
    pub layer_surface: Option<CapturedLayerSurfaceCommitState>,
}

impl Default for CapturedSurfaceCommitContext {
    fn default() -> (r: Self)
        ensures
            r.subsurface_parent.activations@.len() == 0,
            r.subsurface_parent.positions@.len() == 0,
            r.subsurface_parent.stack is None,
            r.layer_surface is None,
    {
        CapturedSurfaceCommitContext {
            subsurface_parent: CapturedSubsurfaceParentState::default(),
            layer_surface: None,
        }
    }
}

/// `acc` extended, in order, by each item of `news` that it does not hold yet.
pub open spec fn spec_append_missing(
    acc: Seq<CapturedSubsurfaceRelationship>,
    news: Seq<CapturedSubsurfaceRelationship>,
) -> Seq<CapturedSubsurfaceRelationship>
    decreases news.len(),
{
    if news.len() == 0 {
        acc
    } else {
        let prev = spec_append_missing(acc, news.drop_last());
        if prev.contains(news.last()) {
            prev
        } else {
            prev.push(news.last())
        }
    }
}

/// Index of the first position of `rel` in `s`, or -1.
pub open spec fn position_index(s: Seq<CapturedSubsurfacePosition>, rel: CapturedSubsurfaceRelationship) -> int
    decreases s.len(),
{
    if s.len() == 0 {
        -1
    } else {
        let i = position_index(s.drop_last(), rel);
        if i >= 0 {
            i
        } else if s.last().relationship == rel {
            s.len() - 1
        } else {
            -1
        }
    }
}

/// `p` replaces the position recorded for its relationship, or is appended.
pub open spec fn spec_upsert_position(s: Seq<CapturedSubsurfacePosition>, p: CapturedSubsurfacePosition) -> Seq<
    CapturedSubsurfacePosition,
> {
    let i = position_index(s, p.relationship);
    if i >= 0 {
        s.update(i, p)
    } else {
        s.push(p)
    }
}

pub open spec fn spec_upsert_all(
    acc: Seq<CapturedSubsurfacePosition>,
    news: Seq<CapturedSubsurfacePosition>,
) -> Seq<CapturedSubsurfacePosition>
    decreases news.len(),
{
    if news.len() == 0 {
        acc
    } else {
        spec_upsert_position(spec_upsert_all(acc, news.drop_last()), news.last())
    }
}

pub open spec fn spec_merge_layer(
    older: Option<CapturedLayerSurfaceCommitState>,
    newer: Option<CapturedLayerSurfaceCommitState>,
) -> Option<CapturedLayerSurfaceCommitState> {
    match (older, newer) {
        (Some(o), Some(n)) => Some(
            if n.acknowledged_configure is None {
                CapturedLayerSurfaceCommitState { acknowledged_configure: o.acknowledged_configure }
            } else {
                n
            },
        ),
        (None, Some(n)) => Some(n),
        (Some(o), None) => Some(o),
        (None, None) => None,
    }
}

/// Searching positions for `rel` past a prefix that lacks it finds its first
/// occurrence, or nothing at the end.
pub proof fn lemma_position_index_first(s: Seq<CapturedSubsurfacePosition>, rel: CapturedSubsurfaceRelationship, k: int)
    requires
        0 <= k <= s.len(),
        forall|j: int| 0 <= j < k ==> s[j].relationship != rel,
    ensures
        k < s.len() && s[k].relationship == rel ==> position_index(s, rel) == k,
        k == s.len() ==> position_index(s, rel) == -1,
    decreases s.len(),
{
    if s.len() > 0 {
        if k < s.len() {
            if k < s.len() - 1 {
                lemma_position_index_first(s.drop_last(), rel, k);
            } else {
                lemma_position_index_first(s.drop_last(), rel, k);
            }
        } else {
            lemma_position_index_first(s.drop_last(), rel, k - 1);
        }
    }
}

/// Appending what `news` adds keeps `acc` as a prefix, adds no duplicate and
/// leaves exactly the items of either side.
pub proof fn lemma_append_missing(acc: Seq<CapturedSubsurfaceRelationship>, news: Seq<CapturedSubsurfaceRelationship>)
    ensures
        spec_append_missing(acc, news).len() >= acc.len(),
        spec_append_missing(acc, news).take(acc.len() as int) == acc,
        forall|x: CapturedSubsurfaceRelationship|
            spec_append_missing(acc, news).contains(x) <==> (acc.contains(x) || news.contains(x)),
        no_duplicates(acc) ==> no_duplicates(spec_append_missing(acc, news)),
    decreases news.len(),
{
    if news.len() > 0 {
        let prev = spec_append_missing(acc, news.drop_last());
        lemma_append_missing(acc, news.drop_last());
        if !prev.contains(news.last()) {
            assert(prev.push(news.last()).take(acc.len() as int) =~= prev.take(acc.len() as int));
            assert forall|x: CapturedSubsurfaceRelationship| prev.push(news.last()).contains(x) <==> (prev.contains(x) || x == news.last()) by {
                if prev.push(news.last()).contains(x) {
                    let j = choose|j: int| 0 <= j < prev.len() + 1 && prev.push(news.last())[j] == x;
                    if j < prev.len() {
                        assert(prev[j] == x);
                    }
                }
                if prev.contains(x) {
                    let j = choose|j: int| 0 <= j < prev.len() && prev[j] == x;
                    assert(prev.push(news.last())[j] == x);
                }
                if x == news.last() {
                    assert(prev.push(news.last())[prev.len() as int] == x);
                }
            }
        }
        assert forall|x: CapturedSubsurfaceRelationship| news.contains(x) <==> (news.drop_last().contains(x) || x == news.last()) by {
            if news.contains(x) {
                let j = choose|j: int| 0 <= j < news.len() && news[j] == x;
                if j < news.len() - 1 {
                    assert(news.drop_last()[j] == x);
                }
            }
            if news.drop_last().contains(x) {
                let j = choose|j: int| 0 <= j < news.len() - 1 && news.drop_last()[j] == x;
                assert(news[j] == x);
            }
        }
    }
}

pub open spec fn no_duplicates(s: Seq<CapturedSubsurfaceRelationship>) -> bool {
    forall|i: int, j: int| 0 <= i < j < s.len() ==> s[i] != s[j]
}

fn relationships_contain(v: &Vec<CapturedSubsurfaceRelationship>, r: CapturedSubsurfaceRelationship) -> (found: bool)
    ensures
        found == v@.contains(r),
{
    let mut i: usize = 0;
    while i < v.len()
        invariant
            i <= v.len(),
            forall|j: int| 0 <= j < i ==> v@[j] != r,
        decreases v.len() - i,
    {
        if v[i] == r {
            assert(v@[i as int] == r);
            return true;
        }
        i = i + 1;
    }
    false
}

impl CapturedSurfaceCommitContext {
    /// Coalesces a newer commit's context into this older one, as if both had
    /// applied in order: activations accumulate without duplicates, the newest
    /// position of each relationship wins, a newer restack replaces the older
    /// one, and a layer-surface acknowledgement survives unless the newer
    /// commit carries its own.
    pub fn merge(&mut self, newer: Self)
        ensures
            final(self).subsurface_parent.activations@ == spec_append_missing(
                old(self).subsurface_parent.activations@,
                newer.subsurface_parent.activations@,
            ),
            final(self).subsurface_parent.positions@ == spec_upsert_all(
                old(self).subsurface_parent.positions@,
                newer.subsurface_parent.positions@,
            ),
            final(self).subsurface_parent.stack == (if newer.subsurface_parent.stack is Some {
                newer.subsurface_parent.stack
            } else {
                old(self).subsurface_parent.stack
            }),
            final(self).layer_surface == spec_merge_layer(old(self).layer_surface, newer.layer_surface),
            final(self).subsurface_parent.activations@.take(
                old(self).subsurface_parent.activations@.len() as int,
            ) == old(self).subsurface_parent.activations@,
            forall|x: CapturedSubsurfaceRelationship|
                final(self).subsurface_parent.activations@.contains(x) <==> (
                old(self).subsurface_parent.activations@.contains(x)
                    || newer.subsurface_parent.activations@.contains(x)),
            no_duplicates(old(self).subsurface_parent.activations@) ==> no_duplicates(
                final(self).subsurface_parent.activations@,
            ),
    {
        let CapturedSurfaceCommitContext { subsurface_parent, layer_surface } = newer;
        let CapturedSubsurfaceParentState { activations, positions, stack } = subsurface_parent;
        let ghost acts0 = self.subsurface_parent.activations@;
        let ghost pos0 = self.subsurface_parent.positions@;
        let mut i: usize = 0;
        while i < activations.len()
            invariant
                i <= activations.len(),
                self.subsurface_parent.activations@ == spec_append_missing(acts0, activations@.take(i as int)),
                self.subsurface_parent.positions@ == pos0,
                self.subsurface_parent.stack == old(self).subsurface_parent.stack,
                self.layer_surface == old(self).layer_surface,
                stack == newer.subsurface_parent.stack,
                layer_surface == newer.layer_surface,
                activations@ == newer.subsurface_parent.activations@,
                positions@ == newer.subsurface_parent.positions@,
            decreases activations.len() - i,
        {
            let relationship = activations[i];
            proof {
                assert(activations@.take(i as int + 1).drop_last() =~= activations@.take(i as int));
                assert(activations@.take(i as int + 1).last() == relationship);
            }
            if !relationships_contain(&self.subsurface_parent.activations, relationship) {
                self.subsurface_parent.activations.push(relationship);
            }
            i = i + 1;
        }
        assert(activations@.take(activations.len() as int) =~= activations@);
        proof {
            lemma_append_missing(acts0, activations@);
        }
        let ghost acts1 = self.subsurface_parent.activations@;
        let mut k: usize = 0;
        while k < positions.len()
            invariant
                k <= positions.len(),
                self.subsurface_parent.positions@ == spec_upsert_all(pos0, positions@.take(k as int)),
                self.subsurface_parent.activations@ == acts1,
                self.subsurface_parent.stack == old(self).subsurface_parent.stack,
                self.layer_surface == old(self).layer_surface,
                stack == newer.subsurface_parent.stack,
                layer_surface == newer.layer_surface,
                activations@ == newer.subsurface_parent.activations@,
                positions@ == newer.subsurface_parent.positions@,
            decreases positions.len() - k,
        {
            let position = positions[k];
            proof {
                assert(positions@.take(k as int + 1).drop_last() =~= positions@.take(k as int));
                assert(positions@.take(k as int + 1).last() == position);
            }
            let ghost cur = self.subsurface_parent.positions@;
            let mut j: usize = 0;
            while j < self.subsurface_parent.positions.len()
                && self.subsurface_parent.positions[j].relationship != position.relationship
                invariant
                    j <= self.subsurface_parent.positions.len(),
                    self.subsurface_parent.positions@ == cur,
                    forall|m: int| 0 <= m < j ==> cur[m].relationship != position.relationship,
                decreases self.subsurface_parent.positions.len() - j,
            {
                j = j + 1;
            }
            proof {
                lemma_position_index_first(cur, position.relationship, j as int);
            }
            if j < self.subsurface_parent.positions.len() {
                self.subsurface_parent.positions.set(j, position);
            } else {
                self.subsurface_parent.positions.push(position);
            }
            k = k + 1;
        }
        assert(positions@.take(positions.len() as int) =~= positions@);
        if stack.is_some() {
            self.subsurface_parent.stack = stack;
        }
        self.layer_surface = match (self.layer_surface, layer_surface) {
            (Some(older), Some(newer)) => {
                if newer.acknowledged_configure.is_none() {
                    Some(CapturedLayerSurfaceCommitState { acknowledged_configure: older.acknowledged_configure })
                } else {
                    Some(newer)
                }
            },
            (None, Some(newer)) => Some(newer),
            (Some(older), None) => Some(older),
            (None, None) => None,
        };
    }
}

/// What a surface commit does to a pointer constraint's lifecycle.
#[derive(Debug, Clone, Copy, PartialEq, Eq, Structural)]
pub enum PointerConstraintLifecycleCommit {
    NoChange,
    Install,
    Remove,
    Cancel,
}

/// A double-buffered `set_region` captured by a commit.
#[derive(Debug, Clone, PartialEq, Eq)]
pub enum PointerConstraintRegionCommit {
    NoChange,
    Changed(SurfaceInputRegion),
}

/// A double-buffered `set_cursor_position_hint` (surface-local, fixed point) captured by a commit.
#[derive(Debug, Clone, Copy, PartialEq, Eq, Structural)]
pub enum PointerConstraintHintCommit {
    NoChange,
    Changed(Fixed, Fixed),
}

/// One constraint's captured changes.
#[derive(Debug, Clone, PartialEq, Eq)]
pub struct CapturedPointerConstraintCommit {
    pub constraint_id: u64,
    pub lifecycle: PointerConstraintLifecycleCommit,
    pub region: PointerConstraintRegionCommit,
    pub cursor_position_hint: PointerConstraintHintCommit,
}

/// A retirement of the effective constraint and an install or update of a
/// (possibly different) one, carried through one surface commit.
#[derive(Debug, Clone, PartialEq, Eq)]
pub struct CapturedPointerConstraintSurfaceTransition {
    pub retire: Option<CapturedPointerConstraintCommit>,
    pub install_or_update: Option<CapturedPointerConstraintCommit>,
}

#[derive(Debug, Clone, PartialEq, Eq)]
pub enum CapturedPointerConstraintSurfaceState {
    NoChange,
    Mutation(CapturedPointerConstraintCommit),
    Transition(CapturedPointerConstraintSurfaceTransition),
}

impl Default for CapturedPointerConstraintSurfaceState {
    fn default() -> (r: Self)
        ensures
            r is NoChange,
    {
        CapturedPointerConstraintSurfaceState::NoChange
    }
}

pub open spec fn spec_merge_lifecycle(
    older: PointerConstraintLifecycleCommit,
    newer: PointerConstraintLifecycleCommit,
) -> PointerConstraintLifecycleCommit {
    match (older, newer) {
        (PointerConstraintLifecycleCommit::Install, PointerConstraintLifecycleCommit::Remove) => PointerConstraintLifecycleCommit::Cancel,
        (PointerConstraintLifecycleCommit::Install, PointerConstraintLifecycleCommit::Cancel) => PointerConstraintLifecycleCommit::Cancel,
        (PointerConstraintLifecycleCommit::Cancel, _) => PointerConstraintLifecycleCommit::Cancel,
        (_, PointerConstraintLifecycleCommit::Cancel) => PointerConstraintLifecycleCommit::Cancel,
        (o, PointerConstraintLifecycleCommit::NoChange) => o,
        (_, n) => n,
    }
}

pub open spec fn spec_merge_region(
    older: PointerConstraintRegionCommit,
    newer: PointerConstraintRegionCommit,
) -> PointerConstraintRegionCommit {
    match newer {
        PointerConstraintRegionCommit::NoChange => older,
        _ => newer,
    }
}

pub open spec fn spec_merge_hint(older: PointerConstraintHintCommit, newer: PointerConstraintHintCommit) -> PointerConstraintHintCommit {
    match newer {
        PointerConstraintHintCommit::NoChange => older,
        _ => newer,
    }
}

/// Two captures of one constraint, applied in order. A canceled result drops
/// its region and hint; otherwise newer set values win.
pub open spec fn spec_merge_mutation(
    older: CapturedPointerConstraintCommit,
    newer: CapturedPointerConstraintCommit,
) -> CapturedPointerConstraintCommit {
    let lifecycle = spec_merge_lifecycle(older.lifecycle, newer.lifecycle);
    if lifecycle == PointerConstraintLifecycleCommit::Cancel {
        CapturedPointerConstraintCommit {
            constraint_id: newer.constraint_id,
            lifecycle,
            region: PointerConstraintRegionCommit::NoChange,
            cursor_position_hint: PointerConstraintHintCommit::NoChange,
        }
    } else {
        CapturedPointerConstraintCommit {
            constraint_id: newer.constraint_id,
            lifecycle,
            region: spec_merge_region(older.region, newer.region),
            cursor_position_hint: spec_merge_hint(older.cursor_position_hint, newer.cursor_position_hint),
        }
    }
}

/// Folds `retire` into the retirement side, keeping a first retirement of
/// another constraint as it is.
pub open spec fn spec_fold_retirement(
    existing: Option<CapturedPointerConstraintCommit>,
    retire: CapturedPointerConstraintCommit,
) -> Option<CapturedPointerConstraintCommit> {
    match existing {
        Some(e) => if e.constraint_id == retire.constraint_id {
            Some(spec_merge_mutation(e, retire))
        } else {
            Some(e)
        },
        None => Some(retire),
    }
}

/// A newer retirement applied to an older transition: an install of the same
/// constraint that never took effect (installed or canceled) vanishes; an
/// update of the effective constraint becomes part of its retirement.
pub open spec fn spec_apply_retire(
    older: CapturedPointerConstraintSurfaceTransition,
    retire: CapturedPointerConstraintCommit,
) -> CapturedPointerConstraintSurfaceTransition {
    match older.install_or_update {
        Some(i) if i.constraint_id == retire.constraint_id && (i.lifecycle
            == PointerConstraintLifecycleCommit::Install || i.lifecycle
            == PointerConstraintLifecycleCommit::Cancel) => CapturedPointerConstraintSurfaceTransition {
            install_or_update: None,
            ..older
        },
        Some(i) if i.constraint_id == retire.constraint_id && i.lifecycle
            == PointerConstraintLifecycleCommit::NoChange => CapturedPointerConstraintSurfaceTransition {
            retire: spec_fold_retirement(older.retire, spec_merge_mutation(i, retire)),
            install_or_update: None,
        },
        _ => CapturedPointerConstraintSurfaceTransition {
            retire: spec_fold_retirement(older.retire, retire),
            ..older
        },
    }
}

/// A newer install or update applied to an older transition: a cancel of the
/// pending install of the same constraint removes it; otherwise same-constraint
/// captures merge and a different constraint replaces the older one.
pub open spec fn spec_apply_install(
    older: CapturedPointerConstraintSurfaceTransition,
    install: CapturedPointerConstraintCommit,
) -> CapturedPointerConstraintSurfaceTransition {
    if install.lifecycle == PointerConstraintLifecycleCommit::Cancel && (older.install_or_update matches Some(
        i,
    ) && i.constraint_id == install.constraint_id) {
        CapturedPointerConstraintSurfaceTransition { install_or_update: None, ..older }
    } else {
        CapturedPointerConstraintSurfaceTransition {
            install_or_update: Some(
                match older.install_or_update {
                    Some(oi) if oi.constraint_id == install.constraint_id => spec_merge_mutation(oi, install),
                    _ => install,
                },
            ),
            ..older
        }
    }
}

pub open spec fn spec_merge_transition(
    older: CapturedPointerConstraintSurfaceTransition,
    newer: CapturedPointerConstraintSurfaceTransition,
) -> CapturedPointerConstraintSurfaceTransition {
    let after_retire = match newer.retire {
        Some(r) => spec_apply_retire(older, r),
        None => older,
    };
    match newer.install_or_update {
        Some(i) => spec_apply_install(after_retire, i),
        None => after_retire,
    }
}

/// A single capture as a transition: a removal retires, anything else installs or updates.
pub open spec fn spec_into_transition(s: CapturedPointerConstraintSurfaceState) -> Option<
    CapturedPointerConstraintSurfaceTransition,
> {
    match s {
        CapturedPointerConstraintSurfaceState::NoChange => None,
        CapturedPointerConstraintSurfaceState::Mutation(m) => Some(
            if m.lifecycle == PointerConstraintLifecycleCommit::Remove {
                CapturedPointerConstraintSurfaceTransition { retire: Some(m), install_or_update: None }
            } else {
                CapturedPointerConstraintSurfaceTransition { retire: None, install_or_update: Some(m) }
            },
        ),
        CapturedPointerConstraintSurfaceState::Transition(t) => Some(t),
    }
}

/// The most compact state for a transition.
pub open spec fn spec_from_transition(t: CapturedPointerConstraintSurfaceTransition) -> CapturedPointerConstraintSurfaceState {
    match (t.retire, t.install_or_update) {
        (None, None) => CapturedPointerConstraintSurfaceState::NoChange,
        (Some(r), None) => CapturedPointerConstraintSurfaceState::Mutation(r),
        (None, Some(i)) => CapturedPointerConstraintSurfaceState::Mutation(i),
        (Some(_), Some(_)) => CapturedPointerConstraintSurfaceState::Transition(t),
    }
}

pub open spec fn spec_merge_constraint_state(
    older: CapturedPointerConstraintSurfaceState,
    newer: CapturedPointerConstraintSurfaceState,
) -> CapturedPointerConstraintSurfaceState {
    match spec_into_transition(older) {
        None => newer,
        Some(o) => match spec_into_transition(newer) {
            None => spec_from_transition(o),
            Some(n) => spec_from_transition(spec_merge_transition(o, n)),
        },
    }
}

fn merge_pointer_constraint_lifecycle(
    older: PointerConstraintLifecycleCommit,
    newer: PointerConstraintLifecycleCommit,
) -> (r: PointerConstraintLifecycleCommit)
    ensures
        r == spec_merge_lifecycle(older, newer),
{
    match (older, newer) {
        (PointerConstraintLifecycleCommit::Install, PointerConstraintLifecycleCommit::Remove) => PointerConstraintLifecycleCommit::Cancel,
        (PointerConstraintLifecycleCommit::Install, PointerConstraintLifecycleCommit::Cancel) => PointerConstraintLifecycleCommit::Cancel,
        (PointerConstraintLifecycleCommit::Cancel, _) => PointerConstraintLifecycleCommit::Cancel,
        (_, PointerConstraintLifecycleCommit::Cancel) => PointerConstraintLifecycleCommit::Cancel,
        (o, PointerConstraintLifecycleCommit::NoChange) => o,
        (_, n) => n,
    }
}

fn merge_pointer_constraint_region(
    older: PointerConstraintRegionCommit,
    newer: PointerConstraintRegionCommit,
) -> (r: PointerConstraintRegionCommit)
    ensures
        r == spec_merge_region(older, newer),
{
    match newer {
        PointerConstraintRegionCommit::NoChange => older,
        newer => newer,
    }
}

fn merge_pointer_constraint_hint(older: PointerConstraintHintCommit, newer: PointerConstraintHintCommit) -> (r:
    PointerConstraintHintCommit)
    ensures
        r == spec_merge_hint(older, newer),
{
    match newer {
        PointerConstraintHintCommit::NoChange => older,
        newer => newer,
    }
}

fn merge_pointer_constraint_mutation(
    older: CapturedPointerConstraintCommit,
    newer: CapturedPointerConstraintCommit,
) -> (r: CapturedPointerConstraintCommit)
    ensures
        r == spec_merge_mutation(older, newer),
{
    let lifecycle = merge_pointer_constraint_lifecycle(older.lifecycle, newer.lifecycle);
    if lifecycle == PointerConstraintLifecycleCommit::Cancel {
        return CapturedPointerConstraintCommit {
            constraint_id: newer.constraint_id,
            lifecycle,
            region: PointerConstraintRegionCommit::NoChange,
            cursor_position_hint: PointerConstraintHintCommit::NoChange,
        };
    }
    CapturedPointerConstraintCommit {
        constraint_id: newer.constraint_id,
        lifecycle,
        region: merge_pointer_constraint_region(older.region, newer.region),
        cursor_position_hint: merge_pointer_constraint_hint(older.cursor_position_hint, newer.cursor_position_hint),
    }
}

fn fold_pointer_constraint_retirement(
    existing: Option<CapturedPointerConstraintCommit>,
    retire: CapturedPointerConstraintCommit,
) -> (r: Option<CapturedPointerConstraintCommit>)
    ensures
        r == spec_fold_retirement(existing, retire),
{
    match existing {
        Some(e) => {
            if e.constraint_id == retire.constraint_id {
                Some(merge_pointer_constraint_mutation(e, retire))
            } else {
                Some(e)
            }
        },
        None => Some(retire),
    }
}

fn merge_pointer_constraint_transition(
    older: CapturedPointerConstraintSurfaceTransition,
    newer: CapturedPointerConstraintSurfaceTransition,
) -> (r: CapturedPointerConstraintSurfaceTransition)
    ensures
        r == spec_merge_transition(older, newer),
{
    let CapturedPointerConstraintSurfaceTransition { retire: older_retire, install_or_update: older_install } =
        older;
    let CapturedPointerConstraintSurfaceTransition { retire: newer_retire, install_or_update: newer_install } =
        newer;
    let (retire, install) = match newer_retire {
        None => (older_retire, older_install),
        Some(newer_retire) => {
            let retire_id = newer_retire.constraint_id;
            match older_install {
                Some(install) => {
                    if install.constraint_id == retire_id && (install.lifecycle
                        == PointerConstraintLifecycleCommit::Install || install.lifecycle
                        == PointerConstraintLifecycleCommit::Cancel) {
                        (older_retire, None)
                    } else if install.constraint_id == retire_id && install.lifecycle
                        == PointerConstraintLifecycleCommit::NoChange {
                        let retirement = merge_pointer_constraint_mutation(install, newer_retire);
                        (fold_pointer_constraint_retirement(older_retire, retirement), None)
                    } else {
                        (fold_pointer_constraint_retirement(older_retire, newer_retire), Some(install))
                    }
                },
                None => (fold_pointer_constraint_retirement(older_retire, newer_retire), None),
            }
        },
    };
    let install = match newer_install {
        None => install,
        Some(newer_install) => {
            let cancels_pending = newer_install.lifecycle == PointerConstraintLifecycleCommit::Cancel
                && match &install {
                Some(i) => i.constraint_id == newer_install.constraint_id,
                None => false,
            };
            if cancels_pending {
                None
            } else {
                match install {
                    Some(older_install) => {
                        if older_install.constraint_id == newer_install.constraint_id {
                            Some(merge_pointer_constraint_mutation(older_install, newer_install))
                        } else {
                            Some(newer_install)
                        }
                    },
                    None => Some(newer_install),
                }
            }
        },
    };
    CapturedPointerConstraintSurfaceTransition { retire, install_or_update: install }
}

impl CapturedPointerConstraintSurfaceState {
    /// The state as a retire/install transition; `None` when nothing changes.
    pub fn into_transition(self) -> (r: Option<CapturedPointerConstraintSurfaceTransition>)
        ensures
            r == spec_into_transition(self),
    {
        match self {
            CapturedPointerConstraintSurfaceState::NoChange => None,
            CapturedPointerConstraintSurfaceState::Mutation(mutation) => {
                if mutation.lifecycle == PointerConstraintLifecycleCommit::Remove {
                    Some(CapturedPointerConstraintSurfaceTransition { retire: Some(mutation), install_or_update: None })
                } else {
                    Some(CapturedPointerConstraintSurfaceTransition { retire: None, install_or_update: Some(mutation) })
                }
            },
            CapturedPointerConstraintSurfaceState::Transition(transition) => Some(transition),
        }
    }

    fn from_transition(transition: CapturedPointerConstraintSurfaceTransition) -> (r: Self)
        ensures
            r == spec_from_transition(transition),
    {
        let CapturedPointerConstraintSurfaceTransition { retire, install_or_update } = transition;
        match retire {
            None => match install_or_update {
                None => CapturedPointerConstraintSurfaceState::NoChange,
                Some(install) => CapturedPointerConstraintSurfaceState::Mutation(install),
            },
            Some(retire) => match install_or_update {
                None => CapturedPointerConstraintSurfaceState::Mutation(retire),
                Some(install) => CapturedPointerConstraintSurfaceState::Transition(
                    CapturedPointerConstraintSurfaceTransition {
                        retire: Some(retire),
                        install_or_update: Some(install),
                    },
                ),
            },
        }
    }

    /// Coalesces a newer commit's constraint changes into this older capture.
    pub fn merge(self, newer: Self) -> (r: Self)
        ensures
            r == spec_merge_constraint_state(self, newer),
    {
        let older = match self.into_transition() {
            None => {
                return newer;
            },
            Some(older) => older,
        };
        let newer = match newer.into_transition() {
            None => {
                return Self::from_transition(older);
            },
            Some(newer) => newer,
        };
        Self::from_transition(merge_pointer_constraint_transition(older, newer))
    }
}

/// An install that is removed before its commit is published leaves no
/// constraint change at all.
pub proof fn lemma_install_then_remove_collapses(install: CapturedPointerConstraintCommit, remove: CapturedPointerConstraintCommit)
    requires
        install.lifecycle == PointerConstraintLifecycleCommit::Install,
        remove.lifecycle == PointerConstraintLifecycleCommit::Remove,
        install.constraint_id == remove.constraint_id,
    ensures
        spec_merge_constraint_state(
            CapturedPointerConstraintSurfaceState::Mutation(install),
            CapturedPointerConstraintSurfaceState::Mutation(remove),
        ) == CapturedPointerConstraintSurfaceState::NoChange,
{
}

/// Retiring one constraint and installing another in a later commit keeps both sides.
pub proof fn lemma_replacement_keeps_both_sides(remove: CapturedPointerConstraintCommit, install: CapturedPointerConstraintCommit)
    requires
        remove.lifecycle == PointerConstraintLifecycleCommit::Remove,
        install.lifecycle == PointerConstraintLifecycleCommit::Install,
        install.constraint_id != remove.constraint_id,
    ensures
        spec_merge_constraint_state(
            CapturedPointerConstraintSurfaceState::Mutation(remove),
            CapturedPointerConstraintSurfaceState::Mutation(install),
        ) == CapturedPointerConstraintSurfaceState::Transition(
            CapturedPointerConstraintSurfaceTransition { retire: Some(remove), install_or_update: Some(install) },
        ),
{
}

/// A later commit that touches no constraint keeps what the older one captured.
pub proof fn lemma_no_change_keeps_capture(older: CapturedPointerConstraintSurfaceState)
    requires
        !(older matches CapturedPointerConstraintSurfaceState::Transition(t) && (t.retire is None
            || t.install_or_update is None)),
    ensures
        spec_merge_constraint_state(older, CapturedPointerConstraintSurfaceState::NoChange) == older,
{
}

/// A client buffer held by a cached commit: its identity and the number of
/// DMA-BUF planes it owns (zero for shared memory).
#[derive(Debug, Clone, Copy, PartialEq, Eq, Structural)]
pub struct CachedBuffer {
    pub identity: BufferIdentity,
    pub dmabuf_planes: usize,
}

#[derive(Debug, Clone, Copy, PartialEq, Eq, Structural)]
pub enum PendingSurfaceAttachment {
    Buffer(CachedBuffer),
    RemoveContent,
}

/// Which explicit-synchronization points a commit carries.
#[derive(Debug, Clone, Copy, PartialEq, Eq, Structural)]
pub struct CapturedExplicitSyncPoints {
    pub acquire: bool,
    pub release: bool,
}

/// A synchronized child's commit, cached until its parent commits. Frame
/// callbacks and presentation feedbacks are held by their object ids.
#[derive(Debug, Clone, PartialEq, Eq)]
pub struct CachedSubsurfaceCommit {
    pub commit_id: u64,
    pub commit_sequence: SurfaceCommitSequence,
    pub attachment: Option<PendingSurfaceAttachment>,
    pub damage: Option<RenderableSurfaceDamage>,
    pub frame_callbacks: Vec<u32>,
    pub explicit_sync: Option<CapturedExplicitSyncPoints>,
    pub offset: Option<(i32, i32)>,
    pub buffer_scale: Option<u32>,
    pub buffer_transform: Option<BufferTransform>,
    pub opaque_region: Option<SurfaceInputRegion>,
    pub input_region: Option<SurfaceInputRegion>,
    pub background_effect: Option<BackgroundEffectRegion>,
    pub presentation_feedbacks: Vec<u32>,
    pub resize_capture_finalized: bool,
    pub window_geometry: Option<XdgWindowGeometry>,
    pub pointer_constraint_state: CapturedPointerConstraintSurfaceState,
    pub commit_context: CapturedSurfaceCommitContext,
    /// Whether the commit carries a pacing value, which makes it a boundary
    /// that no later commit merges into and that merges into nothing.
    pub pacing_boundary: bool,
}

/// What merging two cached commits releases: the buffer the newer attachment
/// replaced, and the presentation feedbacks of the eliminated older commit,
/// which are to be reported as discarded.
#[derive(Debug, Clone, PartialEq, Eq)]
pub struct CachedCommitMergeOutcome {
    pub superseded_buffer: Option<CachedBuffer>,
    pub discarded_feedbacks: Vec<u32>,
}

/// Damage as a value: absent, full (`Some(None)`) or a rectangle list.
pub open spec fn damage_view(d: Option<RenderableSurfaceDamage>) -> Option<Option<Seq<SurfaceDamageRect>>> {
    match d {
        None => None,
        Some(x) => Some(damage_rects(x)),
    }
}

/// Full damage absorbs everything; two partial lists concatenate.
pub open spec fn spec_merge_damage(
    older: Option<Option<Seq<SurfaceDamageRect>>>,
    newer: Option<Option<Seq<SurfaceDamageRect>>>,
) -> Option<Option<Seq<SurfaceDamageRect>>> {
    match (older, newer) {
        (Some(None), _) => Some(None),
        (_, Some(None)) => Some(None),
        (Some(Some(a)), Some(Some(b))) => Some(Some(a + b)),
        (Some(d), None) => Some(d),
        (None, Some(d)) => Some(d),
        (None, None) => None,
    }
}

pub fn merge_damage(older: Option<RenderableSurfaceDamage>, newer: Option<RenderableSurfaceDamage>) -> (r: Option<
    RenderableSurfaceDamage,
>)
    ensures
        damage_view(r) == spec_merge_damage(damage_view(older), damage_view(newer)),
{
    match older {
        None => newer,
        Some(RenderableSurfaceDamage::Full) => Some(RenderableSurfaceDamage::Full),
        Some(RenderableSurfaceDamage::Partial(mut older_rects)) => match newer {
            None => Some(RenderableSurfaceDamage::Partial(older_rects)),
            Some(RenderableSurfaceDamage::Full) => Some(RenderableSurfaceDamage::Full),
            Some(RenderableSurfaceDamage::Partial(mut newer_rects)) => {
                older_rects.append(&mut newer_rects);
                Some(RenderableSurfaceDamage::Partial(older_rects))
            },
        },
    }
}

pub open spec fn attachment_obligations(a: Option<PendingSurfaceAttachment>) -> int {
    match a {
        Some(PendingSurfaceAttachment::Buffer(b)) => 1 + b.dmabuf_planes,
        _ => 0,
    }
}

pub open spec fn sync_obligations(e: Option<CapturedExplicitSyncPoints>) -> int {
    match e {
        Some(p) => (if p.acquire {
            1int
        } else {
            0int
        }) + (if p.release {
            1int
        } else {
            0int
        }),
        None => 0,
    }
}

/// Retained callbacks, feedbacks, buffer slots (one plus one per DMA-BUF plane)
/// and explicit-sync points of a cached commit.
pub open spec fn spec_obligations(c: CachedSubsurfaceCommit) -> int {
    c.frame_callbacks@.len() + c.presentation_feedbacks@.len() + attachment_obligations(c.attachment)
        + sync_obligations(c.explicit_sync)
}

/// The obligations the merge of `newer` into `older` retains: both commits'
/// callbacks, the newer feedbacks, the surviving attachment and sync points.
pub open spec fn spec_merged_obligations(older: CachedSubsurfaceCommit, newer: CachedSubsurfaceCommit) -> int {
    let attachment = if newer.attachment is Some {
        newer.attachment
    } else {
        older.attachment
    };
    let explicit_sync = if newer.attachment is Some || newer.explicit_sync is Some {
        newer.explicit_sync
    } else {
        older.explicit_sync
    };
    newer.frame_callbacks@.len() + older.frame_callbacks@.len() + newer.presentation_feedbacks@.len()
        + attachment_obligations(attachment) + sync_obligations(explicit_sync)
}

fn cached_attachment_obligation_count(attachment: &Option<PendingSurfaceAttachment>) -> (r: usize)
    requires
        attachment_obligations(*attachment) <= usize::MAX,
    ensures
        r == attachment_obligations(*attachment),
{
    match attachment {
        Some(PendingSurfaceAttachment::Buffer(buffer)) => 1 + buffer.dmabuf_planes,
        _ => 0,
    }
}

fn cached_explicit_sync_obligation_count(explicit_sync: &Option<CapturedExplicitSyncPoints>) -> (r: usize)
    ensures
        r == sync_obligations(*explicit_sync),
{
    match explicit_sync {
        Some(points) => (if points.acquire {
            1
        } else {
            0
        }) + (if points.release {
            1
        } else {
            0
        }),
        None => 0,
    }
}

/// `older` replaced by `newer` where `newer` is set.
pub open spec fn newer_or<T>(older: Option<T>, newer: Option<T>) -> Option<T> {
    if newer is Some {
        newer
    } else {
        older
    }
}

/// What merging `newer` into the cached commit `older` leaves: the newer
/// commit's identity, set state and presentation feedbacks win; frame
/// callbacks accumulate; damage merges; constraint and parent-commit state
/// merge in order; the older commit's pacing stays.
pub open spec fn merged_into(older: CachedSubsurfaceCommit, newer: CachedSubsurfaceCommit, m: CachedSubsurfaceCommit) -> bool {
    &&& m.commit_id == newer.commit_id
    &&& m.commit_sequence == newer.commit_sequence
    &&& m.attachment == newer_or(older.attachment, newer.attachment)
    &&& damage_view(m.damage) == spec_merge_damage(damage_view(older.damage), damage_view(newer.damage))
    &&& m.frame_callbacks@ == older.frame_callbacks@ + newer.frame_callbacks@
    &&& m.explicit_sync == (if newer.attachment is Some || newer.explicit_sync is Some {
        newer.explicit_sync
    } else {
        older.explicit_sync
    })
    &&& m.offset == newer_or(older.offset, newer.offset)
    &&& m.buffer_scale == newer_or(older.buffer_scale, newer.buffer_scale)
    &&& m.buffer_transform == newer_or(older.buffer_transform, newer.buffer_transform)
    &&& m.opaque_region == newer_or(older.opaque_region, newer.opaque_region)
    &&& m.input_region == newer_or(older.input_region, newer.input_region)
    &&& m.background_effect == newer_or(older.background_effect, newer.background_effect)
    &&& m.presentation_feedbacks@ == newer.presentation_feedbacks@
    &&& m.pointer_constraint_state == spec_merge_constraint_state(
        older.pointer_constraint_state,
        newer.pointer_constraint_state,
    )
    &&& m.commit_context.subsurface_parent.activations@ == spec_append_missing(
        older.commit_context.subsurface_parent.activations@,
        newer.commit_context.subsurface_parent.activations@,
    )
    &&& m.commit_context.subsurface_parent.positions@ == spec_upsert_all(
        older.commit_context.subsurface_parent.positions@,
        newer.commit_context.subsurface_parent.positions@,
    )
    &&& m.commit_context.subsurface_parent.stack == newer_or(
        older.commit_context.subsurface_parent.stack,
        newer.commit_context.subsurface_parent.stack,
    )
    &&& m.commit_context.layer_surface == spec_merge_layer(
        older.commit_context.layer_surface,
        newer.commit_context.layer_surface,
    )
    &&& m.resize_capture_finalized == (older.resize_capture_finalized || newer.resize_capture_finalized)
    &&& m.window_geometry == newer_or(older.window_geometry, newer.window_geometry)
    &&& m.pacing_boundary == older.pacing_boundary
}

impl CachedSubsurfaceCommit {
    /// Obligations this cached commit retains; the count must fit a `usize`.
    pub fn cached_obligation_count(&self) -> (r: usize)
        requires
            spec_obligations(*self) <= usize::MAX,
        ensures
            r == spec_obligations(*self),
    {
        let attachment = cached_attachment_obligation_count(&self.attachment);
        let sync = cached_explicit_sync_obligation_count(&self.explicit_sync);
        self.frame_callbacks.len() + self.presentation_feedbacks.len() + attachment + sync
    }

    /// Obligations the merge of `newer` into this commit would retain; the count must fit a `usize`.
    pub fn merged_cached_obligation_count(&self, newer: &Self) -> (r: usize)
        requires
            spec_merged_obligations(*self, *newer) <= usize::MAX,
        ensures
            r == spec_merged_obligations(*self, *newer),
    {
        let attachment = if newer.attachment.is_some() {
            cached_attachment_obligation_count(&newer.attachment)
        } else {
            cached_attachment_obligation_count(&self.attachment)
        };
        let sync = if newer.attachment.is_some() || newer.explicit_sync.is_some() {
            cached_explicit_sync_obligation_count(&newer.explicit_sync)
        } else {
            cached_explicit_sync_obligation_count(&self.explicit_sync)
        };
        newer.frame_callbacks.len() + self.frame_callbacks.len() + newer.presentation_feedbacks.len() + attachment
            + sync
    }

    /// Coalesces a newer cached commit into this older one. The newer commit's
    /// identity, set state and presentation feedbacks win; frame callbacks
    /// accumulate; damage merges; constraint and parent-commit state merge in
    /// order. Returns the buffer the newer attachment superseded and the older
    /// feedbacks, which no longer belong to any commit.
    #[verifier::rlimit(40)]
    pub fn merge(&mut self, newer: Self) -> (r: CachedCommitMergeOutcome)
        ensures
            merged_into(*old(self), newer, *final(self)),
            r.superseded_buffer == (if newer.attachment is Some {
                match old(self).attachment {
                    Some(PendingSurfaceAttachment::Buffer(b)) => Some(b),
                    _ => None,
                }
            } else {
                None
            }),
            r.discarded_feedbacks@ == old(self).presentation_feedbacks@,
    {
        let CachedSubsurfaceCommit {
            commit_id,
            commit_sequence,
            attachment,
            damage,
            mut frame_callbacks,
            explicit_sync,
            offset,
            buffer_scale,
            buffer_transform,
            opaque_region,
            input_region,
            background_effect,
            presentation_feedbacks,
            resize_capture_finalized,
            window_geometry,
            pointer_constraint_state,
            commit_context,
            pacing_boundary: _,
        } = newer;
        self.commit_id = commit_id;
        self.commit_sequence = commit_sequence;
        let attachment_changed = attachment.is_some();
        let superseded = match attachment {
            Some(attachment) => {
                let previous = self.attachment;
                self.attachment = Some(attachment);
                match previous {
                    Some(PendingSurfaceAttachment::Buffer(buffer)) => Some(buffer),
                    _ => None,
                }
            },
            None => None,
        };
        let older_damage = self.damage.take();
        self.damage = merge_damage(older_damage, damage);
        self.frame_callbacks.append(&mut frame_callbacks);
        if attachment_changed || explicit_sync.is_some() {
            self.explicit_sync = explicit_sync;
        }
        if offset.is_some() {
            self.offset = offset;
        }
        if buffer_scale.is_some() {
            self.buffer_scale = buffer_scale;
        }
        if buffer_transform.is_some() {
            self.buffer_transform = buffer_transform;
        }
        if opaque_region.is_some() {
            self.opaque_region = opaque_region;
        }
        if input_region.is_some() {
            self.input_region = input_region;
        }
        if background_effect.is_some() {
            self.background_effect = background_effect;
        }
        let mut discarded = presentation_feedbacks;
        std::mem::swap(&mut self.presentation_feedbacks, &mut discarded);
        let mut older_constraint = CapturedPointerConstraintSurfaceState::NoChange;
        std::mem::swap(&mut self.pointer_constraint_state, &mut older_constraint);
        self.pointer_constraint_state = older_constraint.merge(pointer_constraint_state);
        self.commit_context.merge(commit_context);
        if resize_capture_finalized {
            self.resize_capture_finalized = true;
        }
        if window_geometry.is_some() {
            self.window_geometry = window_geometry;
        }
        CachedCommitMergeOutcome { superseded_buffer: superseded, discarded_feedbacks: discarded }
    }
}

} // verus!
