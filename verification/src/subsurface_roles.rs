//! The registry of `wl_subsurface` roles: the parent of each subsurface, its
//! requested synchronization mode, the life cycle of each parent/child
//! relationship (pending the parent's commit, latched by it, applied), and
//! the child commits cached while the child is synchronized.
use std::collections::HashMap;
use vstd::prelude::*;
use vstd::std_specs::iter::IteratorSpec;
use crate::fixed::Fixed;
use crate::forest::{
    ancestor_at, chain_ends, chain_ends_within, lemma_chain_step, lemma_insert_link_keeps_acyclic,
    lemma_no_cycle_through, lemma_reaches_step, lemma_remove_link_keeps_acyclic, links_acyclic, reaches,
};
use crate::subsurface_cache::{
    after_removals, lemma_removals_fit_rest, removal_step, removals_fit, sum_cached_obligations,
    SubsurfaceCacheAccounting,
};
use crate::subsurface::{
    CachedSubsurfaceCommit, CapturedPointerConstraintSurfaceState, CapturedSubsurfacePosition,
    CapturedSubsurfaceRelationship, CapturedSubsurfaceStackEntry, PointerConstraintHintCommit,
    SubsurfaceRelationshipId,
};

verus! {

#[derive(Debug, Clone, Copy, PartialEq, Eq, Structural)]
pub enum SubsurfaceSyncMode {
    Synchronized,
    Desynchronized,
}

#[derive(Debug, Clone, Copy, PartialEq, Eq, Structural)]
pub enum SubsurfaceRelationshipPhase {
    PendingParentCommit,
    Latched,
    Applied,
}

/// One subsurface role. The client is held by its numeric identity.
#[derive(Debug)]
pub struct SubsurfaceRoleState {
    pub relationship_id: SubsurfaceRelationshipId,
    pub parent_id: u32,
    pub client_id: Option<u64>,
    pub requested_mode: SubsurfaceSyncMode,
    pub relationship_phase: SubsurfaceRelationshipPhase,
    pub cached_commits: Vec<CachedSubsurfaceCommit>,
    pub pending_position: Option<(i32, i32)>,
}

/// All subsurface roles, by child surface, and the last relationship identity handed out.
#[derive(Debug)]
pub struct SubsurfaceTransactionState {
    pub roles: HashMap<u32, SubsurfaceRoleState>,
    pub next_relationship_id: u64,
    /// The stored counts of the synchronized cache.
    pub cache: SubsurfaceCacheAccounting,
}

impl Default for SubsurfaceTransactionState {
    fn default() -> (r: Self)
        ensures
            r.roles@ == Map::<u32, SubsurfaceRoleState>::empty(),
            r.next_relationship_id == 0,
            r.wf(),
            r.cache.entries_total == 0 && r.cache.obligations_total == 0 && r.cache.nodes == 0,
            r.cache.entries_per_surface@ == Map::<u32, usize>::empty(),
            r.cache.obligations_per_surface@ == Map::<u32, usize>::empty(),
            r.cache.entries_per_client@ == Map::<u64, usize>::empty(),
            r.cache.obligations_per_client@ == Map::<u64, usize>::empty(),
    {
        let r = SubsurfaceTransactionState {
            roles: HashMap::new(),
            next_relationship_id: 0,
            cache: SubsurfaceCacheAccounting::default(),
        };
        proof {
            assert(role_links(r.roles@) =~= Map::<u32, u32>::empty());
            assert forall|id: u32| #[trigger] chain_ends(role_links(r.roles@), id) by {
                assert(chain_ends_within(role_links(r.roles@), id, 1));
            }
        }
        r
    }
}

/// Each role's link to its parent.
pub open spec fn role_links(roles: Map<u32, SubsurfaceRoleState>) -> Map<u32, u32> {
    Map::new(|id: u32| roles.contains_key(id), |id: u32| roles[id].parent_id)
}

pub open spec fn captured(roles: Map<u32, SubsurfaceRoleState>, id: u32) -> CapturedSubsurfaceRelationship {
    CapturedSubsurfaceRelationship {
        surface_id: id,
        parent_id: roles[id].parent_id,
        relationship_id: roles[id].relationship_id,
    }
}

/// Whether `id` or one of its ancestors is a role that asked for synchronized mode.
pub open spec fn effectively_synchronized(roles: Map<u32, SubsurfaceRoleState>, id: u32) -> bool {
    exists|k: nat|
        #![trigger ancestor_at(role_links(roles), id, k)]
        ancestor_at(role_links(roles), id, k) matches Some(a) && roles.contains_key(a) && roles[a].requested_mode
            == SubsurfaceSyncMode::Synchronized
}

/// A role as registration creates it.
pub open spec fn fresh_role(r: SubsurfaceRoleState, relationship_id: u64, parent_id: u32, client_id: Option<u64>) -> bool {
    &&& r.relationship_id == SubsurfaceRelationshipId(relationship_id)
    &&& r.parent_id == parent_id
    &&& r.client_id == client_id
    &&& r.requested_mode == SubsurfaceSyncMode::Synchronized
    &&& r.relationship_phase == SubsurfaceRelationshipPhase::PendingParentCommit
    &&& r.cached_commits@.len() == 0
    &&& r.pending_position is None
}

pub open spec fn key_sorted_relationships(s: Seq<CapturedSubsurfaceRelationship>) -> bool {
    forall|i: int, j: int| 0 <= i < j < s.len() ==> s[i].relationship_id.0 < s[j].relationship_id.0
}

pub open spec fn key_sorted_positions(s: Seq<CapturedSubsurfacePosition>) -> bool {
    forall|i: int, j: int|
        0 <= i < j < s.len() ==> s[i].relationship.relationship_id.0 < s[j].relationship.relationship_id.0
}

/// Whether a role is a child of `parent_id` whose relationship waits for the parent's commit.
pub open spec fn pending_child(roles: Map<u32, SubsurfaceRoleState>, parent_id: u32, id: u32) -> bool {
    roles.contains_key(id) && roles[id].parent_id == parent_id && roles[id].relationship_phase
        == SubsurfaceRelationshipPhase::PendingParentCommit
}

/// Whether a role is a child of `parent_id` with a position waiting for the parent's commit.
pub open spec fn positioned_child(roles: Map<u32, SubsurfaceRoleState>, parent_id: u32, id: u32) -> bool {
    roles.contains_key(id) && roles[id].parent_id == parent_id && roles[id].pending_position is Some
}

pub open spec fn applied_child(roles: Map<u32, SubsurfaceRoleState>, parent_id: u32, id: u32) -> bool {
    roles.contains_key(id) && roles[id].parent_id == parent_id && roles[id].relationship_phase
        == SubsurfaceRelationshipPhase::Applied
}

pub open spec fn position_of(roles: Map<u32, SubsurfaceRoleState>, id: u32) -> CapturedSubsurfacePosition {
    CapturedSubsurfacePosition {
        relationship: captured(roles, id),
        x: match roles[id].pending_position {
            Some((x, _)) => x,
            None => 0,
        },
        y: match roles[id].pending_position {
            Some((_, y)) => y,
            None => 0,
        },
    }
}

/// The role `id` with `phase` as its relationship phase.
pub open spec fn with_phase(r: SubsurfaceRoleState, phase: SubsurfaceRelationshipPhase) -> SubsurfaceRoleState {
    SubsurfaceRoleState { relationship_phase: phase, ..r }
}

/// Which cursor-position hint for `constraint_id`, if any, a cached commit carries.
pub open spec fn commit_hint(commit: CachedSubsurfaceCommit, constraint_id: u64) -> Option<(Fixed, Fixed)> {
    match commit.pointer_constraint_state {
        CapturedPointerConstraintSurfaceState::Mutation(c) => if c.constraint_id == constraint_id {
            match c.cursor_position_hint {
                PointerConstraintHintCommit::Changed(x, y) => Some((x, y)),
                PointerConstraintHintCommit::NoChange => None,
            }
        } else {
            None
        },
        CapturedPointerConstraintSurfaceState::Transition(t) => match t.install_or_update {
            Some(c) if c.constraint_id == constraint_id => match c.cursor_position_hint {
                PointerConstraintHintCommit::Changed(x, y) => Some((x, y)),
                PointerConstraintHintCommit::NoChange => None,
            },
            _ => None,
        },
        CapturedPointerConstraintSurfaceState::NoChange => None,
    }
}

/// The newest hint among `commits[..n]`.
pub open spec fn newest_hint(commits: Seq<CachedSubsurfaceCommit>, constraint_id: u64, n: int) -> Option<(Fixed, Fixed)>
    decreases n,
{
    if n <= 0 {
        None
    } else {
        match commit_hint(commits[n - 1], constraint_id) {
            Some(h) => Some(h),
            None => newest_hint(commits, constraint_id, n - 1),
        }
    }
}

/// The entries of a captured stack: the parent itself, or a registered child of the parent.
pub open spec fn stack_entries(roles: Map<u32, SubsurfaceRoleState>, parent_id: u32, stack: Seq<u32>) -> Seq<
    CapturedSubsurfaceStackEntry,
>
    decreases stack.len(),
{
    if stack.len() == 0 {
        Seq::empty()
    } else {
        let prefix = stack_entries(roles, parent_id, stack.drop_last());
        let id = stack.last();
        if id == parent_id {
            prefix.push(CapturedSubsurfaceStackEntry::Parent)
        } else if roles.contains_key(id) && roles[id].parent_id == parent_id {
            prefix.push(CapturedSubsurfaceStackEntry::Child(captured(roles, id)))
        } else {
            prefix
        }
    }
}

/// The commits cached by the roles `order`, role by role.
pub open spec fn concat_cached(roles: Map<u32, SubsurfaceRoleState>, order: Seq<u32>) -> Seq<CachedSubsurfaceCommit>
    decreases order.len(),
{
    if order.len() == 0 {
        Seq::empty()
    } else {
        concat_cached(roles, order.drop_last()) + roles[order.last()].cached_commits@
    }
}

/// The roles a teardown of `surface_id` removes: those whose chain of parents reaches it.
pub open spec fn in_subtree(roles: Map<u32, SubsurfaceRoleState>, surface_id: u32, id: u32) -> bool {
    roles.contains_key(id) && reaches(role_links(roles), id, surface_id)
}

/// The role with no cached commits left.
pub open spec fn drained(r: SubsurfaceRoleState, d: SubsurfaceRoleState) -> bool {
    &&& d.relationship_id == r.relationship_id
    &&& d.parent_id == r.parent_id
    &&& d.client_id == r.client_id
    &&& d.requested_mode == r.requested_mode
    &&& d.relationship_phase == r.relationship_phase
    &&& d.pending_position == r.pending_position
    &&& d.cached_commits@.len() == 0
}

proof fn lemma_links_insert(roles: Map<u32, SubsurfaceRoleState>, id: u32, r: SubsurfaceRoleState)
    ensures
        role_links(roles.insert(id, r)) == role_links(roles).insert(id, r.parent_id),
{
    assert(role_links(roles.insert(id, r)) =~= role_links(roles).insert(id, r.parent_id));
}

proof fn lemma_links_remove(roles: Map<u32, SubsurfaceRoleState>, id: u32)
    ensures
        role_links(roles.remove(id)) == role_links(roles).remove(id),
{
    assert(role_links(roles.remove(id)) =~= role_links(roles).remove(id));
}

pub(crate) proof fn lemma_links_same_parent(roles: Map<u32, SubsurfaceRoleState>, id: u32, r: SubsurfaceRoleState)
    requires
        roles.contains_key(id),
        r.parent_id == roles[id].parent_id,
    ensures
        role_links(roles.insert(id, r)) == role_links(roles),
{
    assert(role_links(roles.insert(id, r)) =~= role_links(roles));
}

proof fn lemma_effectively_synchronized_step(roles: Map<u32, SubsurfaceRoleState>, id: u32)
    ensures
        effectively_synchronized(roles, id) == (roles.contains_key(id) && (roles[id].requested_mode
            == SubsurfaceSyncMode::Synchronized || effectively_synchronized(roles, roles[id].parent_id))),
{
    let links = role_links(roles);
    if effectively_synchronized(roles, id) {
        let k = choose|k: nat|
            #![trigger ancestor_at(role_links(roles), id, k)]
            ancestor_at(role_links(roles), id, k) matches Some(a) && roles.contains_key(a) && roles[a].requested_mode
                == SubsurfaceSyncMode::Synchronized;
        if k > 0 {
            assert(ancestor_at(links, roles[id].parent_id, (k - 1) as nat) == ancestor_at(links, id, k));
        }
    }
    if roles.contains_key(id) {
        if roles[id].requested_mode == SubsurfaceSyncMode::Synchronized {
            assert(ancestor_at(links, id, 0) == Some(id));
        }
        if effectively_synchronized(roles, roles[id].parent_id) {
            let k = choose|k: nat|
                #![trigger ancestor_at(role_links(roles), roles[id].parent_id, k)]
                ancestor_at(role_links(roles), roles[id].parent_id, k) matches Some(a) && roles.contains_key(a)
                    && roles[a].requested_mode == SubsurfaceSyncMode::Synchronized;
            assert(ancestor_at(links, id, k + 1) == ancestor_at(links, roles[id].parent_id, k));
        }
    }
}

/// Pushing an element not yet in a sequence without duplicates.
proof fn lemma_push_fresh(s: Seq<u32>, x: u32)
    requires
        s.no_duplicates(),
        !s.contains(x),
    ensures
        s.push(x).no_duplicates(),
        forall|y: u32| #[trigger] s.push(x).contains(y) <==> (s.contains(y) || y == x),
{
    let t = s.push(x);
    assert forall|a: int, b: int| 0 <= a < b < t.len() implies t[a] != t[b] by {
        if b == t.len() - 1 {
            assert(s.contains(t[a]));
        }
    }
    assert forall|y: u32| #[trigger] t.contains(y) <==> (s.contains(y) || y == x) by {
        if t.contains(y) {
            let j = choose|j: int| 0 <= j < t.len() && t[j] == y;
            if j < s.len() {
                assert(s[j] == y);
            }
        }
        if s.contains(y) {
            let j = choose|j: int| 0 <= j < s.len() && s[j] == y;
            assert(t[j] == y);
        }
        if y == x {
            assert(t[s.len() as int] == y);
        }
    }
}

/// Extending a prefix of a sequence without duplicates by its next element.
proof fn lemma_take_one_more(s: Seq<u32>, i: int)
    requires
        0 <= i < s.len(),
        s.no_duplicates(),
    ensures
        forall|x: u32| s.take(i + 1).contains(x) <==> (s.take(i).contains(x) || x == s[i]),
        !s.take(i).contains(s[i]),
{
    let t1 = s.take(i + 1);
    let t0 = s.take(i);
    assert forall|x: u32| t1.contains(x) <==> (t0.contains(x) || x == s[i]) by {
        if t1.contains(x) {
            let j = choose|j: int| 0 <= j < t1.len() && t1[j] == x;
            if j < i {
                assert(t0[j] == x);
            }
        }
        if t0.contains(x) {
            let j = choose|j: int| 0 <= j < t0.len() && t0[j] == x;
            assert(t1[j] == x);
        }
        if x == s[i] {
            assert(t1[i] == x);
        }
    }
    if t0.contains(s[i]) {
        let j = choose|j: int| 0 <= j < t0.len() && t0[j] == s[i];
        assert(s[j] == s[i]);
    }
}

impl SubsurfaceTransactionState {
    /// Roles form a forest under their parent links, and relationship
    /// identities are distinct and never above the last one handed out.
    pub open spec fn wf(self) -> bool {
        &&& links_acyclic(role_links(self.roles@))
        &&& forall|id: u32| #[trigger]
            self.roles@.contains_key(id) ==> self.roles@[id].relationship_id.0 <= self.next_relationship_id
        &&& forall|a: u32, b: u32|
            #![trigger self.roles@[a], self.roles@[b]]
            self.roles@.contains_key(a) && self.roles@.contains_key(b) && a != b ==> self.roles@[a].relationship_id
                != self.roles@[b].relationship_id
    }

    /// The role identifiers, each once.
    fn role_ids(&self) -> (ids: Vec<u32>)
        ensures
            ids@.to_set() == self.roles@.dom(),
            ids@.no_duplicates(),
    {
        let ghost all = self.roles.keys().remaining();
        let mut ids: Vec<u32> = Vec::new();
        for k in it: self.roles.keys()
            invariant
                it.seq() == all,
                ids@.len() == it.index(),
                forall|i: int| 0 <= i < ids@.len() ==> ids@[i] == *all[i],
        {
            ids.push(*k);
        }
        proof {
            assert(ids@ =~= all.unref());
        }
        ids
    }

    /// Whether `target` is `start` or an ancestor of `start` in the role tree.
    fn chain_reaches(&self, start: u32, target: u32) -> (r: bool)
        requires
            self.wf(),
        ensures
            r == reaches(role_links(self.roles@), start, target),
    {
        let ghost links = role_links(self.roles@);
        assert(chain_ends(links, start));
        let ghost mut fuel: nat = choose|f: nat| chain_ends_within(links, start, f);
        let mut current = start;
        while current != target && self.roles.contains_key(&current)
            invariant
                links == role_links(self.roles@),
                reaches(links, start, target) == reaches(links, current, target),
                chain_ends_within(links, current, fuel),
            decreases fuel,
        {
            proof {
                lemma_reaches_step(links, current, target);
                lemma_chain_step(links, current, fuel);
            }
            let parent = match self.roles.get(&current) {
                Some(role) => role.parent_id,
                None => current,
            };
            current = parent;
            proof {
                fuel = (fuel - 1) as nat;
            }
        }
        proof {
            lemma_reaches_step(links, current, target);
        }
        current == target
    }

    /// Registers `surface_id` as a subsurface of `parent_id` for `client_id`.
    /// Refused for a surface that is its own parent, already has the role, is
    /// an ancestor of the parent, or when relationship identities are exhausted.
    pub fn register_with_client(&mut self, surface_id: u32, parent_id: u32, client_id: Option<u64>) -> (r: bool)
        requires
            old(self).wf(),
        ensures
            final(self).cache == old(self).cache,
            final(self).wf(),
            r == (surface_id != parent_id && !old(self).roles@.contains_key(surface_id) && !reaches(
                role_links(old(self).roles@),
                parent_id,
                surface_id,
            ) && old(self).next_relationship_id < u64::MAX),
            !r ==> final(self).roles@ == old(self).roles@ && final(self).next_relationship_id
                == old(self).next_relationship_id,
            r ==> final(self).next_relationship_id == old(self).next_relationship_id + 1,
            r ==> final(self).roles@.dom() == old(self).roles@.dom().insert(surface_id),
            r ==> forall|id: u32|
                id != surface_id && old(self).roles@.contains_key(id) ==> #[trigger] final(self).roles@[id]
                    == old(self).roles@[id],
            r ==> fresh_role(
                final(self).roles@[surface_id],
                final(self).next_relationship_id,
                parent_id,
                client_id,
            ),
    {
        if surface_id == parent_id || self.roles.contains_key(&surface_id) {
            return false;
        }
        if self.chain_reaches(parent_id, surface_id) {
            return false;
        }
        let next = match self.next_relationship_id.checked_add(1) {
            Some(next) => next,
            None => {
                return false;
            },
        };
        let ghost before = self.roles@;
        self.next_relationship_id = next;
        let role = SubsurfaceRoleState {
            relationship_id: SubsurfaceRelationshipId(next),
            parent_id,
            client_id,
            requested_mode: SubsurfaceSyncMode::Synchronized,
            relationship_phase: SubsurfaceRelationshipPhase::PendingParentCommit,
            cached_commits: Vec::new(),
            pending_position: None,
        };
        self.roles.insert(surface_id, role);
        proof {
            lemma_links_insert(before, surface_id, self.roles@[surface_id]);
            assert(!role_links(before).contains_key(surface_id));
            lemma_insert_link_keeps_acyclic(role_links(before), surface_id, parent_id);
            assert(self.roles@.dom() =~= before.dom().insert(surface_id));
        }
        true
    }

    /// Registers a subsurface role with no client identity.
    pub fn register(&mut self, surface_id: u32, parent_id: u32) -> (r: bool)
        requires
            old(self).wf(),
        ensures
            final(self).cache == old(self).cache,
            final(self).wf(),
            r == (surface_id != parent_id && !old(self).roles@.contains_key(surface_id) && !reaches(
                role_links(old(self).roles@),
                parent_id,
                surface_id,
            ) && old(self).next_relationship_id < u64::MAX),
            !r ==> final(self).roles@ == old(self).roles@,
            r ==> final(self).roles@.dom() == old(self).roles@.dom().insert(surface_id),
            r ==> fresh_role(final(self).roles@[surface_id], final(self).next_relationship_id, parent_id, None),
    {
        self.register_with_client(surface_id, parent_id, None)
    }

    /// Removes the role of `surface_id` and returns the commits it had cached;
    /// its children keep their roles.
    pub fn remove_role(&mut self, surface_id: u32) -> (r: Vec<CachedSubsurfaceCommit>)
        requires
            old(self).wf(),
            removal_step(old(self).cache@, old(self).roles@, surface_id, true).0,
        ensures
            final(self).wf(),
            final(self).cache@ == removal_step(old(self).cache@, old(self).roles@, surface_id, true).1,
            final(self).roles@ == old(self).roles@.remove(surface_id),
            final(self).next_relationship_id == old(self).next_relationship_id,
            r@ == (if old(self).roles@.contains_key(surface_id) {
                old(self).roles@[surface_id].cached_commits@
            } else {
                Seq::<CachedSubsurfaceCommit>::empty()
            }),
    {
        let ghost before = self.roles@;
        match self.roles.remove(&surface_id) {
            Some(role) => {
                proof {
                    lemma_links_remove(before, surface_id);
                    lemma_remove_link_keeps_acyclic(role_links(before), surface_id);
                }
                let obligations = sum_cached_obligations(&role.cached_commits);
                self.cache.replace_cached_accounting(
                    surface_id,
                    role.client_id,
                    role.cached_commits.len(),
                    0,
                    obligations,
                    0,
                );
                role.cached_commits
            },
            None => {
                proof {
                    assert(before.remove(surface_id) =~= before);
                }
                Vec::new()
            },
        }
    }

    pub fn parent(&self, surface_id: u32) -> (r: Option<u32>)
        ensures
            r == (if self.roles@.contains_key(surface_id) {
                Some(self.roles@[surface_id].parent_id)
            } else {
                None
            }),
    {
        match self.roles.get(&surface_id) {
            Some(role) => Some(role.parent_id),
            None => None,
        }
    }

    pub fn relationship_phase(&self, surface_id: u32) -> (r: Option<SubsurfaceRelationshipPhase>)
        ensures
            r == (if self.roles@.contains_key(surface_id) {
                Some(self.roles@[surface_id].relationship_phase)
            } else {
                None
            }),
    {
        match self.roles.get(&surface_id) {
            Some(role) => Some(role.relationship_phase),
            None => None,
        }
    }

    /// The relationship of `surface_id` to its parent, as a commit captures it.
    pub fn captured_relationship(&self, surface_id: u32) -> (r: Option<CapturedSubsurfaceRelationship>)
        ensures
            r == (if self.roles@.contains_key(surface_id) {
                Some(captured(self.roles@, surface_id))
            } else {
                None
            }),
    {
        match self.roles.get(&surface_id) {
            Some(role) => Some(
                CapturedSubsurfaceRelationship {
                    surface_id,
                    parent_id: role.parent_id,
                    relationship_id: role.relationship_id,
                },
            ),
            None => None,
        }
    }

    /// Whether a captured relationship is still the live one (a recreated
    /// role has a different identity).
    pub fn relationship_matches(&self, relationship: CapturedSubsurfaceRelationship) -> (r: bool)
        ensures
            r == (self.roles@.contains_key(relationship.surface_id) && captured(
                self.roles@,
                relationship.surface_id,
            ) == relationship),
    {
        match self.roles.get(&relationship.surface_id) {
            Some(role) => role.parent_id == relationship.parent_id && role.relationship_id
                == relationship.relationship_id,
            None => false,
        }
    }

    pub fn relationship_is_applied(&self, relationship: CapturedSubsurfaceRelationship) -> (r: bool)
        ensures
            r == (self.roles@.contains_key(relationship.surface_id) && captured(
                self.roles@,
                relationship.surface_id,
            ) == relationship && self.roles@[relationship.surface_id].relationship_phase
                == SubsurfaceRelationshipPhase::Applied),
    {
        self.relationship_matches(relationship) && match self.relationship_phase(relationship.surface_id) {
            Some(phase) => phase == SubsurfaceRelationshipPhase::Applied,
            None => false,
        }
    }

    pub fn relationship_is_registered_child_of(&self, surface_id: u32, parent_id: u32) -> (r: bool)
        ensures
            r == (self.roles@.contains_key(surface_id) && self.roles@[surface_id].parent_id == parent_id),
    {
        match self.roles.get(&surface_id) {
            Some(role) => role.parent_id == parent_id,
            None => false,
        }
    }

    pub fn relationship_is_applied_child_of(&self, surface_id: u32, parent_id: u32) -> (r: bool)
        ensures
            r == applied_child(self.roles@, parent_id, surface_id),
    {
        match self.roles.get(&surface_id) {
            Some(role) => role.parent_id == parent_id && role.relationship_phase
                == SubsurfaceRelationshipPhase::Applied,
            None => false,
        }
    }

    pub fn requested_mode(&self, surface_id: u32) -> (r: Option<SubsurfaceSyncMode>)
        ensures
            r == (if self.roles@.contains_key(surface_id) {
                Some(self.roles@[surface_id].requested_mode)
            } else {
                None
            }),
    {
        match self.roles.get(&surface_id) {
            Some(role) => Some(role.requested_mode),
            None => None,
        }
    }

    pub fn client_id(&self, surface_id: u32) -> (r: Option<u64>)
        ensures
            r == (if self.roles@.contains_key(surface_id) {
                self.roles@[surface_id].client_id
            } else {
                None
            }),
    {
        match self.roles.get(&surface_id) {
            Some(role) => role.client_id,
            None => None,
        }
    }

    /// Records `set_sync`/`set_desync` for a role; false when there is no role.
    pub fn set_mode(&mut self, surface_id: u32, mode: SubsurfaceSyncMode) -> (r: bool)
        requires
            old(self).wf(),
        ensures
            final(self).cache == old(self).cache,
            final(self).wf(),
            r == old(self).roles@.contains_key(surface_id),
            final(self).next_relationship_id == old(self).next_relationship_id,
            final(self).roles@ == (if r {
                old(self).roles@.insert(
                    surface_id,
                    SubsurfaceRoleState { requested_mode: mode, ..old(self).roles@[surface_id] },
                )
            } else {
                old(self).roles@
            }),
    {
        let ghost before = self.roles@;
        match self.roles.remove(&surface_id) {
            Some(mut role) => {
                role.requested_mode = mode;
                self.roles.insert(surface_id, role);
                proof {
                    lemma_links_same_parent(before, surface_id, self.roles@[surface_id]);
                    assert(self.roles@ =~= before.insert(surface_id, self.roles@[surface_id]));
                }
                true
            },
            None => {
                proof {
                    assert(before.remove(surface_id) =~= before);
                }
                false
            },
        }
    }

    /// Records `wl_subsurface.set_position`; it takes effect with the parent's commit.
    pub fn set_pending_position(&mut self, surface_id: u32, x: i32, y: i32) -> (r: bool)
        requires
            old(self).wf(),
        ensures
            final(self).cache == old(self).cache,
            final(self).wf(),
            r == old(self).roles@.contains_key(surface_id),
            final(self).next_relationship_id == old(self).next_relationship_id,
            final(self).roles@ == (if r {
                old(self).roles@.insert(
                    surface_id,
                    SubsurfaceRoleState { pending_position: Some((x, y)), ..old(self).roles@[surface_id] },
                )
            } else {
                old(self).roles@
            }),
    {
        let ghost before = self.roles@;
        match self.roles.remove(&surface_id) {
            Some(mut role) => {
                role.pending_position = Some((x, y));
                self.roles.insert(surface_id, role);
                proof {
                    lemma_links_same_parent(before, surface_id, self.roles@[surface_id]);
                    assert(self.roles@ =~= before.insert(surface_id, self.roles@[surface_id]));
                }
                true
            },
            None => {
                proof {
                    assert(before.remove(surface_id) =~= before);
                }
                false
            },
        }
    }

    /// A surface is effectively synchronized when it or one of its ancestors
    /// asked for synchronized mode.
    pub fn is_effectively_synchronized(&self, surface_id: u32) -> (r: bool)
        requires
            self.wf(),
        ensures
            r == effectively_synchronized(self.roles@, surface_id),
    {
        let ghost links = role_links(self.roles@);
        assert(chain_ends(links, surface_id));
        let ghost mut fuel: nat = choose|f: nat| chain_ends_within(links, surface_id, f);
        let mut current = surface_id;
        loop
            invariant
                links == role_links(self.roles@),
                effectively_synchronized(self.roles@, surface_id) == effectively_synchronized(self.roles@, current),
                chain_ends_within(links, current, fuel),
            decreases fuel,
        {
            proof {
                lemma_effectively_synchronized_step(self.roles@, current);
            }
            let role = match self.roles.get(&current) {
                Some(role) => role,
                None => {
                    return false;
                },
            };
            if role.requested_mode == SubsurfaceSyncMode::Synchronized {
                return true;
            }
            let parent = role.parent_id;
            if !self.roles.contains_key(&parent) {
                proof {
                    lemma_effectively_synchronized_step(self.roles@, parent);
                }
                return false;
            }
            proof {
                lemma_chain_step(links, current, fuel);
                fuel = (fuel - 1) as nat;
            }
            current = parent;
        }
    }

    /// Moves a latched relationship that a parent commit captured to applied;
    /// refused for a stale capture or a relationship in another phase.
    pub fn apply_captured_relationship(&mut self, relationship: CapturedSubsurfaceRelationship) -> (r: bool)
        requires
            old(self).wf(),
        ensures
            final(self).cache == old(self).cache,
            final(self).wf(),
            r == (old(self).roles@.contains_key(relationship.surface_id) && captured(
                old(self).roles@,
                relationship.surface_id,
            ) == relationship && old(self).roles@[relationship.surface_id].relationship_phase
                == SubsurfaceRelationshipPhase::Latched),
            final(self).next_relationship_id == old(self).next_relationship_id,
            final(self).roles@ == (if r {
                old(self).roles@.insert(
                    relationship.surface_id,
                    with_phase(old(self).roles@[relationship.surface_id], SubsurfaceRelationshipPhase::Applied),
                )
            } else {
                old(self).roles@
            }),
    {
        let matches = match self.roles.get(&relationship.surface_id) {
            Some(role) => role.parent_id == relationship.parent_id && role.relationship_id
                == relationship.relationship_id && role.relationship_phase == SubsurfaceRelationshipPhase::Latched,
            None => false,
        };
        if !matches {
            return false;
        }
        let ghost before = self.roles@;
        match self.roles.remove(&relationship.surface_id) {
            Some(mut role) => {
                role.relationship_phase = SubsurfaceRelationshipPhase::Applied;
                self.roles.insert(relationship.surface_id, role);
                proof {
                    lemma_links_same_parent(before, relationship.surface_id, self.roles@[relationship.surface_id]);
                    assert(self.roles@ =~= before.insert(
                        relationship.surface_id,
                        self.roles@[relationship.surface_id],
                    ));
                }
            },
            None => {},
        }
        true
    }

    /// Latches the relationships of `parent_id`'s children that wait for its
    /// commit, and returns them ordered by relationship identity.
    pub fn take_pending_relationship_activations_for_parent(&mut self, parent_id: u32) -> (r: Vec<
        CapturedSubsurfaceRelationship,
    >)
        requires
            old(self).wf(),
        ensures
            final(self).cache == old(self).cache,
            final(self).wf(),
            final(self).next_relationship_id == old(self).next_relationship_id,
            final(self).roles@.dom() == old(self).roles@.dom(),
            forall|id: u32| #[trigger]
                old(self).roles@.contains_key(id) ==> final(self).roles@[id] == (if pending_child(
                    old(self).roles@,
                    parent_id,
                    id,
                ) {
                    with_phase(old(self).roles@[id], SubsurfaceRelationshipPhase::Latched)
                } else {
                    old(self).roles@[id]
                }),
            key_sorted_relationships(r@),
            forall|rel: CapturedSubsurfaceRelationship|
                r@.contains(rel) <==> (pending_child(old(self).roles@, parent_id, rel.surface_id) && rel == captured(
                    old(self).roles@,
                    rel.surface_id,
                )),
    {
        let ids = self.role_ids();
        let ghost before = self.roles@;
        let mut out: Vec<CapturedSubsurfaceRelationship> = Vec::new();
        let mut i: usize = 0;
        while i < ids.len()
            invariant
                self.cache == old(self).cache,
                i <= ids.len(),
                ids@.to_set() == before.dom(),
                ids@.no_duplicates(),
                self.wf(),
                self.next_relationship_id == old(self).next_relationship_id,
                before == old(self).roles@,
                role_links(self.roles@) == role_links(before),
                forall|a: u32, b: u32|
                    #![trigger before[a], before[b]]
                    before.contains_key(a) && before.contains_key(b) && a != b ==> before[a].relationship_id
                        != before[b].relationship_id,
                self.roles@.dom() == before.dom(),
                forall|id: u32| #[trigger]
                    before.contains_key(id) ==> self.roles@[id] == (if pending_child(before, parent_id, id)
                        && ids@.take(i as int).contains(id) {
                        with_phase(before[id], SubsurfaceRelationshipPhase::Latched)
                    } else {
                        before[id]
                    }),
                key_sorted_relationships(out@),
                forall|rel: CapturedSubsurfaceRelationship|
                    out@.contains(rel) <==> (pending_child(before, parent_id, rel.surface_id) && rel == captured(
                        before,
                        rel.surface_id,
                    ) && ids@.take(i as int).contains(rel.surface_id)),
            decreases ids.len() - i,
        {
            let id = ids[i];
            proof {
                assert(ids@.to_set().contains(id));
                lemma_take_one_more(ids@, i as int);
            }
            let ghost mid = self.roles@;
            match self.roles.remove(&id) {
                Some(mut role) => {
                    let pending = role.parent_id == parent_id && role.relationship_phase
                        == SubsurfaceRelationshipPhase::PendingParentCommit;
                    let rel = CapturedSubsurfaceRelationship {
                        surface_id: id,
                        parent_id: role.parent_id,
                        relationship_id: role.relationship_id,
                    };
                    if pending {
                        role.relationship_phase = SubsurfaceRelationshipPhase::Latched;
                    }
                    self.roles.insert(id, role);
                    proof {
                        lemma_links_same_parent(mid, id, self.roles@[id]);
                        assert(self.roles@ =~= mid.insert(id, self.roles@[id]));
                    }
                    if pending {
                        let ghost out_before = out@;
                        proof {
                            assert forall|k: int| 0 <= k < out@.len() implies out@[k].relationship_id
                                != rel.relationship_id by {
                                assert(out@.contains(out@[k]));
                                let s2 = out@[k].surface_id;
                                assert(before.contains_key(s2) && s2 != id);
                                assert(before[s2].relationship_id != before[id].relationship_id);
                            }
                        }
                        insert_relationship_sorted(&mut out, rel);
                        proof {
                            assert forall|r2: CapturedSubsurfaceRelationship|
                                out@.contains(r2) <==> (pending_child(before, parent_id, r2.surface_id) && r2
                                    == captured(before, r2.surface_id) && ids@.take(i as int + 1).contains(
                                    r2.surface_id,
                                )) by {
                                if r2 == rel {
                                } else if out_before.contains(r2) {
                                }
                            }
                        }
                    }
                },
                None => {},
            }
            i = i + 1;
        }
        proof {
            assert(ids@.take(ids.len() as int) =~= ids@);
            assert forall|x: u32| before.contains_key(x) implies ids@.contains(x) by {
                assert(ids@.to_set().contains(x));
            }
        }
        out
    }

    /// Takes the positions that `parent_id`'s children set since its last
    /// commit, ordered by relationship identity.
    pub fn take_pending_positions_for_parent(&mut self, parent_id: u32) -> (r: Vec<CapturedSubsurfacePosition>)
        requires
            old(self).wf(),
        ensures
            final(self).cache == old(self).cache,
            final(self).wf(),
            final(self).next_relationship_id == old(self).next_relationship_id,
            final(self).roles@.dom() == old(self).roles@.dom(),
            forall|id: u32| #[trigger]
                old(self).roles@.contains_key(id) ==> final(self).roles@[id] == (if positioned_child(
                    old(self).roles@,
                    parent_id,
                    id,
                ) {
                    SubsurfaceRoleState { pending_position: None, ..old(self).roles@[id] }
                } else {
                    old(self).roles@[id]
                }),
            key_sorted_positions(r@),
            forall|p: CapturedSubsurfacePosition|
                r@.contains(p) <==> (positioned_child(old(self).roles@, parent_id, p.relationship.surface_id) && p
                    == position_of(old(self).roles@, p.relationship.surface_id)),
    {
        let ids = self.role_ids();
        let ghost before = self.roles@;
        let mut out: Vec<CapturedSubsurfacePosition> = Vec::new();
        let mut i: usize = 0;
        while i < ids.len()
            invariant
                self.cache == old(self).cache,
                i <= ids.len(),
                ids@.to_set() == before.dom(),
                ids@.no_duplicates(),
                self.wf(),
                self.next_relationship_id == old(self).next_relationship_id,
                before == old(self).roles@,
                role_links(self.roles@) == role_links(before),
                forall|a: u32, b: u32|
                    #![trigger before[a], before[b]]
                    before.contains_key(a) && before.contains_key(b) && a != b ==> before[a].relationship_id
                        != before[b].relationship_id,
                self.roles@.dom() == before.dom(),
                forall|id: u32| #[trigger]
                    before.contains_key(id) ==> self.roles@[id] == (if positioned_child(before, parent_id, id)
                        && ids@.take(i as int).contains(id) {
                        SubsurfaceRoleState { pending_position: None, ..before[id] }
                    } else {
                        before[id]
                    }),
                key_sorted_positions(out@),
                forall|p: CapturedSubsurfacePosition|
                    out@.contains(p) <==> (positioned_child(before, parent_id, p.relationship.surface_id) && p
                        == position_of(before, p.relationship.surface_id) && ids@.take(i as int).contains(
                        p.relationship.surface_id,
                    )),
            decreases ids.len() - i,
        {
            let id = ids[i];
            proof {
                assert(ids@.to_set().contains(id));
                lemma_take_one_more(ids@, i as int);
            }
            let ghost mid = self.roles@;
            match self.roles.remove(&id) {
                Some(mut role) => {
                    let taken = if role.parent_id == parent_id {
                        role.pending_position.take()
                    } else {
                        None
                    };
                    let rel = CapturedSubsurfaceRelationship {
                        surface_id: id,
                        parent_id: role.parent_id,
                        relationship_id: role.relationship_id,
                    };
                    self.roles.insert(id, role);
                    proof {
                        lemma_links_same_parent(mid, id, self.roles@[id]);
                        assert(self.roles@ =~= mid.insert(id, self.roles@[id]));
                    }
                    match taken {
                        Some((x, y)) => {
                            let position = CapturedSubsurfacePosition { relationship: rel, x, y };
                            let ghost out_before = out@;
                            proof {
                                assert forall|k: int| 0 <= k < out@.len() implies out@[k].relationship.relationship_id
                                    != position.relationship.relationship_id by {
                                    assert(out@.contains(out@[k]));
                                    let s2 = out@[k].relationship.surface_id;
                                    assert(before.contains_key(s2) && s2 != id);
                                    assert(before[s2].relationship_id != before[id].relationship_id);
                                }
                            }
                            insert_position_sorted(&mut out, position);
                            proof {
                                assert forall|p: CapturedSubsurfacePosition|
                                    out@.contains(p) <==> (positioned_child(before, parent_id, p.relationship.surface_id)
                                        && p == position_of(before, p.relationship.surface_id) && ids@.take(
                                        i as int + 1,
                                    ).contains(p.relationship.surface_id)) by {
                                    if p == position {
                                    } else if out_before.contains(p) {
                                    }
                                }
                            }
                        },
                        None => {},
                    }
                },
                None => {},
            }
            i = i + 1;
        }
        proof {
            assert(ids@.take(ids.len() as int) =~= ids@);
            assert forall|x: u32| before.contains_key(x) implies ids@.contains(x) by {
                assert(ids@.to_set().contains(x));
            }
        }
        out
    }

    /// The children of `parent_id` whose relationship is applied, each once.
    pub fn applied_children_of(&self, parent_id: u32) -> (r: Vec<u32>)
        ensures
            r@.no_duplicates(),
            forall|id: u32| r@.contains(id) <==> applied_child(self.roles@, parent_id, id),
    {
        let ids = self.role_ids();
        let mut out: Vec<u32> = Vec::new();
        let mut i: usize = 0;
        while i < ids.len()
            invariant
                i <= ids.len(),
                ids@.to_set() == self.roles@.dom(),
                ids@.no_duplicates(),
                out@.no_duplicates(),
                forall|id: u32| out@.contains(id) <==> (applied_child(self.roles@, parent_id, id) && ids@.take(
                    i as int,
                ).contains(id)),
            decreases ids.len() - i,
        {
            let id = ids[i];
            proof {
                lemma_take_one_more(ids@, i as int);
            }
            let applied = match self.roles.get(&id) {
                Some(role) => role.parent_id == parent_id && role.relationship_phase
                    == SubsurfaceRelationshipPhase::Applied,
                None => false,
            };
            let ghost out_prev = out@;
            assert(applied == applied_child(self.roles@, parent_id, id));
            proof {
                assert(!out_prev.contains(id));
            }
            if applied {
                out.push(id);
                proof {
                    lemma_push_fresh(out_prev, id);
                }
            }
            proof {
                assert forall|x: u32| #[trigger] out@.contains(x) <==> (applied_child(self.roles@, parent_id, x)
                    && ids@.take(i as int + 1).contains(x)) by {
                    assert(ids@.take(i as int + 1).contains(x) <==> (ids@.take(i as int).contains(x) || x == id));
                    if !applied {
                        assert(out@ == out_prev);
                    }
                }
            }
            i = i + 1;
        }
        proof {
            assert(ids@.take(ids.len() as int) =~= ids@);
            assert forall|x: u32| self.roles@.contains_key(x) implies ids@.contains(x) by {
                assert(ids@.to_set().contains(x));
            }
        }
        out
    }

    /// The restacking a parent commit captures: the parent itself and its
    /// registered children, in the given order; other surfaces are dropped.
    pub fn capture_subsurface_stack(&self, parent_id: u32, stack: Vec<u32>) -> (r: Vec<CapturedSubsurfaceStackEntry>)
        ensures
            r@ == stack_entries(self.roles@, parent_id, stack@),
    {
        let mut out: Vec<CapturedSubsurfaceStackEntry> = Vec::new();
        let mut i: usize = 0;
        while i < stack.len()
            invariant
                i <= stack.len(),
                out@ == stack_entries(self.roles@, parent_id, stack@.take(i as int)),
            decreases stack.len() - i,
        {
            let id = stack[i];
            proof {
                assert(stack@.take(i as int + 1).drop_last() =~= stack@.take(i as int));
            }
            if id == parent_id {
                out.push(CapturedSubsurfaceStackEntry::Parent);
            } else {
                match self.captured_relationship(id) {
                    Some(rel) => {
                        if rel.parent_id == parent_id {
                            out.push(CapturedSubsurfaceStackEntry::Child(rel));
                        }
                    },
                    None => {},
                }
            }
            i = i + 1;
        }
        assert(stack@.take(stack.len() as int) =~= stack@);
        out
    }

    /// The newest cursor-position hint for `constraint_id` among the commits
    /// `surface_id` has cached.
    pub fn cached_pointer_constraint_hint(&self, surface_id: u32, constraint_id: u64) -> (r: Option<(Fixed, Fixed)>)
        ensures
            r == (if self.roles@.contains_key(surface_id) {
                newest_hint(
                    self.roles@[surface_id].cached_commits@,
                    constraint_id,
                    self.roles@[surface_id].cached_commits@.len() as int,
                )
            } else {
                None
            }),
    {
        let role = match self.roles.get(&surface_id) {
            Some(role) => role,
            None => {
                return None;
            },
        };
        let mut n: usize = role.cached_commits.len();
        while n > 0
            invariant
                n <= role.cached_commits.len(),
                self.roles@.contains_key(surface_id),
                role.cached_commits@ == self.roles@[surface_id].cached_commits@,
                newest_hint(role.cached_commits@, constraint_id, role.cached_commits@.len() as int) == newest_hint(
                    role.cached_commits@,
                    constraint_id,
                    n as int,
                ),
            decreases n,
        {
            let hint = commit_hint_of(&role.cached_commits[n - 1], constraint_id);
            if hint.is_some() {
                return hint;
            }
            n = n - 1;
        }
        None
    }
}

fn commit_hint_of(commit: &CachedSubsurfaceCommit, constraint_id: u64) -> (r: Option<(Fixed, Fixed)>)
    ensures
        r == commit_hint(*commit, constraint_id),
{
    match &commit.pointer_constraint_state {
        CapturedPointerConstraintSurfaceState::Mutation(c) => {
            if c.constraint_id == constraint_id {
                match c.cursor_position_hint {
                    PointerConstraintHintCommit::Changed(x, y) => Some((x, y)),
                    PointerConstraintHintCommit::NoChange => None,
                }
            } else {
                None
            }
        },
        CapturedPointerConstraintSurfaceState::Transition(t) => match &t.install_or_update {
            Some(c) => {
                if c.constraint_id == constraint_id {
                    match c.cursor_position_hint {
                        PointerConstraintHintCommit::Changed(x, y) => Some((x, y)),
                        PointerConstraintHintCommit::NoChange => None,
                    }
                } else {
                    None
                }
            },
            None => None,
        },
        CapturedPointerConstraintSurfaceState::NoChange => None,
    }
}

impl SubsurfaceTransactionState {
    /// Tears down `surface_id`'s subsurface tree: removes every role whose
    /// chain of parents reaches it (its own role included) and returns the
    /// commits they had cached, role by role.
    pub fn remove_subtree(&mut self, surface_id: u32) -> (r: Vec<CachedSubsurfaceCommit>)
        requires
            old(self).wf(),
            forall|order: Seq<u32>|
                order.no_duplicates() && (forall|id: u32| order.contains(id) <==> in_subtree(old(self).roles@, surface_id, id))
                    ==> #[trigger] removals_fit(old(self).cache@, old(self).roles@, order, true),
        ensures
            final(self).wf(),
            final(self).next_relationship_id == old(self).next_relationship_id,
            forall|id: u32|
                #[trigger] final(self).roles@.contains_key(id) == (old(self).roles@.contains_key(id) && !in_subtree(
                    old(self).roles@,
                    surface_id,
                    id,
                )),
            forall|id: u32| #[trigger] final(self).roles@.contains_key(id) ==> final(self).roles@[id] == old(self).roles@[id],
            exists|order: Seq<u32>|
                order.no_duplicates() && (forall|id: u32| order.contains(id) <==> in_subtree(old(self).roles@, surface_id, id))
                    && r@ == concat_cached(old(self).roles@, order) && final(self).cache@ == after_removals(
                    old(self).cache@,
                    old(self).roles@,
                    order,
                    true,
                ),
    {
        let ids = self.role_ids();
        let ghost before = self.roles@;
        let mut doomed: Vec<u32> = Vec::new();
        let mut i: usize = 0;
        while i < ids.len()
            invariant
                i <= ids.len(),
                self.wf(),
                self.roles@ == before,
                ids@.to_set() == before.dom(),
                ids@.no_duplicates(),
                doomed@.no_duplicates(),
                forall|id: u32| doomed@.contains(id) <==> (in_subtree(before, surface_id, id) && ids@.take(i as int).contains(id)),
            decreases ids.len() - i,
        {
            let id = ids[i];
            proof {
                lemma_take_one_more(ids@, i as int);
                assert(ids@.to_set().contains(id));
            }
            let ghost doomed_prev = doomed@;
            let hit = self.chain_reaches(id, surface_id);
            proof {
                assert(!doomed_prev.contains(id));
            }
            if hit {
                doomed.push(id);
                proof {
                    lemma_push_fresh(doomed_prev, id);
                }
            }
            proof {
                assert forall|x: u32| #[trigger] doomed@.contains(x) <==> (in_subtree(before, surface_id, x)
                    && ids@.take(i as int + 1).contains(x)) by {
                    assert(ids@.take(i as int + 1).contains(x) <==> (ids@.take(i as int).contains(x) || x == id));
                    if !hit {
                        assert(doomed@ == doomed_prev);
                    }
                }
            }
            i = i + 1;
        }
        proof {
            assert(ids@.take(ids.len() as int) =~= ids@);
            assert forall|x: u32| in_subtree(before, surface_id, x) implies ids@.contains(x) by {
                assert(ids@.to_set().contains(x));
            }
        }
        let mut removed: Vec<CachedSubsurfaceCommit> = Vec::new();
        let mut k: usize = 0;
        proof {
            assert(removals_fit(old(self).cache@, old(self).roles@, doomed@, true));
            assert(doomed@.skip(0) =~= doomed@);
            assert(doomed@.take(0) =~= Seq::<u32>::empty());
        }
        while k < doomed.len()
            invariant
                k <= doomed.len(),
                self.wf(),
                self.cache@ == after_removals(old(self).cache@, before, doomed@.take(k as int), true),
                removals_fit(self.cache@, before, doomed@.skip(k as int), true),
                self.next_relationship_id == old(self).next_relationship_id,
                before == old(self).roles@,
                doomed@.no_duplicates(),
                forall|id: u32| doomed@.contains(id) <==> in_subtree(before, surface_id, id),
                forall|id: u32|
                    #[trigger] self.roles@.contains_key(id) == (before.contains_key(id) && !doomed@.take(k as int).contains(id)),
                forall|id: u32| #[trigger] self.roles@.contains_key(id) ==> self.roles@[id] == before[id],
                removed@ == concat_cached(before, doomed@.take(k as int)),
            decreases doomed.len() - k,
        {
            let id = doomed[k];
            proof {
                lemma_take_one_more(doomed@, k as int);
                assert(doomed@.contains(id));
                assert(self.roles@.contains_key(id));
                assert(doomed@.take(k as int + 1).drop_last() =~= doomed@.take(k as int));
                lemma_removals_fit_rest(old(self).cache@, before, doomed@, true, k as int);
            }
            let mut commits = self.remove_role(id);
            removed.append(&mut commits);
            k = k + 1;
        }
        proof {
            assert(doomed@.take(doomed.len() as int) =~= doomed@);
        }
        removed
    }

    /// Takes every cached commit of every role, role by role; the roles stay.
    pub fn drain_cached_commits(&mut self) -> (r: Vec<CachedSubsurfaceCommit>)
        requires
            old(self).wf(),
            forall|order: Seq<u32>|
                order.no_duplicates() && order.to_set() == old(self).roles@.dom() ==> #[trigger] removals_fit(
                    old(self).cache@,
                    old(self).roles@,
                    order,
                    false,
                ),
        ensures
            final(self).wf(),
            final(self).next_relationship_id == old(self).next_relationship_id,
            final(self).roles@.dom() == old(self).roles@.dom(),
            forall|id: u32| #[trigger]
                old(self).roles@.contains_key(id) ==> drained(old(self).roles@[id], final(self).roles@[id]),
            exists|order: Seq<u32>|
                order.no_duplicates() && order.to_set() == old(self).roles@.dom() && r@ == concat_cached(
                    old(self).roles@,
                    order,
                ) && final(self).cache@ == after_removals(old(self).cache@, old(self).roles@, order, false),
    {
        let ids = self.role_ids();
        let ghost before = self.roles@;
        let mut out: Vec<CachedSubsurfaceCommit> = Vec::new();
        let mut i: usize = 0;
        proof {
            assert(removals_fit(old(self).cache@, old(self).roles@, ids@, false));
            assert(ids@.skip(0) =~= ids@);
            assert(ids@.take(0) =~= Seq::<u32>::empty());
        }
        while i < ids.len()
            invariant
                i <= ids.len(),
                self.wf(),
                self.cache@ == after_removals(old(self).cache@, before, ids@.take(i as int), false),
                removals_fit(self.cache@, before, ids@.skip(i as int), false),
                self.next_relationship_id == old(self).next_relationship_id,
                before == old(self).roles@,
                ids@.to_set() == before.dom(),
                ids@.no_duplicates(),
                self.roles@.dom() == before.dom(),
                role_links(self.roles@) == role_links(before),
                forall|id: u32| #[trigger]
                    before.contains_key(id) ==> (if ids@.take(i as int).contains(id) {
                        drained(before[id], self.roles@[id])
                    } else {
                        self.roles@[id] == before[id]
                    }),
                out@ == concat_cached(before, ids@.take(i as int)),
            decreases ids.len() - i,
        {
            let id = ids[i];
            proof {
                lemma_take_one_more(ids@, i as int);
                assert(ids@.to_set().contains(id));
                assert(ids@.take(i as int + 1).drop_last() =~= ids@.take(i as int));
            }
            let ghost mid = self.roles@;
            proof {
                lemma_removals_fit_rest(old(self).cache@, before, ids@, false, i as int);
            }
            match self.roles.remove(&id) {
                Some(mut role) => {
                    let client_id = role.client_id;
                    let old_entries = role.cached_commits.len();
                    let old_obligations = match self.cache.obligations_per_surface.get(&id) {
                        Some(v) => *v,
                        None => 0,
                    };
                    let mut commits: Vec<CachedSubsurfaceCommit> = Vec::new();
                    std::mem::swap(&mut commits, &mut role.cached_commits);
                    self.roles.insert(id, role);
                    self.cache.replace_cached_accounting(id, client_id, old_entries, 0, old_obligations, 0);
                    out.append(&mut commits);
                    proof {
                        lemma_links_same_parent(mid, id, self.roles@[id]);
                        assert(self.roles@ =~= mid.insert(id, self.roles@[id]));
                        assert(self.roles@.dom() =~= before.dom());
                    }
                },
                None => {},
            }
            i = i + 1;
        }
        proof {
            assert(ids@.take(ids.len() as int) =~= ids@);
            assert(ids@.to_set() == before.dom());
        }
        out
    }
}

/// Inserts `rel` into `v`, keeping `v` ordered by relationship identity.
fn insert_relationship_sorted(v: &mut Vec<CapturedSubsurfaceRelationship>, rel: CapturedSubsurfaceRelationship)
    requires
        key_sorted_relationships(old(v)@),
        forall|i: int| 0 <= i < old(v)@.len() ==> old(v)@[i].relationship_id != rel.relationship_id,
    ensures
        key_sorted_relationships(final(v)@),
        forall|x: CapturedSubsurfaceRelationship| final(v)@.contains(x) <==> (old(v)@.contains(x) || x == rel),
{
    let mut idx: usize = 0;
    while idx < v.len() && v[idx].relationship_id.0 < rel.relationship_id.0
        invariant
            idx <= v.len(),
            v@ == old(v)@,
            forall|j: int| 0 <= j < idx ==> v@[j].relationship_id.0 < rel.relationship_id.0,
        decreases v.len() - idx,
    {
        idx = idx + 1;
    }
    let ghost before = v@;
    v.insert(idx, rel);
    assert(v@ == before.insert(idx as int, rel));
    proof {
        assert forall|a: int, b: int| 0 <= a < b < v@.len() implies v@[a].relationship_id.0 < v@[b].relationship_id.0 by {
            if idx < before.len() {
                assert(before[idx as int].relationship_id.0 > rel.relationship_id.0);
            }
        }
        assert forall|x: CapturedSubsurfaceRelationship| v@.contains(x) implies (before.contains(x) || x == rel) by {
            let j = choose|j: int| 0 <= j < v@.len() && v@[j] == x;
            if j < idx {
                assert(v@[j] == before[j]);
            } else if j > idx {
                assert(v@[j] == before[j - 1]);
            }
        }
        assert forall|x: CapturedSubsurfaceRelationship| before.contains(x) implies v@.contains(x) by {
            let j = choose|j: int| 0 <= j < before.len() && before[j] == x;
            if j < idx {
                assert(v@[j] == x);
            } else {
                assert(v@[j + 1] == x);
            }
        }
        assert(v@[idx as int] == rel);
    }
}

/// Inserts `p` into `v`, keeping `v` ordered by relationship identity.
fn insert_position_sorted(v: &mut Vec<CapturedSubsurfacePosition>, p: CapturedSubsurfacePosition)
    requires
        key_sorted_positions(old(v)@),
        forall|i: int| 0 <= i < old(v)@.len() ==> old(v)@[i].relationship.relationship_id != p.relationship.relationship_id,
    ensures
        key_sorted_positions(final(v)@),
        forall|x: CapturedSubsurfacePosition| final(v)@.contains(x) <==> (old(v)@.contains(x) || x == p),
{
    let mut idx: usize = 0;
    while idx < v.len() && v[idx].relationship.relationship_id.0 < p.relationship.relationship_id.0
        invariant
            idx <= v.len(),
            v@ == old(v)@,
            forall|j: int| 0 <= j < idx ==> v@[j].relationship.relationship_id.0 < p.relationship.relationship_id.0,
        decreases v.len() - idx,
    {
        idx = idx + 1;
    }
    let ghost before = v@;
    v.insert(idx, p);
    assert(v@ == before.insert(idx as int, p));
    proof {
        assert forall|a: int, b: int|
            0 <= a < b < v@.len() implies v@[a].relationship.relationship_id.0 < v@[b].relationship.relationship_id.0 by {
            if idx < before.len() {
                assert(before[idx as int].relationship.relationship_id.0 > p.relationship.relationship_id.0);
            }
        }
        assert forall|x: CapturedSubsurfacePosition| v@.contains(x) implies (before.contains(x) || x == p) by {
            let j = choose|j: int| 0 <= j < v@.len() && v@[j] == x;
            if j < idx {
                assert(v@[j] == before[j]);
            } else if j > idx {
                assert(v@[j] == before[j - 1]);
            }
        }
        assert forall|x: CapturedSubsurfacePosition| before.contains(x) implies v@.contains(x) by {
            let j = choose|j: int| 0 <= j < before.len() && before[j] == x;
            if j < idx {
                assert(v@[j] == x);
            } else {
                assert(v@[j + 1] == x);
            }
        }
        assert(v@[idx as int] == p);
    }
}

/// A subsurface whose ancestor chain reaches a role that asked for
/// synchronized mode is effectively synchronized, whatever mode it asked for.
pub proof fn lemma_synchronized_ancestor_keeps_descendant_synchronized(
    state: SubsurfaceTransactionState,
    id: u32,
    ancestor: u32,
)
    requires
        state.roles@.contains_key(ancestor),
        state.roles@[ancestor].requested_mode == SubsurfaceSyncMode::Synchronized,
        reaches(role_links(state.roles@), id, ancestor),
    ensures
        effectively_synchronized(state.roles@, id),
{
    let k = choose|k: nat| ancestor_at(role_links(state.roles@), id, k) == Some(ancestor);
    assert(ancestor_at(role_links(state.roles@), id, k) == Some(ancestor));
}

/// In a well-formed registry no role is an ancestor of its own parent, so a
/// surface can never be registered under one of its descendants.
pub proof fn lemma_role_is_not_an_ancestor_of_its_parent(state: SubsurfaceTransactionState, id: u32)
    requires
        state.wf(),
        state.roles@.contains_key(id),
    ensures
        !reaches(role_links(state.roles@), state.roles@[id].parent_id, id),
{
    assert(role_links(state.roles@).contains_key(id));
    lemma_no_cycle_through(role_links(state.roles@), id);
}

/// A relationship captured from a well-formed registry never matches a role
/// that a later registration created: the identity counter only grows, and a
/// registration hands out the counter's new value.
pub proof fn lemma_capture_never_matches_a_later_registration(
    earlier: SubsurfaceTransactionState,
    captured_id: u32,
    later_counter: u64,
    role: SubsurfaceRoleState,
    parent_id: u32,
    client_id: Option<u64>,
)
    requires
        earlier.wf(),
        earlier.roles@.contains_key(captured_id),
        earlier.next_relationship_id < later_counter,
        fresh_role(role, later_counter, parent_id, client_id),
    ensures
        role.relationship_id != captured(earlier.roles@, captured_id).relationship_id,
{
}

} // verus!
