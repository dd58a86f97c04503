//! Admission of synchronized subsurface commits into the cache: a commit
//! merges into a mergeable tail or is appended, within per-surface,
//! per-client and total budgets of entries and retained obligations, and the
//! stored counts follow what was admitted.
use std::collections::HashMap;
use vstd::prelude::*;
use crate::subsurface::{
    merged_into, spec_merged_obligations, spec_obligations, CachedCommitMergeOutcome, CachedSubsurfaceCommit,
};
use crate::subsurface_roles::{lemma_links_same_parent, role_links, SubsurfaceRoleState, SubsurfaceTransactionState};

verus! {

/// The most commits a synchronized subsurface may hold cached.
pub const MAX_SYNCHRONIZED_CACHED_COMMITS_PER_SURFACE: usize = 8;

/// The most cached commits over the surfaces of one client.
pub const MAX_SYNCHRONIZED_CACHED_COMMITS_PER_CLIENT: usize = 256;

/// The most cached commits over all surfaces.
pub const MAX_SYNCHRONIZED_CACHED_COMMITS_TOTAL: usize = 4096;

/// The most obligations the cached commits of one surface may retain.
pub const MAX_SYNCHRONIZED_CACHED_OBLIGATIONS_PER_SURFACE: usize = 1024;

/// The most obligations over the cached commits of one client.
pub const MAX_SYNCHRONIZED_CACHED_OBLIGATIONS_PER_CLIENT: usize = 8192;

/// The most obligations over all cached commits.
pub const MAX_SYNCHRONIZED_CACHED_OBLIGATIONS_TOTAL: usize = 65536;

/// The stored counts of what the cache retains, and their high-water marks.
#[derive(Debug)]
pub struct SubsurfaceCacheAccounting {
    pub entries_total: usize,
    pub obligations_total: usize,
    pub nodes: usize,
    pub entries_per_surface: HashMap<u32, usize>,
    pub obligations_per_surface: HashMap<u32, usize>,
    pub entries_per_client: HashMap<u64, usize>,
    pub obligations_per_client: HashMap<u64, usize>,
    pub maximum_entries: usize,
    pub maximum_entries_per_surface: usize,
    pub maximum_entries_per_client: usize,
    pub maximum_obligations: usize,
    pub maximum_obligations_per_surface: usize,
    pub maximum_obligations_per_client: usize,
}

impl Default for SubsurfaceCacheAccounting {
    fn default() -> (r: Self)
        ensures
            r.entries_total == 0 && r.obligations_total == 0 && r.nodes == 0,
            r.entries_per_surface@ == Map::<u32, usize>::empty(),
            r.obligations_per_surface@ == Map::<u32, usize>::empty(),
            r.entries_per_client@ == Map::<u64, usize>::empty(),
            r.obligations_per_client@ == Map::<u64, usize>::empty(),
            r.maximum_entries == 0 && r.maximum_entries_per_surface == 0 && r.maximum_entries_per_client == 0,
            r.maximum_obligations == 0 && r.maximum_obligations_per_surface == 0
                && r.maximum_obligations_per_client == 0,
    {
        SubsurfaceCacheAccounting {
            entries_total: 0,
            obligations_total: 0,
            nodes: 0,
            entries_per_surface: HashMap::new(),
            obligations_per_surface: HashMap::new(),
            entries_per_client: HashMap::new(),
            obligations_per_client: HashMap::new(),
            maximum_entries: 0,
            maximum_entries_per_surface: 0,
            maximum_entries_per_client: 0,
            maximum_obligations: 0,
            maximum_obligations_per_surface: 0,
            maximum_obligations_per_client: 0,
        }
    }
}

/// The stored counts as values.
pub struct CacheAccountingView {
    pub entries_total: int,
    pub obligations_total: int,
    pub nodes: int,
    pub entries_per_surface: Map<u32, usize>,
    pub obligations_per_surface: Map<u32, usize>,
    pub entries_per_client: Map<u64, usize>,
    pub obligations_per_client: Map<u64, usize>,
    pub maximum_entries: int,
    pub maximum_entries_per_surface: int,
    pub maximum_entries_per_client: int,
    pub maximum_obligations: int,
    pub maximum_obligations_per_surface: int,
    pub maximum_obligations_per_client: int,
}

impl View for SubsurfaceCacheAccounting {
    type V = CacheAccountingView;

    open spec fn view(&self) -> CacheAccountingView {
        CacheAccountingView {
            entries_total: self.entries_total as int,
            obligations_total: self.obligations_total as int,
            nodes: self.nodes as int,
            entries_per_surface: self.entries_per_surface@,
            obligations_per_surface: self.obligations_per_surface@,
            entries_per_client: self.entries_per_client@,
            obligations_per_client: self.obligations_per_client@,
            maximum_entries: self.maximum_entries as int,
            maximum_entries_per_surface: self.maximum_entries_per_surface as int,
            maximum_entries_per_client: self.maximum_entries_per_client as int,
            maximum_obligations: self.maximum_obligations as int,
            maximum_obligations_per_surface: self.maximum_obligations_per_surface as int,
            maximum_obligations_per_client: self.maximum_obligations_per_client as int,
        }
    }
}

/// Why a commit was not admitted.
#[derive(Debug, Clone, Copy, PartialEq, Eq, Structural)]
pub enum CacheAdmissionFailure {
    MissingRole,
    PerSurfaceEntryLimit,
    PerClientEntryLimit,
    TotalEntryLimit,
    PerSurfaceObligationLimit,
    PerClientObligationLimit,
    TotalObligationLimit,
    AccountingInvariant,
}

/// What caching a commit did: appended it, merged it into the tail (with
/// what the merge released), or refused it and handed it back.
#[derive(Debug)]
pub enum CacheCommitOutcome {
    Inserted,
    Merged(CachedCommitMergeOutcome),
    Rejected { commit: CachedSubsurfaceCommit, reason: CacheAdmissionFailure },
}

/// The count stored for `k`, zero when none is.
pub open spec fn count_of<K>(m: Map<K, usize>, k: K) -> int {
    if m.contains_key(k) {
        m[k] as int
    } else {
        0
    }
}

/// `m` with the count of `k` changed from covering `before` to covering `after`;
/// a count that drops to zero is removed.
pub open spec fn replaced_count<K>(m: Map<K, usize>, k: K, before: int, after: int) -> Map<K, usize> {
    let u = count_of(m, k) - before + after;
    if u == 0 {
        m.remove(k)
    } else {
        m.insert(k, u as usize)
    }
}

/// `a` less `before` plus `after` stays within `usize`.
pub open spec fn replace_in_range(a: int, before: int, after: int) -> bool {
    a >= before && a - before + after <= usize::MAX
}

/// Whether the stored counts can trade a surface's `(old_e, old_o)` for
/// `(new_e, new_o)` without leaving `usize`.
pub open spec fn replace_fits(
    a: CacheAccountingView,
    surface_id: u32,
    client_id: Option<u64>,
    old_e: int,
    new_e: int,
    old_o: int,
    new_o: int,
) -> bool {
    &&& replace_in_range(a.entries_total, old_e, new_e)
    &&& replace_in_range(a.obligations_total, old_o, new_o)
    &&& replace_in_range(count_of(a.entries_per_surface, surface_id), old_e, new_e)
    &&& replace_in_range(count_of(a.obligations_per_surface, surface_id), old_o, new_o)
    &&& client_id matches Some(c) ==> replace_in_range(count_of(a.entries_per_client, c), old_e, new_e)
        && replace_in_range(count_of(a.obligations_per_client, c), old_o, new_o)
    &&& (old_e == 0 && new_e != 0) ==> a.nodes < usize::MAX
    &&& (old_e != 0 && new_e == 0) ==> a.nodes >= 1
    &&& 0 <= new_e <= usize::MAX && 0 <= new_o <= usize::MAX
}

pub open spec fn max_of(a: int, b: int) -> int {
    if a >= b {
        a
    } else {
        b
    }
}

/// The counts after `a` traded a surface's `(old_e, old_o)` for
/// `(new_e, new_o)`: totals, the surface's and its client's counts move by
/// the difference, a surface gaining its first entry or losing its last one
/// changes the node count, and the high-water marks follow.
pub open spec fn acct_step(
    a: CacheAccountingView,
    surface_id: u32,
    client_id: Option<u64>,
    old_e: int,
    new_e: int,
    old_o: int,
    new_o: int,
) -> CacheAccountingView {
    let et = a.entries_total - old_e + new_e;
    let ot = a.obligations_total - old_o + new_o;
    let epc = match client_id {
        Some(c) => replaced_count(a.entries_per_client, c, old_e, new_e),
        None => a.entries_per_client,
    };
    let opc = match client_id {
        Some(c) => replaced_count(a.obligations_per_client, c, old_o, new_o),
        None => a.obligations_per_client,
    };
    CacheAccountingView {
        entries_total: et,
        obligations_total: ot,
        nodes: if old_e == 0 && new_e != 0 {
            a.nodes + 1
        } else if old_e != 0 && new_e == 0 {
            a.nodes - 1
        } else {
            a.nodes
        },
        entries_per_surface: replaced_count(a.entries_per_surface, surface_id, old_e, new_e),
        obligations_per_surface: replaced_count(a.obligations_per_surface, surface_id, old_o, new_o),
        entries_per_client: epc,
        obligations_per_client: opc,
        maximum_entries: max_of(a.maximum_entries, et),
        maximum_entries_per_surface: max_of(a.maximum_entries_per_surface, new_e),
        maximum_entries_per_client: match client_id {
            Some(c) => max_of(a.maximum_entries_per_client, count_of(epc, c)),
            None => a.maximum_entries_per_client,
        },
        maximum_obligations: max_of(a.maximum_obligations, ot),
        maximum_obligations_per_surface: max_of(a.maximum_obligations_per_surface, new_o),
        maximum_obligations_per_client: match client_id {
            Some(c) => max_of(a.maximum_obligations_per_client, count_of(opc, c)),
            None => a.maximum_obligations_per_client,
        },
    }
}

fn max_usize(a: usize, b: usize) -> (r: usize)
    ensures
        r == max_of(a as int, b as int),
{
    if a >= b {
        a
    } else {
        b
    }
}

fn replace_surface_count(counts: &mut HashMap<u32, usize>, key: u32, before: usize, after: usize)
    requires
        replace_in_range(count_of(old(counts)@, key), before as int, after as int),
    ensures
        final(counts)@ == replaced_count(old(counts)@, key, before as int, after as int),
{
    let current = match counts.get(&key) {
        Some(c) => *c,
        None => 0,
    };
    let updated = current - before + after;
    if updated == 0 {
        counts.remove(&key);
    } else {
        counts.insert(key, updated);
    }
}

fn replace_client_count(counts: &mut HashMap<u64, usize>, key: u64, before: usize, after: usize)
    requires
        replace_in_range(count_of(old(counts)@, key), before as int, after as int),
    ensures
        final(counts)@ == replaced_count(old(counts)@, key, before as int, after as int),
{
    let current = match counts.get(&key) {
        Some(c) => *c,
        None => 0,
    };
    let updated = current - before + after;
    if updated == 0 {
        counts.remove(&key);
    } else {
        counts.insert(key, updated);
    }
}

impl SubsurfaceCacheAccounting {
    /// Trades a surface's `(old_entries, old_obligations)` for the new counts.
    pub fn replace_cached_accounting(
        &mut self,
        surface_id: u32,
        client_id: Option<u64>,
        old_entries: usize,
        new_entries: usize,
        old_obligations: usize,
        new_obligations: usize,
    )
        requires
            replace_fits(
                old(self)@,
                surface_id,
                client_id,
                old_entries as int,
                new_entries as int,
                old_obligations as int,
                new_obligations as int,
            ),
        ensures
            final(self)@ == acct_step(
                old(self)@,
                surface_id,
                client_id,
                old_entries as int,
                new_entries as int,
                old_obligations as int,
                new_obligations as int,
            ),
    {
        self.entries_total = self.entries_total - old_entries + new_entries;
        self.obligations_total = self.obligations_total - old_obligations + new_obligations;
        replace_surface_count(&mut self.entries_per_surface, surface_id, old_entries, new_entries);
        replace_surface_count(&mut self.obligations_per_surface, surface_id, old_obligations, new_obligations);
        match client_id {
            Some(c) => {
                replace_client_count(&mut self.entries_per_client, c, old_entries, new_entries);
                replace_client_count(&mut self.obligations_per_client, c, old_obligations, new_obligations);
            },
            None => {},
        }
        if old_entries == 0 && new_entries != 0 {
            self.nodes = self.nodes + 1;
        } else if old_entries != 0 && new_entries == 0 {
            self.nodes = self.nodes - 1;
        }
        self.maximum_entries = max_usize(self.maximum_entries, self.entries_total);
        self.maximum_entries_per_surface = max_usize(self.maximum_entries_per_surface, new_entries);
        self.maximum_obligations = max_usize(self.maximum_obligations, self.obligations_total);
        self.maximum_obligations_per_surface = max_usize(self.maximum_obligations_per_surface, new_obligations);
        match client_id {
            Some(c) => {
                let entries = match self.entries_per_client.get(&c) {
                    Some(v) => *v,
                    None => 0,
                };
                let obligations = match self.obligations_per_client.get(&c) {
                    Some(v) => *v,
                    None => 0,
                };
                self.maximum_entries_per_client = max_usize(self.maximum_entries_per_client, entries);
                self.maximum_obligations_per_client = max_usize(self.maximum_obligations_per_client, obligations);
            },
            None => {},
        }
    }
}


/// Whether a commit merges into the role's cached tail: there is a tail and
/// neither it nor the commit is a pacing boundary.
pub open spec fn cache_can_merge(role: SubsurfaceRoleState, commit: CachedSubsurfaceCommit) -> bool {
    role.cached_commits@.len() > 0 && !role.cached_commits@.last().pacing_boundary && !commit.pacing_boundary
}

/// The role's cached entries once the commit is admitted.
pub open spec fn cache_new_entries(role: SubsurfaceRoleState, commit: CachedSubsurfaceCommit) -> int {
    if cache_can_merge(role, commit) {
        role.cached_commits@.len() as int
    } else {
        role.cached_commits@.len() as int + 1
    }
}

/// The obligations stored for the surface before the commit.
pub open spec fn cache_old_obligations(st: SubsurfaceTransactionState, surface_id: u32) -> int {
    count_of(st.cache.obligations_per_surface@, surface_id)
}

/// The obligations stored for the surface once the commit is admitted: the
/// merged tail's when merging, the stored ones plus the commit's otherwise.
pub open spec fn cache_new_obligations(
    st: SubsurfaceTransactionState,
    surface_id: u32,
    commit: CachedSubsurfaceCommit,
) -> int {
    let role = st.roles@[surface_id];
    if cache_can_merge(role, commit) {
        spec_merged_obligations(role.cached_commits@.last(), commit)
    } else {
        cache_old_obligations(st, surface_id) + spec_obligations(commit)
    }
}

/// The obligation count the original computation of the commit's admission
/// needs to fit `usize`.
pub open spec fn cache_obligation_count_fits(
    st: SubsurfaceTransactionState,
    surface_id: u32,
    commit: CachedSubsurfaceCommit,
) -> bool {
    let role = st.roles@[surface_id];
    if cache_can_merge(role, commit) {
        spec_merged_obligations(role.cached_commits@.last(), commit) <= usize::MAX
    } else {
        spec_obligations(commit) <= usize::MAX
    }
}

/// Why the commit is refused, if it is: no role; counts that would leave
/// `usize`; or, in this order, the surface's entry and obligation budgets,
/// the client's, and the totals.
pub open spec fn spec_admission_failure(
    st: SubsurfaceTransactionState,
    surface_id: u32,
    commit: CachedSubsurfaceCommit,
) -> Option<CacheAdmissionFailure> {
    if !st.roles@.contains_key(surface_id) {
        Some(CacheAdmissionFailure::MissingRole)
    } else {
        let role = st.roles@[surface_id];
        let a = st.cache;
        let oe = role.cached_commits@.len() as int;
        let ne = cache_new_entries(role, commit);
        let oo = cache_old_obligations(st, surface_id);
        let no = cache_new_obligations(st, surface_id, commit);
        if ne > usize::MAX || no > usize::MAX || !replace_in_range(a.entries_total as int, oe, ne)
            || !replace_in_range(a.obligations_total as int, oo, no) || (role.client_id matches Some(c) && (
        !replace_in_range(count_of(a.entries_per_client@, c), oe, ne) || !replace_in_range(
            count_of(a.obligations_per_client@, c),
            oo,
            no,
        ))) {
            Some(CacheAdmissionFailure::AccountingInvariant)
        } else if ne > MAX_SYNCHRONIZED_CACHED_COMMITS_PER_SURFACE {
            Some(CacheAdmissionFailure::PerSurfaceEntryLimit)
        } else if no > MAX_SYNCHRONIZED_CACHED_OBLIGATIONS_PER_SURFACE {
            Some(CacheAdmissionFailure::PerSurfaceObligationLimit)
        } else if role.client_id matches Some(c) && count_of(a.entries_per_client@, c) - oe + ne
            > MAX_SYNCHRONIZED_CACHED_COMMITS_PER_CLIENT {
            Some(CacheAdmissionFailure::PerClientEntryLimit)
        } else if role.client_id matches Some(c) && count_of(a.obligations_per_client@, c) - oo + no
            > MAX_SYNCHRONIZED_CACHED_OBLIGATIONS_PER_CLIENT {
            Some(CacheAdmissionFailure::PerClientObligationLimit)
        } else if a.entries_total - oe + ne > MAX_SYNCHRONIZED_CACHED_COMMITS_TOTAL {
            Some(CacheAdmissionFailure::TotalEntryLimit)
        } else if a.obligations_total - oo + no > MAX_SYNCHRONIZED_CACHED_OBLIGATIONS_TOTAL {
            Some(CacheAdmissionFailure::TotalObligationLimit)
        } else {
            None
        }
    }
}

/// Whether the stored counts take an admitted commit without leaving
/// `usize` (the surface's stored entries cover its cached commits, and a
/// first entry finds room in the node count).
pub open spec fn cache_admission_fits(
    st: SubsurfaceTransactionState,
    surface_id: u32,
    commit: CachedSubsurfaceCommit,
) -> bool {
    let role = st.roles@[surface_id];
    replace_fits(
        st.cache@,
        surface_id,
        role.client_id,
        role.cached_commits@.len() as int,
        cache_new_entries(role, commit),
        cache_old_obligations(st, surface_id),
        cache_new_obligations(st, surface_id, commit),
    )
}

/// The registry after an admitted commit changed only the cached commits
/// of `surface_id` (to `commits`) and the stored counts.
pub open spec fn cached_commits_replaced(
    o: SubsurfaceTransactionState,
    f: SubsurfaceTransactionState,
    surface_id: u32,
    commits: Seq<CachedSubsurfaceCommit>,
) -> bool {
    let role = o.roles@[surface_id];
    &&& f.roles@.dom() == o.roles@.dom()
    &&& forall|id: u32| #[trigger] f.roles@.contains_key(id) && id != surface_id ==> f.roles@[id] == o.roles@[id]
    &&& f.roles@[surface_id] == (SubsurfaceRoleState { cached_commits: f.roles@[surface_id].cached_commits, ..role })
    &&& f.roles@[surface_id].cached_commits@ == commits
    &&& f.next_relationship_id == o.next_relationship_id
}

impl SubsurfaceTransactionState {
    /// Caches a commit of the synchronized subsurface `surface_id`. It merges
    /// into the cached tail when neither is a pacing boundary, and is
    /// appended otherwise, unless `spec_admission_failure` refuses it (the
    /// commit is then handed back and nothing changes). An admitted commit
    /// trades the surface's stored counts for the new ones: its entries, and
    /// its obligations, which after a merge are those of the merged tail.
    pub fn cache_commit(&mut self, surface_id: u32, commit: CachedSubsurfaceCommit) -> (r: CacheCommitOutcome)
        requires
            old(self).wf(),
            old(self).roles@.contains_key(surface_id) ==> cache_obligation_count_fits(*old(self), surface_id, commit),
            spec_admission_failure(*old(self), surface_id, commit) is None ==> cache_admission_fits(
                *old(self),
                surface_id,
                commit,
            ),
        ensures
            final(self).wf(),
            match r {
                CacheCommitOutcome::Rejected { commit: c, reason } => {
                    &&& c == commit
                    &&& spec_admission_failure(*old(self), surface_id, commit) == Some(reason)
                    &&& *final(self) == *old(self)
                },
                CacheCommitOutcome::Inserted => {
                    let role = old(self).roles@[surface_id];
                    &&& spec_admission_failure(*old(self), surface_id, commit) is None
                    &&& !cache_can_merge(role, commit)
                    &&& cached_commits_replaced(*old(self), *final(self), surface_id, role.cached_commits@.push(commit))
                },
                CacheCommitOutcome::Merged(m) => {
                    let role = old(self).roles@[surface_id];
                    let tail = role.cached_commits@.last();
                    let merged = final(self).roles@[surface_id].cached_commits@.last();
                    &&& spec_admission_failure(*old(self), surface_id, commit) is None
                    &&& cache_can_merge(role, commit)
                    &&& cached_commits_replaced(
                        *old(self),
                        *final(self),
                        surface_id,
                        role.cached_commits@.drop_last().push(merged),
                    )
                    &&& merged_into(tail, commit, merged)
                    &&& m.discarded_feedbacks@ == tail.presentation_feedbacks@
                    &&& m.superseded_buffer == (if commit.attachment is Some {
                        match tail.attachment {
                            Some(crate::subsurface::PendingSurfaceAttachment::Buffer(b)) => Some(b),
                            _ => None,
                        }
                    } else {
                        None
                    })
                },
            },
            !(r is Rejected) ==> final(self).cache@ == acct_step(
                old(self).cache@,
                surface_id,
                old(self).roles@[surface_id].client_id,
                old(self).roles@[surface_id].cached_commits@.len() as int,
                cache_new_entries(old(self).roles@[surface_id], commit),
                cache_old_obligations(*old(self), surface_id),
                cache_new_obligations(*old(self), surface_id, commit),
            ),
    {
        let (old_entries, can_merge, client_id) = match self.roles.get(&surface_id) {
            Some(role) => {
                let n = role.cached_commits.len();
                let can_merge = n > 0 && !role.cached_commits[n - 1].pacing_boundary && !commit.pacing_boundary;
                (n, can_merge, role.client_id)
            },
            None => {
                return CacheCommitOutcome::Rejected { commit, reason: CacheAdmissionFailure::MissingRole };
            },
        };
        let old_obligations = match self.cache.obligations_per_surface.get(&surface_id) {
            Some(v) => *v,
            None => 0,
        };
        let new_entries = if can_merge {
            old_entries
        } else {
            match old_entries.checked_add(1) {
                Some(n) => n,
                None => {
                    return CacheCommitOutcome::Rejected { commit, reason: CacheAdmissionFailure::AccountingInvariant };
                },
            }
        };
        let new_obligations = if can_merge {
            let role = self.roles.get(&surface_id).unwrap();
            role.cached_commits[old_entries - 1].merged_cached_obligation_count(&commit)
        } else {
            match old_obligations.checked_add(commit.cached_obligation_count()) {
                Some(n) => n,
                None => {
                    return CacheCommitOutcome::Rejected { commit, reason: CacheAdmissionFailure::AccountingInvariant };
                },
            }
        };
        let new_total_entries = match checked_replace(self.cache.entries_total, old_entries, new_entries) {
            Some(n) => n,
            None => {
                return CacheCommitOutcome::Rejected { commit, reason: CacheAdmissionFailure::AccountingInvariant };
            },
        };
        let new_total_obligations = match checked_replace(self.cache.obligations_total, old_obligations, new_obligations) {
            Some(n) => n,
            None => {
                return CacheCommitOutcome::Rejected { commit, reason: CacheAdmissionFailure::AccountingInvariant };
            },
        };
        let (new_client_entries, new_client_obligations) = match client_id {
            Some(c) => {
                let client_entries = match self.cache.entries_per_client.get(&c) {
                    Some(v) => *v,
                    None => 0,
                };
                let client_obligations = match self.cache.obligations_per_client.get(&c) {
                    Some(v) => *v,
                    None => 0,
                };
                let e = match checked_replace(client_entries, old_entries, new_entries) {
                    Some(n) => n,
                    None => {
                        return CacheCommitOutcome::Rejected {
                            commit,
                            reason: CacheAdmissionFailure::AccountingInvariant,
                        };
                    },
                };
                let o = match checked_replace(client_obligations, old_obligations, new_obligations) {
                    Some(n) => n,
                    None => {
                        return CacheCommitOutcome::Rejected {
                            commit,
                            reason: CacheAdmissionFailure::AccountingInvariant,
                        };
                    },
                };
                (e, o)
            },
            None => (0, 0),
        };
        let rejection = if new_entries > MAX_SYNCHRONIZED_CACHED_COMMITS_PER_SURFACE {
            Some(CacheAdmissionFailure::PerSurfaceEntryLimit)
        } else if new_obligations > MAX_SYNCHRONIZED_CACHED_OBLIGATIONS_PER_SURFACE {
            Some(CacheAdmissionFailure::PerSurfaceObligationLimit)
        } else if client_id.is_some() && new_client_entries > MAX_SYNCHRONIZED_CACHED_COMMITS_PER_CLIENT {
            Some(CacheAdmissionFailure::PerClientEntryLimit)
        } else if client_id.is_some() && new_client_obligations > MAX_SYNCHRONIZED_CACHED_OBLIGATIONS_PER_CLIENT {
            Some(CacheAdmissionFailure::PerClientObligationLimit)
        } else if new_total_entries > MAX_SYNCHRONIZED_CACHED_COMMITS_TOTAL {
            Some(CacheAdmissionFailure::TotalEntryLimit)
        } else if new_total_obligations > MAX_SYNCHRONIZED_CACHED_OBLIGATIONS_TOTAL {
            Some(CacheAdmissionFailure::TotalObligationLimit)
        } else {
            None
        };
        match rejection {
            Some(reason) => {
                return CacheCommitOutcome::Rejected { commit, reason };
            },
            None => {},
        }
        let ghost before = self.roles@;
        let mut role = self.roles.remove(&surface_id).unwrap();
        let ghost old_commits = role.cached_commits@;
        let outcome = if can_merge {
            let mut tail = role.cached_commits.pop().unwrap();
            let merge = tail.merge(commit);
            role.cached_commits.push(tail);
            CacheCommitOutcome::Merged(merge)
        } else {
            role.cached_commits.push(commit);
            CacheCommitOutcome::Inserted
        };
        self.roles.insert(surface_id, role);
        proof {
            lemma_links_same_parent(before, surface_id, self.roles@[surface_id]);
            assert(self.roles@ =~= before.insert(surface_id, self.roles@[surface_id]));
        }
        self.cache.replace_cached_accounting(
            surface_id,
            client_id,
            old_entries,
            new_entries,
            old_obligations,
            new_obligations,
        );
        outcome
    }
}

/// `current` less `before` plus `after`, when it stays within `usize`.
fn checked_replace(current: usize, before: usize, after: usize) -> (r: Option<usize>)
    ensures
        r == (if replace_in_range(current as int, before as int, after as int) {
            Some((current - before + after) as usize)
        } else {
            None
        }),
{
    if current < before {
        return None;
    }
    let rest = current - before;
    rest.checked_add(after)
}


/// An admitted commit keeps the synchronized cache within its budgets: once
/// it is stored, the surface holds at most the per-surface numbers of cached
/// commits and obligations, its client at most the per-client numbers, and
/// the whole cache at most the total numbers.
pub proof fn lemma_admitted_commit_within_budgets(
    st: SubsurfaceTransactionState,
    surface_id: u32,
    commit: CachedSubsurfaceCommit,
)
    requires
        spec_admission_failure(st, surface_id, commit) is None,
    ensures
        ({
            let role = st.roles@[surface_id];
            let a = acct_step(
                st.cache@,
                surface_id,
                role.client_id,
                role.cached_commits@.len() as int,
                cache_new_entries(role, commit),
                cache_old_obligations(st, surface_id),
                cache_new_obligations(st, surface_id, commit),
            );
            &&& cache_new_entries(role, commit) <= MAX_SYNCHRONIZED_CACHED_COMMITS_PER_SURFACE
            &&& count_of(a.obligations_per_surface, surface_id) <= MAX_SYNCHRONIZED_CACHED_OBLIGATIONS_PER_SURFACE
            &&& role.client_id matches Some(c) ==> count_of(a.entries_per_client, c)
                <= MAX_SYNCHRONIZED_CACHED_COMMITS_PER_CLIENT && count_of(a.obligations_per_client, c)
                <= MAX_SYNCHRONIZED_CACHED_OBLIGATIONS_PER_CLIENT
            &&& a.entries_total <= MAX_SYNCHRONIZED_CACHED_COMMITS_TOTAL
            &&& a.obligations_total <= MAX_SYNCHRONIZED_CACHED_OBLIGATIONS_TOTAL
        }),
{
}

/// The obligations the commits `s` retain, one after another.
pub open spec fn obligations_sum(s: Seq<CachedSubsurfaceCommit>) -> int
    decreases s.len(),
{
    if s.len() == 0 {
        0
    } else {
        obligations_sum(s.drop_last()) + spec_obligations(s.last())
    }
}

/// What dropping the cache of role `s` asks of the counts `a`: whether it
/// fits, and the counts after. The role gives up its entries and its
/// obligations, measured from its commits (`measured`) or as stored. A
/// surface without a role changes nothing.
pub open spec fn removal_step(
    a: CacheAccountingView,
    roles: Map<u32, SubsurfaceRoleState>,
    s: u32,
    measured: bool,
) -> (bool, CacheAccountingView) {
    if !roles.contains_key(s) {
        (true, a)
    } else {
        let role = roles[s];
        let e = role.cached_commits@.len() as int;
        let o = if measured {
            obligations_sum(role.cached_commits@)
        } else {
            count_of(a.obligations_per_surface, s)
        };
        (
            (measured ==> o <= usize::MAX) && replace_fits(a, s, role.client_id, e, 0, o, 0),
            acct_step(a, s, role.client_id, e, 0, o, 0),
        )
    }
}

/// Whether dropping the caches of the roles in `order`, one after another,
/// fits the counts at every step.
pub open spec fn removals_fit(
    a: CacheAccountingView,
    roles: Map<u32, SubsurfaceRoleState>,
    order: Seq<u32>,
    measured: bool,
) -> bool
    decreases order.len(),
{
    if order.len() == 0 {
        true
    } else {
        removal_step(a, roles, order[0], measured).0 && removals_fit(
            removal_step(a, roles, order[0], measured).1,
            roles,
            order.skip(1),
            measured,
        )
    }
}

/// The counts after the caches of the roles in `order` were dropped, in order.
pub open spec fn after_removals(
    a: CacheAccountingView,
    roles: Map<u32, SubsurfaceRoleState>,
    order: Seq<u32>,
    measured: bool,
) -> CacheAccountingView
    decreases order.len(),
{
    if order.len() == 0 {
        a
    } else {
        removal_step(after_removals(a, roles, order.drop_last(), measured), roles, order.last(), measured).1
    }
}

/// Removals that fit in `order` fit from any point of it on.
pub proof fn lemma_removals_fit_rest(
    a: CacheAccountingView,
    roles: Map<u32, SubsurfaceRoleState>,
    order: Seq<u32>,
    measured: bool,
    i: int,
)
    requires
        0 <= i < order.len(),
        removals_fit(after_removals(a, roles, order.take(i), measured), roles, order.skip(i), measured),
    ensures
        removal_step(after_removals(a, roles, order.take(i), measured), roles, order[i], measured).0,
        removals_fit(after_removals(a, roles, order.take(i + 1), measured), roles, order.skip(i + 1), measured),
{
    assert(order.skip(i)[0] == order[i]);
    assert(order.skip(i).skip(1) =~= order.skip(i + 1));
    assert(order.take(i + 1).drop_last() =~= order.take(i));
    assert(order.take(i + 1).last() == order[i]);
}

/// The obligations of a prefix of commits do not exceed those of all of them.
pub proof fn lemma_obligations_sum_prefix(s: Seq<CachedSubsurfaceCommit>, i: int)
    requires
        0 <= i <= s.len(),
    ensures
        0 <= obligations_sum(s.take(i)) <= obligations_sum(s),
    decreases s.len(),
{
    if s.len() > 0 {
        if i == s.len() {
            assert(s.take(i) =~= s);
            lemma_obligations_sum_nonnegative(s);
        } else {
            assert(s.drop_last().take(i) =~= s.take(i));
            lemma_obligations_sum_prefix(s.drop_last(), i);
        }
    }
}

proof fn lemma_obligations_sum_nonnegative(s: Seq<CachedSubsurfaceCommit>)
    ensures
        obligations_sum(s) >= 0,
    decreases s.len(),
{
    if s.len() > 0 {
        lemma_obligations_sum_nonnegative(s.drop_last());
    }
}

/// The obligations the commits `v` retain, when their sum fits `usize`.
pub(crate) fn sum_cached_obligations(v: &Vec<CachedSubsurfaceCommit>) -> (r: usize)
    requires
        obligations_sum(v@) <= usize::MAX,
    ensures
        r == obligations_sum(v@),
{
    let mut total: usize = 0;
    let mut i: usize = 0;
    while i < v.len()
        invariant
            i <= v@.len(),
            obligations_sum(v@) <= usize::MAX,
            total == obligations_sum(v@.take(i as int)),
        decreases v@.len() - i,
    {
        proof {
            assert(v@.take(i as int + 1).drop_last() =~= v@.take(i as int));
            assert(v@.take(i as int + 1).last() == v@[i as int]);
            lemma_obligations_sum_prefix(v@, i as int + 1);
            lemma_obligations_sum_nonnegative(v@.take(i as int));
        }
        total = total + v[i].cached_obligation_count();
        i = i + 1;
    }
    proof {
        assert(v@.take(v@.len() as int) =~= v@);
    }
    total
}


impl SubsurfaceTransactionState {
    /// Takes the cached commits of `surface_id`, which keeps its role; its
    /// stored entries and obligations are given up.
    pub fn take_cached_commits_for_surface(&mut self, surface_id: u32) -> (r: Vec<CachedSubsurfaceCommit>)
        requires
            old(self).wf(),
            removal_step(old(self).cache@, old(self).roles@, surface_id, false).0,
        ensures
            final(self).wf(),
            final(self).cache@ == removal_step(old(self).cache@, old(self).roles@, surface_id, false).1,
            final(self).next_relationship_id == old(self).next_relationship_id,
            final(self).roles@.dom() == old(self).roles@.dom(),
            forall|id: u32| #[trigger]
                final(self).roles@.contains_key(id) && id != surface_id ==> final(self).roles@[id] == old(self).roles@[id],
            old(self).roles@.contains_key(surface_id) ==> crate::subsurface_roles::drained(
                old(self).roles@[surface_id],
                final(self).roles@[surface_id],
            ),
            r@ == (if old(self).roles@.contains_key(surface_id) {
                old(self).roles@[surface_id].cached_commits@
            } else {
                Seq::<CachedSubsurfaceCommit>::empty()
            }),
    {
        let ghost before = self.roles@;
        match self.roles.remove(&surface_id) {
            Some(mut role) => {
                let client_id = role.client_id;
                let old_entries = role.cached_commits.len();
                let old_obligations = match self.cache.obligations_per_surface.get(&surface_id) {
                    Some(v) => *v,
                    None => 0,
                };
                let mut commits: Vec<CachedSubsurfaceCommit> = Vec::new();
                std::mem::swap(&mut commits, &mut role.cached_commits);
                self.roles.insert(surface_id, role);
                proof {
                    lemma_links_same_parent(before, surface_id, self.roles@[surface_id]);
                    assert(self.roles@ =~= before.insert(surface_id, self.roles@[surface_id]));
                    assert(role_links(self.roles@) == role_links(before));
                    assert forall|a: u32, b: u32|
                        #![trigger self.roles@[a], self.roles@[b]]
                        self.roles@.contains_key(a) && self.roles@.contains_key(b) && a != b implies self.roles@[a].relationship_id
                            != self.roles@[b].relationship_id by {
                        assert(self.roles@[a].relationship_id == before[a].relationship_id);
                        assert(self.roles@[b].relationship_id == before[b].relationship_id);
                    }
                }
                self.cache.replace_cached_accounting(surface_id, client_id, old_entries, 0, old_obligations, 0);
                commits
            },
            None => {
                proof {
                    assert(before.remove(surface_id) =~= before);
                }
                Vec::new()
            },
        }
    }

    /// The commits cached over all surfaces, as stored.
    pub fn cached_entry_count(&self) -> (r: usize)
        ensures
            r == self.cache.entries_total,
    {
        self.cache.entries_total
    }

    /// The surfaces holding cached commits, as stored.
    pub fn cached_node_count(&self) -> (r: usize)
        ensures
            r == self.cache.nodes,
    {
        self.cache.nodes
    }

    /// The obligations cached commits retain over all surfaces, as stored.
    pub fn cached_obligation_count(&self) -> (r: usize)
        ensures
            r == self.cache.obligations_total,
    {
        self.cache.obligations_total
    }

    pub fn maximum_cached_entries(&self) -> (r: usize)
        ensures
            r == self.cache.maximum_entries,
    {
        self.cache.maximum_entries
    }

    pub fn maximum_cached_entries_per_surface(&self) -> (r: usize)
        ensures
            r == self.cache.maximum_entries_per_surface,
    {
        self.cache.maximum_entries_per_surface
    }

    pub fn maximum_cached_entries_per_client(&self) -> (r: usize)
        ensures
            r == self.cache.maximum_entries_per_client,
    {
        self.cache.maximum_entries_per_client
    }

    pub fn maximum_cached_obligations(&self) -> (r: usize)
        ensures
            r == self.cache.maximum_obligations,
    {
        self.cache.maximum_obligations
    }

    pub fn maximum_cached_obligations_per_surface(&self) -> (r: usize)
        ensures
            r == self.cache.maximum_obligations_per_surface,
    {
        self.cache.maximum_obligations_per_surface
    }

    pub fn maximum_cached_obligations_per_client(&self) -> (r: usize)
        ensures
            r == self.cache.maximum_obligations_per_client,
    {
        self.cache.maximum_obligations_per_client
    }
}

} // verus!
