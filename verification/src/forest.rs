//! Parent links between surfaces (child id to parent id) and the facts about
//! walking them that keep the subsurface role tree free of cycles.
use vstd::prelude::*;

verus! {

/// The surface `k` parent steps above `id`, if the chain of links is that long.
pub open spec fn ancestor_at(links: Map<u32, u32>, id: u32, k: nat) -> Option<u32>
    decreases k,
{
    if k == 0 {
        Some(id)
    } else if links.contains_key(id) {
        ancestor_at(links, links[id], (k - 1) as nat)
    } else {
        None
    }
}

/// Whether `target` is `start` or one of its ancestors.
pub open spec fn reaches(links: Map<u32, u32>, start: u32, target: u32) -> bool {
    exists|k: nat| ancestor_at(links, start, k) == Some(target)
}

/// The chain of links above `id` ends within `fuel` steps.
pub open spec fn chain_ends_within(links: Map<u32, u32>, id: u32, fuel: nat) -> bool
    decreases fuel,
{
    fuel > 0 && (!links.contains_key(id) || chain_ends_within(links, links[id], (fuel - 1) as nat))
}

pub open spec fn chain_ends(links: Map<u32, u32>, id: u32) -> bool {
    exists|fuel: nat| chain_ends_within(links, id, fuel)
}

/// Every chain of links ends: the links form a forest.
pub open spec fn links_acyclic(links: Map<u32, u32>) -> bool {
    forall|id: u32| #[trigger] chain_ends(links, id)
}

/// One step of `reaches`: the target is the start, or is reached from its parent.
pub proof fn lemma_reaches_step(links: Map<u32, u32>, start: u32, target: u32)
    ensures
        reaches(links, start, target) == (start == target || (links.contains_key(start) && reaches(
            links,
            links[start],
            target,
        ))),
{
    if reaches(links, start, target) && start != target {
        let k = choose|k: nat| ancestor_at(links, start, k) == Some(target);
        assert(k > 0);
        assert(ancestor_at(links, links[start], (k - 1) as nat) == Some(target));
    }
    if links.contains_key(start) && reaches(links, links[start], target) {
        let k = choose|k: nat| ancestor_at(links, links[start], k) == Some(target);
        assert(ancestor_at(links, start, k + 1) == Some(target));
    }
    if start == target {
        assert(ancestor_at(links, start, 0) == Some(target));
    }
}

/// A chain that ends within `fuel` steps from a linked surface ends within
/// one step fewer from its parent.
pub proof fn lemma_chain_step(links: Map<u32, u32>, id: u32, fuel: nat)
    requires
        chain_ends_within(links, id, fuel),
        links.contains_key(id),
    ensures
        chain_ends_within(links, links[id], (fuel - 1) as nat),
        fuel >= 1,
{
}

proof fn lemma_chain_monotone(links: Map<u32, u32>, id: u32, f: nat, g: nat)
    requires
        chain_ends_within(links, id, f),
        f <= g,
    ensures
        chain_ends_within(links, id, g),
    decreases f,
{
    if links.contains_key(id) {
        lemma_chain_monotone(links, links[id], (f - 1) as nat, (g - 1) as nat);
    }
}

/// A chain that never meets `s` is the same chain once `s` gets a link.
proof fn lemma_chain_avoiding(links: Map<u32, u32>, s: u32, p: u32, x: u32, f: nat)
    requires
        chain_ends_within(links, x, f),
        !reaches(links, x, s),
    ensures
        chain_ends_within(links.insert(s, p), x, f),
    decreases f,
{
    lemma_reaches_step(links, x, s);
    if links.contains_key(x) {
        lemma_chain_avoiding(links, s, p, links[x], (f - 1) as nat);
    }
}

proof fn lemma_chain_after_insert(links: Map<u32, u32>, s: u32, p: u32, g: nat, id: u32, f: nat)
    requires
        !links.contains_key(s),
        !reaches(links, p, s),
        chain_ends_within(links, p, g),
        chain_ends_within(links, id, f),
    ensures
        chain_ends_within(links.insert(s, p), id, f + g + 1),
    decreases f,
{
    if id == s {
        lemma_chain_avoiding(links, s, p, p, g);
        lemma_chain_monotone(links.insert(s, p), p, g, (f + g) as nat);
    } else if links.contains_key(id) {
        lemma_chain_after_insert(links, s, p, g, links[id], (f - 1) as nat);
    }
}

/// Linking a new surface `s` under `p`, when `s` is not already among the
/// ancestors of `p`, keeps the links a forest.
pub proof fn lemma_insert_link_keeps_acyclic(links: Map<u32, u32>, s: u32, p: u32)
    requires
        links_acyclic(links),
        !links.contains_key(s),
        !reaches(links, p, s),
    ensures
        links_acyclic(links.insert(s, p)),
{
    assert(chain_ends(links, p));
    let g = choose|g: nat| chain_ends_within(links, p, g);
    assert forall|id: u32| #[trigger] chain_ends(links.insert(s, p), id) by {
        assert(chain_ends(links, id));
        let f = choose|f: nat| chain_ends_within(links, id, f);
        lemma_chain_after_insert(links, s, p, g, id, f);
    }
}

proof fn lemma_chain_after_remove(links: Map<u32, u32>, s: u32, id: u32, f: nat)
    requires
        chain_ends_within(links, id, f),
    ensures
        chain_ends_within(links.remove(s), id, f),
    decreases f,
{
    if links.contains_key(id) && id != s {
        lemma_chain_after_remove(links, s, links[id], (f - 1) as nat);
    }
}

/// Dropping a link keeps the links a forest.
pub proof fn lemma_remove_link_keeps_acyclic(links: Map<u32, u32>, s: u32)
    requires
        links_acyclic(links),
    ensures
        links_acyclic(links.remove(s)),
{
    assert forall|id: u32| #[trigger] chain_ends(links.remove(s), id) by {
        assert(chain_ends(links, id));
        let f = choose|f: nat| chain_ends_within(links, id, f);
        lemma_chain_after_remove(links, s, id, f);
    }
}

/// In a forest no surface is its own strict ancestor.
pub proof fn lemma_no_cycle_through(links: Map<u32, u32>, s: u32)
    requires
        links_acyclic(links),
        links.contains_key(s),
    ensures
        !reaches(links, links[s], s),
{
    assert(chain_ends(links, s));
    let f = choose|f: nat| chain_ends_within(links, s, f);
    lemma_no_return(links, s, links[s], f);
}

proof fn lemma_no_return(links: Map<u32, u32>, s: u32, x: u32, f: nat)
    requires
        links.contains_key(s),
        chain_ends_within(links, s, f),
        x == links[s] || reaches(links, links[s], x),
    ensures
        !reaches(links, x, s),
{
    if reaches(links, x, s) {
        lemma_reaches_transitive(links, links[s], x, s);
        let k = choose|k: nat| ancestor_at(links, links[s], k) == Some(s);
        lemma_cycle_never_ends(links, s, k, f);
    }
}

proof fn lemma_reaches_transitive(links: Map<u32, u32>, a: u32, b: u32, c: u32)
    requires
        a == b || reaches(links, a, b),
        reaches(links, b, c),
    ensures
        reaches(links, a, c),
{
    if a != b {
        let i = choose|i: nat| ancestor_at(links, a, i) == Some(b);
        let j = choose|j: nat| ancestor_at(links, b, j) == Some(c);
        lemma_ancestor_add(links, a, i, j);
        assert(ancestor_at(links, a, i + j) == Some(c));
    }
}

proof fn lemma_ancestor_add(links: Map<u32, u32>, a: u32, i: nat, j: nat)
    requires
        ancestor_at(links, a, i) is Some,
    ensures
        ancestor_at(links, a, i + j) == ancestor_at(links, ancestor_at(links, a, i)->0, j),
    decreases i,
{
    if i > 0 {
        lemma_ancestor_add(links, links[a], (i - 1) as nat, j);
        assert((i + j - 1) as nat == (i - 1) as nat + j);
    }
}

/// If `s`'s parent leads back to `s` in `k` steps, `s`'s chain never ends.
proof fn lemma_cycle_never_ends(links: Map<u32, u32>, s: u32, k: nat, f: nat)
    requires
        links.contains_key(s),
        ancestor_at(links, links[s], k) == Some(s),
    ensures
        !chain_ends_within(links, s, f),
    decreases f,
{
    if chain_ends_within(links, s, f) {
        lemma_walk_back(links, links[s], s, k, (f - 1) as nat);
        lemma_cycle_never_ends(links, s, k, (f - 1 - k) as nat);
    }
}

/// Walking `k` steps from `x` to `s` uses `k` units of a chain's fuel.
proof fn lemma_walk_back(links: Map<u32, u32>, x: u32, s: u32, k: nat, f: nat)
    requires
        ancestor_at(links, x, k) == Some(s),
        chain_ends_within(links, x, f),
    ensures
        f >= k + 1,
        chain_ends_within(links, s, (f - k) as nat),
    decreases k,
{
    if k > 0 {
        lemma_walk_back(links, links[x], s, (k - 1) as nat, (f - 1) as nat);
    }
}

} // verus!
