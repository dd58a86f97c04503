//! Dismissing popups: the dismissed popup and the popups below it turn inert
//! and unmapped, each of their clients hears `popup_done` once, and the popup
//! grab lets go of them.
use vstd::prelude::*;
use vstd::std_specs::iter::IteratorSpec;
use crate::compositor::CompositorState;
use crate::popup::{
    grab_touches, nodes_view, spec_retain_not_in, walk_bound, with_popups, PopupLifecycle,
    PopupNodeView, PopupState,
};

verus! {

/// What a dismissal did: whether the popup could be dismissed, the popups to
/// unmap, and those whose clients are to receive `popup_done`.
#[derive(Debug, Clone, PartialEq, Eq)]
pub struct PopupDismissal {
    pub dismissed: bool,
    pub unmap: Vec<u32>,
    pub popup_done: Vec<u32>,
}

/// Whether dismissal can reach `id`: a known popup that is not destroyed.
pub open spec fn dismissable(v: Map<u32, PopupNodeView>, id: u32) -> bool {
    v.contains_key(id) && v[id].lifecycle != PopupLifecycle::Destroyed
}

/// The popups a dismissal of `id` reaches: `id` itself and, through the
/// children lists, the popups below it, at most `fuel` levels deep. A
/// destroyed popup, and what hangs below it, is not reached.
pub open spec fn dismiss_reach(v: Map<u32, PopupNodeView>, id: u32, fuel: nat) -> Set<u32>
    decreases fuel, 0nat, 0nat,
{
    if fuel == 0 || !dismissable(v, id) {
        Set::empty()
    } else {
        children_reach(v, v[id].children, (fuel - 1) as nat).insert(id)
    }
}

/// The popups dismissals of each of `cs` reach.
pub open spec fn children_reach(v: Map<u32, PopupNodeView>, cs: Seq<u32>, fuel: nat) -> Set<u32>
    decreases fuel, 1nat, cs.len(),
{
    if cs.len() == 0 {
        Set::empty()
    } else {
        children_reach(v, cs.drop_last(), fuel).union(dismiss_reach(v, cs.last(), fuel))
    }
}

/// A popup after dismissal: inert, unmapped, its client told.
pub open spec fn dismissed_view(n: PopupNodeView) -> PopupNodeView {
    PopupNodeView { lifecycle: PopupLifecycle::Inert, mapped: false, popup_done_sent: true, ..n }
}

/// The popups with those of `s` dismissed.
pub open spec fn mark_dismissed(v: Map<u32, PopupNodeView>, s: Set<u32>) -> Map<u32, PopupNodeView> {
    Map::new(
        |k: u32| v.contains_key(k),
        |k: u32|
            if s.contains(k) {
                dismissed_view(v[k])
            } else {
                v[k]
            },
    )
}

/// Whether a dismissal tells the client of `x`: reached, not told before,
/// and the popup role still exists.
pub open spec fn owes_popup_done(p: PopupState, reach: Set<u32>, x: u32) -> bool {
    reach.contains(x) && !p.nodes@[x].popup_done_sent && p.surfaces@.contains_key(x)
}

proof fn lemma_reach_dismissable(v: Map<u32, PopupNodeView>, id: u32, fuel: nat)
    ensures
        forall|x: u32| #[trigger] dismiss_reach(v, id, fuel).contains(x) ==> dismissable(v, x),
    decreases fuel, 0nat, 0nat,
{
    let reach = dismiss_reach(v, id, fuel);
    if fuel > 0 && dismissable(v, id) {
        let below = children_reach(v, v[id].children, (fuel - 1) as nat);
        lemma_children_reach_dismissable(v, v[id].children, (fuel - 1) as nat);
        assert(reach == below.insert(id));
        assert forall|x: u32| #[trigger] reach.contains(x) implies dismissable(v, x) by {
            if x != id {
                assert(below.contains(x));
            }
        }
    } else {
        assert(reach =~= Set::<u32>::empty());
    }
}

proof fn lemma_children_reach_dismissable(v: Map<u32, PopupNodeView>, cs: Seq<u32>, fuel: nat)
    ensures
        forall|x: u32| #[trigger] children_reach(v, cs, fuel).contains(x) ==> dismissable(v, x),
    decreases fuel, 1nat, cs.len(),
{
    let reach = children_reach(v, cs, fuel);
    if cs.len() > 0 {
        let first = children_reach(v, cs.drop_last(), fuel);
        let last = dismiss_reach(v, cs.last(), fuel);
        lemma_children_reach_dismissable(v, cs.drop_last(), fuel);
        lemma_reach_dismissable(v, cs.last(), fuel);
        assert(reach == first.union(last));
        assert forall|x: u32| #[trigger] reach.contains(x) implies dismissable(v, x) by {
            if first.contains(x) {
            } else {
                assert(last.contains(x));
            }
        }
    } else {
        assert(reach =~= Set::<u32>::empty());
    }
}

/// Dismissing popups keeps every children list and never turns a popup into a
/// destroyed one, so what a dismissal reaches does not change.
proof fn lemma_reach_after_mark(v: Map<u32, PopupNodeView>, s: Set<u32>, id: u32, fuel: nat)
    requires
        forall|k: u32| s.contains(k) && v.contains_key(k) ==> v[k].lifecycle != PopupLifecycle::Destroyed,
    ensures
        dismiss_reach(mark_dismissed(v, s), id, fuel) == dismiss_reach(v, id, fuel),
    decreases fuel, 0nat, 0nat,
{
    let m = mark_dismissed(v, s);
    assert(dismissable(m, id) == dismissable(v, id));
    if fuel > 0 && dismissable(v, id) {
        assert(m[id].children == v[id].children);
        lemma_children_reach_after_mark(v, s, v[id].children, (fuel - 1) as nat);
    }
}

proof fn lemma_children_reach_after_mark(v: Map<u32, PopupNodeView>, s: Set<u32>, cs: Seq<u32>, fuel: nat)
    requires
        forall|k: u32| s.contains(k) && v.contains_key(k) ==> v[k].lifecycle != PopupLifecycle::Destroyed,
    ensures
        children_reach(mark_dismissed(v, s), cs, fuel) == children_reach(v, cs, fuel),
    decreases fuel, 1nat, cs.len(),
{
    if cs.len() > 0 {
        lemma_children_reach_after_mark(v, s, cs.drop_last(), fuel);
        lemma_reach_after_mark(v, s, cs.last(), fuel);
    }
}

proof fn lemma_mark_twice(v: Map<u32, PopupNodeView>, a: Set<u32>, b: Set<u32>)
    ensures
        mark_dismissed(mark_dismissed(v, a), b) == mark_dismissed(v, a.union(b)),
{
    assert(mark_dismissed(mark_dismissed(v, a), b) =~= mark_dismissed(v, a.union(b)));
}

fn copy_ids(v: &Vec<u32>) -> (r: Vec<u32>)
    ensures
        r@ == v@,
{
    let mut out: Vec<u32> = Vec::new();
    let mut i: usize = 0;
    while i < v.len()
        invariant
            i <= v.len(),
            out@ == v@.take(i as int),
        decreases v.len() - i,
    {
        out.push(v[i]);
        proof {
            assert(out@ =~= v@.take(i as int + 1));
        }
        i = i + 1;
    }
    assert(v@.take(v.len() as int) =~= v@);
    out
}

impl PopupState {
    /// Dismisses `id` and, first, the popups below it, at most `fuel` levels
    /// deep; appends the popups it unmaps to `unmap` and those whose clients
    /// it tells to `done`.
    fn dismiss_walk(&mut self, id: u32, fuel: usize, unmap: &mut Vec<u32>, done: &mut Vec<u32>)
        requires
            old(done)@.no_duplicates(),
            forall|x: u32| #[trigger]
                old(done)@.contains(x) ==> old(self).nodes@.contains_key(x) && old(self).nodes@[x].popup_done_sent,
        ensures
            ({
                let reach = dismiss_reach(nodes_view(old(self).nodes@), id, fuel as nat);
                &&& nodes_view(final(self).nodes@) == mark_dismissed(nodes_view(old(self).nodes@), reach)
                &&& *final(self) == (PopupState { nodes: final(self).nodes, ..*old(self) })
                &&& forall|x: u32| #[trigger]
                    final(unmap)@.contains(x) <==> (old(unmap)@.contains(x) || reach.contains(x))
                &&& final(done)@.no_duplicates()
                &&& forall|x: u32| #[trigger]
                    final(done)@.contains(x) ==> final(self).nodes@.contains_key(x)
                        && final(self).nodes@[x].popup_done_sent
                &&& forall|x: u32| #[trigger]
                    final(done)@.contains(x) <==> (old(done)@.contains(x) || owes_popup_done(*old(self), reach, x))
            }),
        decreases fuel,
    {
        let ghost v0 = nodes_view(self.nodes@);
        let ghost p0 = *self;
        if fuel == 0 {
            proof {
                assert(mark_dismissed(v0, Set::empty()) =~= v0);
            }
            return;
        }
        let children = match self.nodes.get(&id) {
            Some(node) => {
                if node.lifecycle == PopupLifecycle::Destroyed {
                    proof {
                        assert(mark_dismissed(v0, Set::empty()) =~= v0);
                    }
                    return;
                }
                copy_ids(&node.children)
            },
            None => {
                proof {
                    assert(mark_dismissed(v0, Set::empty()) =~= v0);
                }
                return;
            },
        };
        let ghost f1 = (fuel - 1) as nat;
        proof {
            assert(mark_dismissed(v0, Set::empty()) =~= v0);
            assert(children@.take(0) =~= Seq::<u32>::empty());
        }
        let mut k: usize = 0;
        while k < children.len()
            invariant
                0 < fuel,
                f1 == (fuel - 1) as nat,
                k <= children@.len(),
                v0 == nodes_view(p0.nodes@),
                p0.nodes@.contains_key(id),
                children@ == v0[id].children,
                nodes_view(self.nodes@) == mark_dismissed(v0, children_reach(v0, children@.take(k as int), f1)),
                *self == (PopupState { nodes: self.nodes, ..p0 }),
                forall|x: u32| #[trigger]
                    unmap@.contains(x) <==> (old(unmap)@.contains(x) || children_reach(
                        v0,
                        children@.take(k as int),
                        f1,
                    ).contains(x)),
                done@.no_duplicates(),
                forall|x: u32| #[trigger]
                    done@.contains(x) ==> self.nodes@.contains_key(x) && self.nodes@[x].popup_done_sent,
                forall|x: u32| #[trigger]
                    done@.contains(x) <==> (old(done)@.contains(x) || owes_popup_done(
                        p0,
                        children_reach(v0, children@.take(k as int), f1),
                        x,
                    )),
            decreases children@.len() - k,
        {
            let c = children[k];
            let ghost before = children_reach(v0, children@.take(k as int), f1);
            let ghost vk = nodes_view(self.nodes@);
            let ghost pk = *self;
            proof {
                lemma_children_reach_dismissable(v0, children@.take(k as int), f1);
                lemma_reach_after_mark(v0, before, c, f1);
                assert(children@.take(k as int + 1).drop_last() =~= children@.take(k as int));
                assert(children@.take(k as int + 1).last() == c);
            }
            self.dismiss_walk(c, fuel - 1, unmap, done);
            proof {
                let rc = dismiss_reach(v0, c, f1);
                lemma_mark_twice(v0, before, rc);
                lemma_reach_dismissable(v0, c, f1);
                assert(children_reach(v0, children@.take(k as int + 1), f1) == before.union(rc));
                assert forall|x: u32| #[trigger]
                    done@.contains(x) <==> (old(done)@.contains(x) || owes_popup_done(
                        p0,
                        before.union(rc),
                        x,
                    )) by {
                    if rc.contains(x) {
                        assert(v0.contains_key(x));
                        assert(vk[x] == (if before.contains(x) {
                            dismissed_view(v0[x])
                        } else {
                            v0[x]
                        }));
                    }
                }
            }
            k = k + 1;
        }
        proof {
            assert(children@.take(children@.len() as int) =~= children@);
        }
        let ghost u = children_reach(v0, children@, f1);
        let ghost mid = self.nodes@;
        proof {
            assert(mark_dismissed(v0, u).contains_key(id));
            assert(nodes_view(mid).contains_key(id));
        }
        match self.nodes.remove(&id) {
            Some(mut node) => {
                let notify = !node.popup_done_sent && self.surfaces.contains_key(&id);
                node.lifecycle = PopupLifecycle::Inert;
                node.mapped = false;
                node.popup_done_sent = true;
                let ghost view = node@;
                self.nodes.insert(id, node);
                proof {
                    assert(nodes_view(mid).contains_key(id));
                    assert(nodes_view(mid)[id] == mid[id]@);
                    assert(view == dismissed_view(v0[id]));
                    lemma_mark_twice(v0, u, set![id]);
                    assert(nodes_view(self.nodes@) =~= mark_dismissed(v0, u.union(set![id])));
                    assert(u.union(set![id]) =~= u.insert(id));
                }
                if notify {
                    let ghost done_before = done@;
                    done.push(id);
                    proof {
                        assert forall|a: int, b: int| 0 <= a < b < done@.len() implies done@[a] != done@[b] by {
                            if b == done@.len() - 1 {
                                assert(done_before.contains(done@[a]));
                            }
                        }
                        assert forall|x: u32| #[trigger] done@.contains(x) <==> (done_before.contains(x) || x == id) by {
                            if done@.contains(x) {
                                let j = choose|j: int| 0 <= j < done@.len() && done@[j] == x;
                                if j < done_before.len() {
                                    assert(done_before[j] == x);
                                }
                            }
                            if done_before.contains(x) {
                                let j = choose|j: int| 0 <= j < done_before.len() && done_before[j] == x;
                                assert(done@[j] == x);
                            }
                            if x == id {
                                assert(done@[done_before.len() as int] == x);
                            }
                        }
                    }
                }
                let ghost unmap_before = unmap@;
                unmap.push(id);
                proof {
                    assert forall|x: u32| #[trigger] unmap@.contains(x) <==> (unmap_before.contains(x) || x == id) by {
                        if unmap@.contains(x) {
                            let j = choose|j: int| 0 <= j < unmap@.len() && unmap@[j] == x;
                            if j < unmap_before.len() {
                                assert(unmap_before[j] == x);
                            }
                        }
                        if unmap_before.contains(x) {
                            let j = choose|j: int| 0 <= j < unmap_before.len() && unmap_before[j] == x;
                            assert(unmap@[j] == x);
                        }
                        if x == id {
                            assert(unmap@[unmap_before.len() as int] == x);
                        }
                    }
                    assert(dismiss_reach(v0, id, fuel as nat) == u.insert(id));
                    assert forall|x: u32| #[trigger]
                        done@.contains(x) <==> (old(done)@.contains(x) || owes_popup_done(p0, u.insert(id), x)) by {
                        if x == id {
                            assert(nodes_view(mid).contains_key(id));
                            assert(nodes_view(mid)[id] == mid[id]@);
                            assert(mid[id]@ == (if u.contains(id) {
                                dismissed_view(v0[id])
                            } else {
                                v0[id]
                            }));
                        }
                    }
                }
            },
            None => {
                proof {
                    assert(false);
                }
            },
        }
    }
}

/// What dismissing `surface_id` leaves, with `r` the dismissal reported.
pub open spec fn popup_dismissed(o: CompositorState, f: CompositorState, surface_id: u32, r: PopupDismissal) -> bool {
    let v0 = nodes_view(o.popups.nodes@);
    let reach = dismiss_reach(v0, surface_id, walk_bound(o.popups.nodes.len()));
    &&& r.dismissed == dismissable(v0, surface_id)
    &&& nodes_view(f.popups.nodes@) == mark_dismissed(v0, reach)
    &&& forall|x: u32| #[trigger] r.unmap@.contains(x) <==> reach.contains(x)
    &&& r.popup_done@.no_duplicates()
    &&& forall|x: u32| #[trigger]
        r.popup_done@.contains(x) <==> owes_popup_done(o.popups, reach, x)
    &&& f.popups.grab == match o.popups.grab {
        Some(g) if grab_touches(g, r.unmap@) => None,
        other => other,
    }
    &&& f.popups.grab_stack@ == spec_retain_not_in(o.popups.grab_stack@, r.unmap@)
    &&& f == with_popups(
        o,
        PopupState {
            nodes: f.popups.nodes,
            grab: f.popups.grab,
            grab_stack: f.popups.grab_stack,
            ..o.popups
        },
    )
}

impl CompositorState {
    /// Dismisses a popup and the popups below it: they turn inert and
    /// unmapped, each client not yet told receives `popup_done`, and a grab
    /// involving them ends. Refused (with nothing done) for an unknown or
    /// destroyed popup. The walk below the popup goes at most one level more
    /// than there are popups.
    pub fn dismiss_popup_surface(&mut self, surface_id: u32) -> (r: PopupDismissal)
        ensures
            popup_dismissed(*old(self), *final(self), surface_id, r),
    {
        let len = self.popups.nodes.len();
        let fuel = if len == usize::MAX {
            len
        } else {
            len + 1
        };
        let dismissed = match self.popups.nodes.get(&surface_id) {
            Some(node) => node.lifecycle != PopupLifecycle::Destroyed,
            None => false,
        };
        let mut unmap: Vec<u32> = Vec::new();
        let mut done: Vec<u32> = Vec::new();
        self.popups.dismiss_walk(surface_id, fuel, &mut unmap, &mut done);
        self.clear_popup_grab_for_surface_ids(unmap.as_slice());
        PopupDismissal { dismissed, unmap, popup_done: done }
    }
}

/// Whether `c` is a popup hanging from the surface `parent`.
pub open spec fn popup_child_of(v: Map<u32, PopupNodeView>, parent: u32, c: u32) -> bool {
    v.contains_key(c) && v[c].parent.spec_surface_id() == parent
}

/// The popups that dismissing every popup hanging from `parent` reaches.
pub open spec fn parent_dismiss_reach(v: Map<u32, PopupNodeView>, parent: u32, fuel: nat) -> Set<u32> {
    Set::new(|x: u32| exists|c: u32| popup_child_of(v, parent, c) && #[trigger] dismiss_reach(v, c, fuel).contains(x))
}

/// The popups that dismissing those of `ids` hanging from `parent` reaches.
pub open spec fn listed_reach(v: Map<u32, PopupNodeView>, ids: Seq<u32>, parent: u32, fuel: nat) -> Set<u32>
    decreases ids.len(),
{
    if ids.len() == 0 {
        Set::empty()
    } else {
        listed_reach(v, ids.drop_last(), parent, fuel).union(
            if popup_child_of(v, parent, ids.last()) {
                dismiss_reach(v, ids.last(), fuel)
            } else {
                Set::empty()
            },
        )
    }
}

proof fn lemma_listed_reach_members(v: Map<u32, PopupNodeView>, ids: Seq<u32>, parent: u32, fuel: nat)
    ensures
        forall|x: u32| #[trigger]
            listed_reach(v, ids, parent, fuel).contains(x) <==> exists|j: int|
                0 <= j < ids.len() && popup_child_of(v, parent, ids[j]) && #[trigger] dismiss_reach(
                    v,
                    ids[j],
                    fuel,
                ).contains(x),
        forall|x: u32| #[trigger] listed_reach(v, ids, parent, fuel).contains(x) ==> dismissable(v, x),
    decreases ids.len(),
{
    let l = listed_reach(v, ids, parent, fuel);
    if ids.len() > 0 {
        let prev = ids.drop_last();
        lemma_listed_reach_members(v, prev, parent, fuel);
        lemma_reach_dismissable(v, ids.last(), fuel);
        assert forall|x: u32| #[trigger] l.contains(x) <==> exists|j: int|
            0 <= j < ids.len() && popup_child_of(v, parent, ids[j]) && #[trigger] dismiss_reach(
                v,
                ids[j],
                fuel,
            ).contains(x) by {
            if l.contains(x) {
                if listed_reach(v, prev, parent, fuel).contains(x) {
                    let j = choose|j: int|
                        0 <= j < prev.len() && popup_child_of(v, parent, prev[j]) && #[trigger] dismiss_reach(
                            v,
                            prev[j],
                            fuel,
                        ).contains(x);
                    assert(prev[j] == ids[j]);
                } else {
                    assert(dismiss_reach(v, ids[ids.len() - 1], fuel).contains(x));
                }
            }
            if exists|j: int|
                0 <= j < ids.len() && popup_child_of(v, parent, ids[j]) && #[trigger] dismiss_reach(
                    v,
                    ids[j],
                    fuel,
                ).contains(x) {
                let j = choose|j: int|
                    0 <= j < ids.len() && popup_child_of(v, parent, ids[j]) && #[trigger] dismiss_reach(
                        v,
                        ids[j],
                        fuel,
                    ).contains(x);
                if j < ids.len() - 1 {
                    assert(prev[j] == ids[j]);
                    assert(listed_reach(v, prev, parent, fuel).contains(x));
                }
            }
        }
        assert forall|x: u32| #[trigger] l.contains(x) implies dismissable(v, x) by {
            if !listed_reach(v, prev, parent, fuel).contains(x) {
                assert(dismiss_reach(v, ids.last(), fuel).contains(x));
            }
        }
    } else {
        assert(l =~= Set::<u32>::empty());
    }
}

proof fn lemma_listed_reach_is_parent_reach(v: Map<u32, PopupNodeView>, ids: Seq<u32>, parent: u32, fuel: nat)
    requires
        ids.to_set() == v.dom(),
    ensures
        listed_reach(v, ids, parent, fuel) == parent_dismiss_reach(v, parent, fuel),
{
    lemma_listed_reach_members(v, ids, parent, fuel);
    let l = listed_reach(v, ids, parent, fuel);
    let p = parent_dismiss_reach(v, parent, fuel);
    assert forall|x: u32| l.contains(x) <==> p.contains(x) by {
        if l.contains(x) {
            let j = choose|j: int|
                0 <= j < ids.len() && popup_child_of(v, parent, ids[j]) && #[trigger] dismiss_reach(
                    v,
                    ids[j],
                    fuel,
                ).contains(x);
            assert(popup_child_of(v, parent, ids[j]) && dismiss_reach(v, ids[j], fuel).contains(x));
        }
        if p.contains(x) {
            let c = choose|c: u32| popup_child_of(v, parent, c) && #[trigger] dismiss_reach(v, c, fuel).contains(x);
            assert(v.dom().contains(c));
            assert(ids.to_set().contains(c));
            let j = choose|j: int| 0 <= j < ids.len() && ids[j] == c;
            assert(dismiss_reach(v, ids[j], fuel).contains(x));
        }
    }
    assert(l =~= p);
}

impl PopupState {
    /// The popups, each once.
    fn node_ids(&self) -> (ids: Vec<u32>)
        ensures
            ids@.to_set() == self.nodes@.dom(),
            ids@.no_duplicates(),
    {
        let ghost all = self.nodes.keys().remaining();
        let mut ids: Vec<u32> = Vec::new();
        for k in it: self.nodes.keys()
            invariant
                it.seq() == all,
                ids@.len() == it.index(),
                forall|i: int| 0 <= i < ids@.len() ==> ids@[i] == *all[i],
        {
            ids.push(*k);
        }
        proof {
            assert(ids@ =~= all.unref());
        }
        ids
    }
}

impl CompositorState {
    /// Dismisses every popup hanging from `parent_surface_id` and the popups
    /// below them, as `dismiss_popup_surface` does for one.
    #[verifier::spinoff_prover]
    #[verifier::rlimit(40)]
    pub fn dismiss_popup_children_for_parent(&mut self, parent_surface_id: u32) -> (r: PopupDismissal)
        ensures
            ({
                let v0 = nodes_view(old(self).popups.nodes@);
                let reach = parent_dismiss_reach(v0, parent_surface_id, walk_bound(old(self).popups.nodes.len()));
                &&& r.dismissed == (exists|x: u32| #[trigger] reach.contains(x))
                &&& nodes_view(final(self).popups.nodes@) == mark_dismissed(v0, reach)
                &&& forall|x: u32| #[trigger] r.unmap@.contains(x) <==> reach.contains(x)
                &&& r.popup_done@.no_duplicates()
                &&& forall|x: u32| #[trigger]
                    r.popup_done@.contains(x) <==> owes_popup_done(old(self).popups, reach, x)
                &&& final(self).popups.grab == match old(self).popups.grab {
                    Some(g) if grab_touches(g, r.unmap@) => None,
                    other => other,
                }
                &&& final(self).popups.grab_stack@ == spec_retain_not_in(old(self).popups.grab_stack@, r.unmap@)
                &&& *final(self) == with_popups(
                    *old(self),
                    PopupState {
                        nodes: final(self).popups.nodes,
                        grab: final(self).popups.grab,
                        grab_stack: final(self).popups.grab_stack,
                        ..old(self).popups
                    },
                )
            }),
    {
        let len = self.popups.nodes.len();
        let fuel = if len == usize::MAX {
            len
        } else {
            len + 1
        };
        let ghost f = fuel as nat;
        let ghost p0 = self.popups;
        let ghost v0 = nodes_view(p0.nodes@);
        let ids = self.popups.node_ids();
        let mut unmap: Vec<u32> = Vec::new();
        let mut done: Vec<u32> = Vec::new();
        proof {
            assert(mark_dismissed(v0, Set::empty()) =~= v0);
            assert(ids@.take(0) =~= Seq::<u32>::empty());
        }
        let mut i: usize = 0;
        while i < ids.len()
            invariant
                i <= ids@.len(),
                f == fuel as nat,
                ids@.to_set() == p0.nodes@.dom(),
                v0 == nodes_view(p0.nodes@),
                nodes_view(self.popups.nodes@) == mark_dismissed(
                    v0,
                    listed_reach(v0, ids@.take(i as int), parent_surface_id, f),
                ),
                self.popups == (PopupState { nodes: self.popups.nodes, ..p0 }),
                *self == with_popups(*old(self), self.popups),
                p0 == old(self).popups,
                forall|x: u32| #[trigger]
                    unmap@.contains(x) <==> listed_reach(v0, ids@.take(i as int), parent_surface_id, f).contains(x),
                done@.no_duplicates(),
                forall|x: u32| #[trigger]
                    done@.contains(x) ==> self.popups.nodes@.contains_key(x) && self.popups.nodes@[x].popup_done_sent,
                forall|x: u32| #[trigger]
                    done@.contains(x) <==> owes_popup_done(
                        p0,
                        listed_reach(v0, ids@.take(i as int), parent_surface_id, f),
                        x,
                    ),
            decreases ids@.len() - i,
        {
            let id = ids[i];
            let ghost before = listed_reach(v0, ids@.take(i as int), parent_surface_id, f);
            let ghost vi = nodes_view(self.popups.nodes@);
            proof {
                lemma_listed_reach_members(v0, ids@.take(i as int), parent_surface_id, f);
                assert(ids@.take(i as int + 1).drop_last() =~= ids@.take(i as int));
                assert(ids@.take(i as int + 1).last() == id);
            }
            let is_child = match self.popups.nodes.get(&id) {
                Some(node) => node.parent.surface_id() == parent_surface_id,
                None => false,
            };
            proof {
                assert(mark_dismissed(v0, before).contains_key(id) == v0.contains_key(id));
                if v0.contains_key(id) {
                    assert(mark_dismissed(v0, before)[id].parent == v0[id].parent);
                    assert(nodes_view(self.popups.nodes@).contains_key(id));
                    assert(nodes_view(self.popups.nodes@)[id] == self.popups.nodes@[id]@);
                }
                assert(is_child == popup_child_of(v0, parent_surface_id, id));
            }
            if is_child {
                proof {
                    lemma_reach_after_mark(v0, before, id, f);
                }
                self.popups.dismiss_walk(id, fuel, &mut unmap, &mut done);
                proof {
                    let rc = dismiss_reach(v0, id, f);
                    lemma_mark_twice(v0, before, rc);
                    lemma_reach_dismissable(v0, id, f);
                    assert(listed_reach(v0, ids@.take(i as int + 1), parent_surface_id, f) == before.union(rc));
                    assert forall|x: u32| #[trigger]
                        done@.contains(x) <==> owes_popup_done(p0, before.union(rc), x) by {
                        if rc.contains(x) {
                            assert(v0.contains_key(x));
                            assert(vi[x] == (if before.contains(x) {
                                dismissed_view(v0[x])
                            } else {
                                v0[x]
                            }));
                        }
                    }
                }
            } else {
                proof {
                    assert(listed_reach(v0, ids@.take(i as int + 1), parent_surface_id, f) =~= before);
                }
            }
            i = i + 1;
        }
        proof {
            assert(ids@.take(ids@.len() as int) =~= ids@);
            assert(v0.dom() =~= p0.nodes@.dom());
            lemma_listed_reach_is_parent_reach(v0, ids@, parent_surface_id, f);
        }
        let dismissed = unmap.len() > 0;
        proof {
            let reach = parent_dismiss_reach(v0, parent_surface_id, f);
            if unmap@.len() > 0 {
                assert(unmap@.contains(unmap@[0]));
                assert(reach.contains(unmap@[0]));
            }
            if exists|x: u32| #[trigger] reach.contains(x) {
                let x = choose|x: u32| #[trigger] reach.contains(x);
                assert(unmap@.contains(x));
            }
        }
        proof {
            assert(dismissed == (exists|x: u32| #[trigger] parent_dismiss_reach(v0, parent_surface_id, f).contains(x)));
        }
        self.clear_popup_grab_for_surface_ids(unmap.as_slice());
        proof {
            assert(f == walk_bound(old(self).popups.nodes.len()));
            assert(v0 == nodes_view(old(self).popups.nodes@));
        }
        PopupDismissal { dismissed, unmap, popup_done: done }
    }
}

/// Dismissing the same popup a second time reaches the same popups, changes
/// none of them, and owes no client another `popup_done`.
pub proof fn lemma_second_dismissal_is_quiet(v: Map<u32, PopupNodeView>, id: u32, fuel: nat)
    ensures
        ({
            let reach = dismiss_reach(v, id, fuel);
            let after = mark_dismissed(v, reach);
            &&& dismiss_reach(after, id, fuel) == reach
            &&& mark_dismissed(after, reach) == after
            &&& forall|x: u32| reach.contains(x) ==> after[x].popup_done_sent
        }),
{
    let reach = dismiss_reach(v, id, fuel);
    let after = mark_dismissed(v, reach);
    lemma_reach_dismissable(v, id, fuel);
    lemma_reach_after_mark(v, reach, id, fuel);
    lemma_mark_twice(v, reach, reach);
    assert(reach.union(reach) =~= reach);
    assert forall|x: u32| reach.contains(x) implies after[x].popup_done_sent by {
        assert(dismissable(v, x));
    }
}

} // verus!
