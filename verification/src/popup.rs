//! The xdg_popup tree: which surface each popup hangs from, the children of
//! each popup, the popup grab, and the walks that find a popup's tree root,
//! refuse parent links that would close a cycle, and decide whether a pointer
//! target lies inside the grabbing popup.
use std::collections::{HashMap, HashSet};
use vstd::prelude::*;
use crate::compositor::CompositorState;
use crate::surface::SurfacePlacement;

verus! {

/// What a popup hangs from.
#[derive(Debug, Clone, Copy, PartialEq, Eq, Structural)]
pub enum PopupOwner {
    Toplevel(u32),
    LayerSurface(u32),
    Popup(u32),
}

impl PopupOwner {
    pub open spec fn spec_surface_id(self) -> u32 {
        match self {
            PopupOwner::Toplevel(id) => id,
            PopupOwner::LayerSurface(id) => id,
            PopupOwner::Popup(id) => id,
        }
    }

    pub fn surface_id(self) -> (r: u32)
        ensures
            r == self.spec_surface_id(),
    {
        match self {
            PopupOwner::Toplevel(id) => id,
            PopupOwner::LayerSurface(id) => id,
            PopupOwner::Popup(id) => id,
        }
    }
}

#[derive(Debug, Clone, Copy, PartialEq, Eq, Structural)]
pub enum PopupLifecycle {
    Alive,
    Inert,
    Destroyed,
}

/// A popup in the tree.
#[derive(Debug, Clone, PartialEq, Eq)]
pub struct PopupNode {
    pub owner_root_id: u32,
    pub parent: PopupOwner,
    pub children: Vec<u32>,
    pub lifecycle: PopupLifecycle,
    pub mapped: bool,
    pub configured: bool,
    pub popup_done_sent: bool,
    pub grab_generation: Option<u64>,
}

/// A popup node with its children as a sequence.
pub struct PopupNodeView {
    pub owner_root_id: u32,
    pub parent: PopupOwner,
    pub children: Seq<u32>,
    pub lifecycle: PopupLifecycle,
    pub mapped: bool,
    pub configured: bool,
    pub popup_done_sent: bool,
    pub grab_generation: Option<u64>,
}

impl View for PopupNode {
    type V = PopupNodeView;

    open spec fn view(&self) -> PopupNodeView {
        PopupNodeView {
            owner_root_id: self.owner_root_id,
            parent: self.parent,
            children: self.children@,
            lifecycle: self.lifecycle,
            mapped: self.mapped,
            configured: self.configured,
            popup_done_sent: self.popup_done_sent,
            grab_generation: self.grab_generation,
        }
    }
}

/// The live xdg_popup role of a surface, by the parent it was created for.
#[derive(Debug, Clone, Copy, PartialEq, Eq, Structural)]
pub struct PopupSurface {
    pub parent_surface_id: Option<u32>,
}

/// An explicit popup grab.
#[derive(Debug, Clone, Copy, PartialEq, Eq, Structural)]
pub struct PopupGrab {
    pub owner_client: u64,
    pub owner_root_id: u32,
    pub tree_root_popup_id: u32,
    pub focused_popup_id: u32,
    pub serial: u32,
    pub generation: u64,
}

/// The popup tree and grab state.
#[derive(Debug)]
pub struct PopupState {
    pub nodes: HashMap<u32, PopupNode>,
    pub surfaces: HashMap<u32, PopupSurface>,
    pub layer_surfaces: HashSet<u32>,
    pub grab: Option<PopupGrab>,
    pub grab_stack: Vec<u32>,
    pub next_grab_generation: u64,
}

impl Default for PopupState {
    fn default() -> (r: Self)
        ensures
            r.nodes@ == Map::<u32, PopupNode>::empty(),
            r.surfaces@ == Map::<u32, PopupSurface>::empty(),
            r.layer_surfaces@ == Set::<u32>::empty(),
            r.grab is None,
            r.grab_stack@.len() == 0,
            r.next_grab_generation == 0,
    {
        PopupState {
            nodes: HashMap::new(),
            surfaces: HashMap::new(),
            layer_surfaces: HashSet::new(),
            grab: None,
            grab_stack: Vec::new(),
            next_grab_generation: 0,
        }
    }
}

/// The nodes with their children as sequences.
pub open spec fn nodes_view(nodes: Map<u32, PopupNode>) -> Map<u32, PopupNodeView> {
    Map::new(|id: u32| nodes.contains_key(id), |id: u32| nodes[id]@)
}

/// Walks are bounded by one step more than there are nodes (saturating).
pub open spec fn walk_bound(len: usize) -> nat {
    if len == usize::MAX {
        len as nat
    } else {
        (len + 1) as nat
    }
}

/// The popup `id` hangs from, when that is another popup.
pub open spec fn popup_parent_step(nodes: Map<u32, PopupNode>, id: u32) -> Option<u32> {
    if nodes.contains_key(id) {
        match nodes[id].parent {
            PopupOwner::Popup(p) => if p != id {
                Some(p)
            } else {
                None
            },
            _ => None,
        }
    } else {
        None
    }
}

/// Following popup parents from `current` for at most `fuel` steps: the first
/// surface that is not a known popup, or whose owner is not another popup;
/// `start` if the steps run out.
pub open spec fn spec_tree_root_walk(nodes: Map<u32, PopupNode>, current: u32, fuel: nat, start: u32) -> u32
    decreases fuel,
{
    if fuel == 0 {
        start
    } else {
        match popup_parent_step(nodes, current) {
            Some(p) => spec_tree_root_walk(nodes, p, (fuel - 1) as nat, start),
            None => current,
        }
    }
}

/// Whether following popup parents from `current` meets `surface` within
/// `fuel` steps; running out of steps counts as meeting it.
pub open spec fn spec_cycle_walk(nodes: Map<u32, PopupNode>, surface: u32, current: u32, fuel: nat) -> bool
    decreases fuel,
{
    if fuel == 0 {
        true
    } else if current == surface {
        true
    } else {
        match popup_parent_step(nodes, current) {
            Some(p) => spec_cycle_walk(nodes, surface, p, (fuel - 1) as nat),
            None => false,
        }
    }
}

/// The surface `id` is placed relative to, when that is another surface.
pub open spec fn placement_parent_step(placements: Map<u32, SurfacePlacement>, id: u32) -> Option<u32> {
    if placements.contains_key(id) {
        match placements[id].parent_surface_id {
            Some(p) => if p != id {
                Some(p)
            } else {
                None
            },
            None => None,
        }
    } else {
        None
    }
}

/// Whether following placement parents from `current` reaches `ancestor` within `fuel` steps.
pub open spec fn spec_descendant_walk(
    placements: Map<u32, SurfacePlacement>,
    ancestor: u32,
    current: u32,
    fuel: nat,
) -> bool
    decreases fuel,
{
    if fuel == 0 {
        false
    } else if current == ancestor {
        true
    } else {
        match placement_parent_step(placements, current) {
            Some(p) => spec_descendant_walk(placements, ancestor, p, (fuel - 1) as nat),
            None => false,
        }
    }
}

/// `s` without any occurrence of `x`, order kept.
pub open spec fn spec_remove_all(s: Seq<u32>, x: u32) -> Seq<u32>
    decreases s.len(),
{
    if s.len() == 0 {
        s
    } else if s.last() == x {
        spec_remove_all(s.drop_last(), x)
    } else {
        spec_remove_all(s.drop_last(), x).push(s.last())
    }
}

/// Linking `surface` under a popup parent appends it to the parent's children once.
pub open spec fn spec_link(v: Map<u32, PopupNodeView>, surface: u32, parent: PopupOwner) -> Map<u32, PopupNodeView> {
    match parent {
        PopupOwner::Popup(pid) => if v.contains_key(pid) && !v[pid].children.contains(surface) {
            v.insert(pid, PopupNodeView { children: v[pid].children.push(surface), ..v[pid] })
        } else {
            v
        },
        _ => v,
    }
}

/// Unlinking `surface` from a popup parent removes it from the parent's children.
pub open spec fn spec_unlink(v: Map<u32, PopupNodeView>, surface: u32, parent: PopupOwner) -> Map<u32, PopupNodeView> {
    match parent {
        PopupOwner::Popup(pid) => if v.contains_key(pid) {
            v.insert(pid, PopupNodeView { children: spec_remove_all(v[pid].children, surface), ..v[pid] })
        } else {
            v
        },
        _ => v,
    }
}

pub open spec fn grab_touches(grab: PopupGrab, ids: Seq<u32>) -> bool {
    ids.contains(grab.focused_popup_id) || ids.contains(grab.tree_root_popup_id) || ids.contains(
        grab.owner_root_id,
    )
}

pub open spec fn spec_node_alive(p: PopupState, id: u32) -> bool {
    p.nodes@.contains_key(id) && p.nodes@[id].lifecycle == PopupLifecycle::Alive && p.surfaces@.contains_key(id)
}

/// The last alive popup of `stack[..n]`.
pub open spec fn spec_last_alive(p: PopupState, stack: Seq<u32>, n: int) -> Option<u32>
    decreases n,
{
    if n <= 0 {
        None
    } else if spec_node_alive(p, stack[n - 1]) {
        Some(stack[n - 1])
    } else {
        spec_last_alive(p, stack, n - 1)
    }
}

/// The popup a grab currently routes to: the focused popup while it lives,
/// otherwise the most recent live popup on the grab stack.
pub open spec fn spec_topmost_grab(p: PopupState) -> Option<u32> {
    match p.grab {
        Some(g) if spec_node_alive(p, g.focused_popup_id) => Some(g.focused_popup_id),
        _ => spec_last_alive(p, p.grab_stack@, p.grab_stack@.len() as int),
    }
}

fn vec_contains(v: &Vec<u32>, x: u32) -> (r: bool)
    ensures
        r == v@.contains(x),
{
    let mut i: usize = 0;
    while i < v.len()
        invariant
            i <= v.len(),
            forall|j: int| 0 <= j < i ==> v@[j] != x,
        decreases v.len() - i,
    {
        if v[i] == x {
            assert(v@[i as int] == x);
            return true;
        }
        i = i + 1;
    }
    false
}

fn slice_contains(v: &[u32], x: u32) -> (r: bool)
    ensures
        r == v@.contains(x),
{
    let mut i: usize = 0;
    while i < v.len()
        invariant
            i <= v.len(),
            forall|j: int| 0 <= j < i ==> v@[j] != x,
        decreases v.len() - i,
    {
        if v[i] == x {
            assert(v@[i as int] == x);
            return true;
        }
        i = i + 1;
    }
    false
}

pub(crate) fn remove_all(v: &Vec<u32>, x: u32) -> (r: Vec<u32>)
    ensures
        r@ == spec_remove_all(v@, x),
{
    let mut out: Vec<u32> = Vec::new();
    let mut i: usize = 0;
    while i < v.len()
        invariant
            i <= v.len(),
            out@ == spec_remove_all(v@.take(i as int), x),
        decreases v.len() - i,
    {
        proof {
            assert(v@.take(i as int + 1).drop_last() =~= v@.take(i as int));
        }
        if v[i] != x {
            out.push(v[i]);
        }
        i = i + 1;
    }
    assert(v@.take(v.len() as int) =~= v@);
    out
}

/// Keeps the entries of `stack` that `ids` does not hold.
pub open spec fn spec_retain_not_in(stack: Seq<u32>, ids: Seq<u32>) -> Seq<u32>
    decreases stack.len(),
{
    if stack.len() == 0 {
        stack
    } else if ids.contains(stack.last()) {
        spec_retain_not_in(stack.drop_last(), ids)
    } else {
        spec_retain_not_in(stack.drop_last(), ids).push(stack.last())
    }
}

pub open spec fn with_popups(s: CompositorState, p: PopupState) -> CompositorState {
    CompositorState { popups: p, ..s }
}

/// Re-parenting `surface`, when it is a node: its owner popup and root change.
pub open spec fn spec_set_parent(v: Map<u32, PopupNodeView>, surface: u32, parent: PopupOwner, owner_root_id: u32) -> Map<
    u32,
    PopupNodeView,
> {
    if v.contains_key(surface) {
        v.insert(surface, PopupNodeView { parent, owner_root_id, ..v[surface] })
    } else {
        v
    }
}

/// Whether linking `surface` under `parent` is refused because it would close a popup cycle.
pub open spec fn link_closes_cycle(nodes: Map<u32, PopupNode>, len: usize, surface: u32, parent: PopupOwner) -> bool {
    match parent {
        PopupOwner::Popup(pid) => spec_cycle_walk(nodes, surface, pid, walk_bound(len)),
        _ => false,
    }
}

impl CompositorState {
    /// The owner a popup created for `parent_id` hangs from.
    pub fn popup_owner_for_parent(&self, parent_id: u32) -> (r: PopupOwner)
        ensures
            r == (if self.popups.nodes@.contains_key(parent_id) {
                PopupOwner::Popup(parent_id)
            } else if self.popups.layer_surfaces@.contains(parent_id) {
                PopupOwner::LayerSurface(parent_id)
            } else {
                PopupOwner::Toplevel(parent_id)
            }),
    {
        if self.popups.nodes.contains_key(&parent_id) {
            PopupOwner::Popup(parent_id)
        } else if self.popups.layer_surfaces.contains(&parent_id) {
            PopupOwner::LayerSurface(parent_id)
        } else {
            PopupOwner::Toplevel(parent_id)
        }
    }

    /// Whether `surface_id` is a popup that is still alive and has its role object.
    pub fn popup_node_is_alive(&self, surface_id: u32) -> (r: bool)
        ensures
            r == spec_node_alive(self.popups, surface_id),
    {
        match self.popups.nodes.get(&surface_id) {
            Some(node) => node.lifecycle == PopupLifecycle::Alive && self.popups.surfaces.contains_key(
                &surface_id,
            ),
            None => false,
        }
    }

    /// The outermost popup of the popup chain `surface_id` belongs to.
    pub fn popup_tree_root(&self, surface_id: u32) -> (r: u32)
        ensures
            r == spec_tree_root_walk(
                self.popups.nodes@,
                surface_id,
                walk_bound(self.popups.nodes.len()),
                surface_id,
            ),
    {
        let bound = self.popups.nodes.len().saturating_add(1);
        let mut current = surface_id;
        let mut i: usize = 0;
        while i < bound
            invariant
                i <= bound,
                bound == walk_bound(self.popups.nodes.len()),
                spec_tree_root_walk(self.popups.nodes@, surface_id, bound as nat, surface_id)
                    == spec_tree_root_walk(self.popups.nodes@, current, (bound - i) as nat, surface_id),
            decreases bound - i,
        {
            let node = match self.popups.nodes.get(&current) {
                Some(node) => node,
                None => {
                    return current;
                },
            };
            match node.parent {
                PopupOwner::Popup(parent_id) => {
                    if parent_id != current {
                        current = parent_id;
                    } else {
                        return current;
                    }
                },
                _ => {
                    return current;
                },
            }
            i = i + 1;
        }
        surface_id
    }

    /// Whether hanging `surface_id` under the popup `parent_id` would close a
    /// cycle: following popup parents from `parent_id` meets `surface_id` (or
    /// does not end within the walk bound).
    pub fn popup_would_create_cycle(&self, surface_id: u32, parent_id: u32) -> (r: bool)
        ensures
            r == spec_cycle_walk(self.popups.nodes@, surface_id, parent_id, walk_bound(self.popups.nodes.len())),
    {
        let bound = self.popups.nodes.len().saturating_add(1);
        let mut current = parent_id;
        let mut i: usize = 0;
        while i < bound
            invariant
                i <= bound,
                bound == walk_bound(self.popups.nodes.len()),
                spec_cycle_walk(self.popups.nodes@, surface_id, parent_id, bound as nat) == spec_cycle_walk(
                    self.popups.nodes@,
                    surface_id,
                    current,
                    (bound - i) as nat,
                ),
            decreases bound - i,
        {
            if current == surface_id {
                return true;
            }
            let node = match self.popups.nodes.get(&current) {
                Some(node) => node,
                None => {
                    return false;
                },
            };
            match node.parent {
                PopupOwner::Popup(next_id) => {
                    if next_id != current {
                        current = next_id;
                    } else {
                        return false;
                    }
                },
                _ => {
                    return false;
                },
            }
            i = i + 1;
        }
        true
    }

    /// Whether `surface_id` is `ancestor_surface_id` or placed, through a chain
    /// of parents no longer than the number of placements, under it.
    pub fn surface_is_descendant_of(&self, surface_id: u32, ancestor_surface_id: u32) -> (r: bool)
        ensures
            r == spec_descendant_walk(
                self.surface_placements@,
                ancestor_surface_id,
                surface_id,
                walk_bound(self.surface_placements.len()),
            ),
    {
        let bound = self.surface_placements.len().saturating_add(1);
        let mut current = surface_id;
        let mut i: usize = 0;
        while i < bound
            invariant
                i <= bound,
                bound == walk_bound(self.surface_placements.len()),
                spec_descendant_walk(self.surface_placements@, ancestor_surface_id, surface_id, bound as nat)
                    == spec_descendant_walk(
                    self.surface_placements@,
                    ancestor_surface_id,
                    current,
                    (bound - i) as nat,
                ),
            decreases bound - i,
        {
            if current == ancestor_surface_id {
                return true;
            }
            let parent = match self.surface_placements.get(&current) {
                Some(placement) => match placement.parent_surface_id {
                    Some(parent) => parent,
                    None => {
                        return false;
                    },
                },
                None => {
                    return false;
                },
            };
            if parent == current {
                return false;
            }
            current = parent;
            i = i + 1;
        }
        false
    }

    /// Records `surface_id` as a child of its popup parent, once.
    pub fn link_popup_to_parent(&mut self, surface_id: u32, parent: PopupOwner)
        ensures
            nodes_view(final(self).popups.nodes@) == spec_link(nodes_view(old(self).popups.nodes@), surface_id, parent),
            forall|id: u32| #[trigger]
                final(self).popups.nodes@.contains_key(id) ==> old(self).popups.nodes@.contains_key(id)
                    && final(self).popups.nodes@[id].parent == old(self).popups.nodes@[id].parent,
            final(self).popups.nodes@.dom() == old(self).popups.nodes@.dom(),
            *final(self) == with_popups(*old(self), PopupState { nodes: final(self).popups.nodes, ..old(self).popups }),
    {
        match parent {
            PopupOwner::Popup(parent_id) => {
                match self.popups.nodes.remove(&parent_id) {
                    Some(mut node) => {
                        if !vec_contains(&node.children, surface_id) {
                            node.children.push(surface_id);
                        }
                        self.popups.nodes.insert(parent_id, node);
                        proof {
                            assert(nodes_view(self.popups.nodes@) =~= spec_link(
                                nodes_view(old(self).popups.nodes@),
                                surface_id,
                                parent,
                            ));
                        }
                    },
                    None => {
                        assert(nodes_view(self.popups.nodes@) =~= nodes_view(old(self).popups.nodes@));
                    },
                }
            },
            _ => {},
        }
    }

    /// Removes `surface_id` from its popup parent's children.
    pub fn unlink_popup_from_parent(&mut self, surface_id: u32, parent: PopupOwner)
        ensures
            nodes_view(final(self).popups.nodes@) == spec_unlink(nodes_view(old(self).popups.nodes@), surface_id, parent),
            forall|id: u32| #[trigger]
                final(self).popups.nodes@.contains_key(id) ==> old(self).popups.nodes@.contains_key(id)
                    && final(self).popups.nodes@[id].parent == old(self).popups.nodes@[id].parent,
            final(self).popups.nodes@.dom() == old(self).popups.nodes@.dom(),
            *final(self) == with_popups(*old(self), PopupState { nodes: final(self).popups.nodes, ..old(self).popups }),
    {
        match parent {
            PopupOwner::Popup(parent_id) => {
                match self.popups.nodes.remove(&parent_id) {
                    Some(mut node) => {
                        node.children = remove_all(&node.children, surface_id);
                        self.popups.nodes.insert(parent_id, node);
                        proof {
                            assert(nodes_view(self.popups.nodes@) =~= spec_unlink(
                                nodes_view(old(self).popups.nodes@),
                                surface_id,
                                parent,
                            ));
                        }
                    },
                    None => {
                        assert(nodes_view(self.popups.nodes@) =~= nodes_view(old(self).popups.nodes@));
                    },
                }
            },
            _ => {},
        }
    }

    /// Ends the popup grab if it involves one of `surface_ids` and drops them from the grab stack.
    pub fn clear_popup_grab_for_surface_ids(&mut self, surface_ids: &[u32])
        ensures
            *final(self) == with_popups(
                *old(self),
                PopupState {
                    grab: match old(self).popups.grab {
                        Some(g) if grab_touches(g, surface_ids@) => None,
                        other => other,
                    },
                    grab_stack: final(self).popups.grab_stack,
                    ..old(self).popups
                },
            ),
            final(self).popups.grab_stack@ == spec_retain_not_in(old(self).popups.grab_stack@, surface_ids@),
    {
        let active = match self.popups.grab {
            Some(g) => slice_contains(surface_ids, g.focused_popup_id) || slice_contains(
                surface_ids,
                g.tree_root_popup_id,
            ) || slice_contains(surface_ids, g.owner_root_id),
            None => false,
        };
        if active {
            self.popups.grab = None;
        }
        let mut kept: Vec<u32> = Vec::new();
        let mut i: usize = 0;
        while i < self.popups.grab_stack.len()
            invariant
                i <= self.popups.grab_stack.len(),
                kept@ == spec_retain_not_in(self.popups.grab_stack@.take(i as int), surface_ids@),
            decreases self.popups.grab_stack.len() - i,
        {
            proof {
                assert(self.popups.grab_stack@.take(i as int + 1).drop_last() =~= self.popups.grab_stack@.take(
                    i as int,
                ));
            }
            let id = self.popups.grab_stack[i];
            if !slice_contains(surface_ids, id) {
                kept.push(id);
            }
            i = i + 1;
        }
        assert(self.popups.grab_stack@.take(self.popups.grab_stack.len() as int) =~= self.popups.grab_stack@);
        self.popups.grab_stack = kept;
    }

    /// Whether destroying `surface_id` respects the grab order: no grab stack,
    /// `surface_id` on top of it, or not on it at all.
    pub fn popup_destroy_is_topmost(&self, surface_id: u32) -> (r: bool)
        ensures
            r == (self.popups.grab_stack@.len() == 0 || self.popups.grab_stack@.last() == surface_id
                || !self.popups.grab_stack@.contains(surface_id)),
    {
        let n = self.popups.grab_stack.len();
        if n == 0 {
            return true;
        }
        self.popups.grab_stack[n - 1] == surface_id || !vec_contains(&self.popups.grab_stack, surface_id)
    }

    /// The popup the grab currently routes input to.
    pub fn topmost_popup_grab_surface_id(&self) -> (r: Option<u32>)
        ensures
            r == spec_topmost_grab(self.popups),
    {
        match self.popups.grab {
            Some(g) => {
                if self.popup_node_is_alive(g.focused_popup_id) {
                    return Some(g.focused_popup_id);
                }
            },
            None => {},
        }
        let mut n: usize = self.popups.grab_stack.len();
        while n > 0
            invariant
                n <= self.popups.grab_stack.len(),
                spec_topmost_grab(self.popups) == spec_last_alive(self.popups, self.popups.grab_stack@, n as int),
            decreases n,
        {
            let id = self.popups.grab_stack[n - 1];
            if self.popup_node_is_alive(id) {
                return Some(id);
            }
            n = n - 1;
        }
        None
    }

    /// With a popup grab active, the grabbing popup to dismiss for a pointer
    /// press on `target_surface_id`, unless the target lies within that popup.
    pub fn popup_grab_to_dismiss_for_pointer_target(&self, target_surface_id: Option<u32>) -> (r: Option<u32>)
        ensures
            r == match spec_topmost_grab(self.popups) {
                None => None,
                Some(popup) => match target_surface_id {
                    Some(t) if spec_descendant_walk(
                        self.surface_placements@,
                        popup,
                        t,
                        walk_bound(self.surface_placements.len()),
                    ) => None,
                    _ => Some(popup),
                },
            },
    {
        let popup_surface_id = match self.topmost_popup_grab_surface_id() {
            Some(id) => id,
            None => {
                return None;
            },
        };
        match target_surface_id {
            Some(target) => {
                if self.surface_is_descendant_of(target, popup_surface_id) {
                    return None;
                }
            },
            None => {},
        }
        Some(popup_surface_id)
    }

    /// Without a grab every target receives the pointer; with one, only
    /// surfaces within the grabbing popup do.
    pub fn pointer_target_allowed_by_popup_grab(&self, target_surface_id: u32) -> (r: bool)
        ensures
            r == match spec_topmost_grab(self.popups) {
                None => true,
                Some(popup) => spec_descendant_walk(
                    self.surface_placements@,
                    popup,
                    target_surface_id,
                    walk_bound(self.surface_placements.len()),
                ),
            },
    {
        match self.topmost_popup_grab_surface_id() {
            None => true,
            Some(popup) => self.surface_is_descendant_of(target_surface_id, popup),
        }
    }

    /// Moves an existing popup under `parent`, unless that would close a cycle.
    /// Returns whether it moved.
    pub fn relink_popup_node(&mut self, surface_id: u32, parent: PopupOwner, owner_root_id: u32) -> (moved: bool)
        ensures
            moved == (old(self).popups.nodes@.contains_key(surface_id) && !link_closes_cycle(
                old(self).popups.nodes@,
                old(self).popups.nodes.len(),
                surface_id,
                parent,
            )),
            !moved ==> *final(self) == *old(self),
            moved ==> nodes_view(final(self).popups.nodes@) == spec_link(
                spec_set_parent(
                    spec_unlink(
                        nodes_view(old(self).popups.nodes@),
                        surface_id,
                        old(self).popups.nodes@[surface_id].parent,
                    ),
                    surface_id,
                    parent,
                    owner_root_id,
                ),
                surface_id,
                parent,
            ),
            moved ==> final(self).popups.nodes@.dom() == old(self).popups.nodes@.dom(),
            moved ==> *final(self) == with_popups(
                *old(self),
                PopupState { nodes: final(self).popups.nodes, ..old(self).popups },
            ),
    {
        let old_parent = match self.popups.nodes.get(&surface_id) {
            Some(node) => node.parent,
            None => {
                return false;
            },
        };
        match parent {
            PopupOwner::Popup(parent_id) => {
                if self.popup_would_create_cycle(surface_id, parent_id) {
                    return false;
                }
            },
            _ => {},
        }
        self.unlink_popup_from_parent(surface_id, old_parent);
        let ghost unlinked = self.popups.nodes@;
        match self.popups.nodes.remove(&surface_id) {
            Some(mut node) => {
                node.parent = parent;
                node.owner_root_id = owner_root_id;
                self.popups.nodes.insert(surface_id, node);
            },
            None => {},
        }
        proof {
            assert(nodes_view(self.popups.nodes@) =~= spec_set_parent(
                nodes_view(unlinked),
                surface_id,
                parent,
                owner_root_id,
            ));
            assert(self.popups.nodes@.dom() =~= old(self).popups.nodes@.dom());
        }
        self.link_popup_to_parent(surface_id, parent);
        true
    }

    /// Installs `node` for `surface_id`, first unlinking a node it replaces,
    /// unless hanging it under its popup parent would close a cycle (the old
    /// node then stays, unlinked). Returns whether it was installed.
    pub fn attach_popup_node(&mut self, surface_id: u32, node: PopupNode) -> (installed: bool)
        ensures
            installed == !link_closes_cycle(old(self).popups.nodes@, old(self).popups.nodes.len(), surface_id, node.parent),
            ({
                let unlinked = if old(self).popups.nodes@.contains_key(surface_id) {
                    spec_unlink(
                        nodes_view(old(self).popups.nodes@),
                        surface_id,
                        old(self).popups.nodes@[surface_id].parent,
                    )
                } else {
                    nodes_view(old(self).popups.nodes@)
                };
                nodes_view(final(self).popups.nodes@) == if installed {
                    spec_link(unlinked.insert(surface_id, node@), surface_id, node.parent)
                } else {
                    unlinked
                }
            }),
            *final(self) == with_popups(*old(self), PopupState { nodes: final(self).popups.nodes, ..old(self).popups }),
    {
        let closes_cycle = match node.parent {
            PopupOwner::Popup(parent_id) => self.popup_would_create_cycle(surface_id, parent_id),
            _ => false,
        };
        let old_parent = match self.popups.nodes.get(&surface_id) {
            Some(old_node) => Some(old_node.parent),
            None => None,
        };
        match old_parent {
            Some(old_parent) => self.unlink_popup_from_parent(surface_id, old_parent),
            None => {},
        }
        if closes_cycle {
            return false;
        }
        let parent = node.parent;
        let ghost unlinked = self.popups.nodes@;
        let ghost view_node = node@;
        self.popups.nodes.insert(surface_id, node);
        proof {
            assert(nodes_view(self.popups.nodes@) =~= nodes_view(unlinked).insert(surface_id, view_node));
        }
        self.link_popup_to_parent(surface_id, parent);
        true
    }

    /// Removes a popup from the tree: it leaves its parent's children and any
    /// grab it takes part in. (The removed node is discarded whatever
    /// `lifecycle` says.)
    pub fn detach_popup_node(&mut self, surface_id: u32, lifecycle: PopupLifecycle)
        ensures
            !old(self).popups.nodes@.contains_key(surface_id) ==> *final(self) == *old(self),
            old(self).popups.nodes@.contains_key(surface_id) ==> {
                &&& nodes_view(final(self).popups.nodes@) == spec_unlink(
                    nodes_view(old(self).popups.nodes@.remove(surface_id)),
                    surface_id,
                    old(self).popups.nodes@[surface_id].parent,
                )
                &&& final(self).popups.grab == match old(self).popups.grab {
                    Some(g) if grab_touches(g, seq![surface_id]) => None,
                    other => other,
                }
                &&& final(self).popups.grab_stack@ == spec_retain_not_in(
                    old(self).popups.grab_stack@,
                    seq![surface_id],
                )
                &&& *final(self) == with_popups(
                    *old(self),
                    PopupState {
                        nodes: final(self).popups.nodes,
                        grab: final(self).popups.grab,
                        grab_stack: final(self).popups.grab_stack,
                        ..old(self).popups
                    },
                )
            },
    {
        if !self.popups.nodes.contains_key(&surface_id) {
            return;
        }
        let node = match self.popups.nodes.remove(&surface_id) {
            Some(node) => node,
            None => {
                return;
            },
        };
        let mut node = node;
        node.lifecycle = lifecycle;
        let ghost removed = self.popups.nodes@;
        proof {
            assert(nodes_view(removed) =~= nodes_view(old(self).popups.nodes@.remove(surface_id)));
        }
        self.unlink_popup_from_parent(surface_id, node.parent);
        let ids = [surface_id];
        assert(ids@ =~= seq![surface_id]);
        self.clear_popup_grab_for_surface_ids(&ids);
    }
}

/// Following popup parents from `id` ends within `fuel` steps at a surface
/// that is not a popup or whose owner is no other popup.
pub open spec fn chain_ends(nodes: Map<u32, PopupNode>, id: u32, fuel: nat) -> bool
    decreases fuel,
{
    fuel > 0 && match popup_parent_step(nodes, id) {
        None => true,
        Some(p) => chain_ends(nodes, p, (fuel - 1) as nat),
    }
}

pub open spec fn chain_ends_somehow(nodes: Map<u32, PopupNode>, id: u32) -> bool {
    exists|f: nat| chain_ends(nodes, id, f)
}

/// Every chain of popup parents ends: the popup tree has no cycle.
pub open spec fn popup_chains_end(nodes: Map<u32, PopupNode>) -> bool {
    forall|id: u32| #[trigger] chain_ends_somehow(nodes, id)
}

proof fn lemma_chain_ends_monotone(nodes: Map<u32, PopupNode>, id: u32, f: nat, g: nat)
    requires
        chain_ends(nodes, id, f),
        f <= g,
    ensures
        chain_ends(nodes, id, g),
    decreases f,
{
    match popup_parent_step(nodes, id) {
        None => {},
        Some(p) => {
            lemma_chain_ends_monotone(nodes, p, (f - 1) as nat, (g - 1) as nat);
        },
    }
}

/// `after` differs from `before` at most in `surface`, which (if present) hangs from `parent`.
pub open spec fn reparented_at(
    before: Map<u32, PopupNode>,
    after: Map<u32, PopupNode>,
    surface: u32,
    parent: PopupOwner,
) -> bool {
    &&& forall|id: u32|
        id != surface ==> (#[trigger] after.contains_key(id) == before.contains_key(id) && (after.contains_key(id)
            ==> after[id].parent == before[id].parent))
    &&& after.contains_key(surface) ==> after[surface].parent == parent
}

proof fn lemma_walk_avoiding_surface_ends(
    before: Map<u32, PopupNode>,
    after: Map<u32, PopupNode>,
    surface: u32,
    parent: PopupOwner,
    x: u32,
    f: nat,
)
    requires
        reparented_at(before, after, surface, parent),
        !spec_cycle_walk(before, surface, x, f),
    ensures
        chain_ends(after, x, f),
    decreases f,
{
    assert(after.contains_key(x) == before.contains_key(x));
    match popup_parent_step(before, x) {
        None => {},
        Some(q) => {
            lemma_walk_avoiding_surface_ends(before, after, surface, parent, q, (f - 1) as nat);
        },
    }
}

proof fn lemma_reparented_chain_ends(
    before: Map<u32, PopupNode>,
    after: Map<u32, PopupNode>,
    surface: u32,
    parent: PopupOwner,
    bound: nat,
    id: u32,
    f: nat,
)
    requires
        reparented_at(before, after, surface, parent),
        match parent {
            PopupOwner::Popup(p) => !spec_cycle_walk(before, surface, p, bound),
            _ => true,
        },
        chain_ends(before, id, f),
    ensures
        chain_ends(after, id, f + bound + 1),
    decreases f,
{
    if id == surface {
        match parent {
            PopupOwner::Popup(p) => {
                if after.contains_key(surface) && p != surface {
                    lemma_walk_avoiding_surface_ends(before, after, surface, parent, p, bound);
                    lemma_chain_ends_monotone(after, p, bound, (f + bound) as nat);
                }
            },
            _ => {},
        }
    } else {
        assert(after.contains_key(id) == before.contains_key(id));
        match popup_parent_step(before, id) {
            None => {},
            Some(q) => {
                lemma_reparented_chain_ends(before, after, surface, parent, bound, q, (f - 1) as nat);
            },
        }
    }
}

/// Hanging one popup from a new owner, when no cycle closes, keeps every chain of popup parents finite.
pub proof fn lemma_reparent_keeps_popup_chains_finite(
    before: Map<u32, PopupNode>,
    after: Map<u32, PopupNode>,
    len: usize,
    surface: u32,
    parent: PopupOwner,
)
    requires
        popup_chains_end(before),
        reparented_at(before, after, surface, parent),
        !link_closes_cycle(before, len, surface, parent),
    ensures
        popup_chains_end(after),
{
    let bound = walk_bound(len);
    assert forall|id: u32| #[trigger] chain_ends_somehow(after, id) by {
        assert(chain_ends_somehow(before, id));
        let f = choose|f: nat| chain_ends(before, id, f);
        lemma_reparented_chain_ends(before, after, surface, parent, bound, id, f);
    }
}

proof fn lemma_view_parents(m: Map<u32, PopupNode>, id: u32)
    ensures
        nodes_view(m).contains_key(id) == m.contains_key(id),
        m.contains_key(id) ==> nodes_view(m)[id].parent == m[id].parent,
{
}

/// A popup that is moved (its parent link checked against cycles) keeps the popup tree acyclic.
pub proof fn lemma_relink_keeps_popup_chains_finite(
    before: Map<u32, PopupNode>,
    after: Map<u32, PopupNode>,
    len: usize,
    surface_id: u32,
    parent: PopupOwner,
    owner_root_id: u32,
)
    requires
        popup_chains_end(before),
        before.contains_key(surface_id),
        !link_closes_cycle(before, len, surface_id, parent),
        nodes_view(after) == spec_link(
            spec_set_parent(
                spec_unlink(nodes_view(before), surface_id, before[surface_id].parent),
                surface_id,
                parent,
                owner_root_id,
            ),
            surface_id,
            parent,
        ),
    ensures
        popup_chains_end(after),
{
    assert forall|id: u32|
        id != surface_id implies (#[trigger] after.contains_key(id) == before.contains_key(id) && (after.contains_key(id)
            ==> after[id].parent == before[id].parent)) by {
        lemma_view_parents(after, id);
        lemma_view_parents(before, id);
    }
    lemma_view_parents(after, surface_id);
    lemma_view_parents(before, surface_id);
    lemma_reparent_keeps_popup_chains_finite(before, after, len, surface_id, parent);
}

/// Installing a popup node whose parent link closes no cycle keeps the popup tree acyclic.
pub proof fn lemma_attach_keeps_popup_chains_finite(
    before: Map<u32, PopupNode>,
    after: Map<u32, PopupNode>,
    len: usize,
    surface_id: u32,
    node: PopupNode,
)
    requires
        popup_chains_end(before),
        !link_closes_cycle(before, len, surface_id, node.parent),
        nodes_view(after) == spec_link(
            (if before.contains_key(surface_id) {
                spec_unlink(nodes_view(before), surface_id, before[surface_id].parent)
            } else {
                nodes_view(before)
            }).insert(surface_id, node@),
            surface_id,
            node.parent,
        ),
    ensures
        popup_chains_end(after),
{
    assert forall|id: u32|
        id != surface_id implies (#[trigger] after.contains_key(id) == before.contains_key(id) && (after.contains_key(id)
            ==> after[id].parent == before[id].parent)) by {
        lemma_view_parents(after, id);
        lemma_view_parents(before, id);
    }
    lemma_view_parents(after, surface_id);
    lemma_reparent_keeps_popup_chains_finite(before, after, len, surface_id, node.parent);
}

/// Removing a popup node keeps the popup tree acyclic.
pub proof fn lemma_detach_keeps_popup_chains_finite(
    before: Map<u32, PopupNode>,
    after: Map<u32, PopupNode>,
    surface_id: u32,
)
    requires
        popup_chains_end(before),
        before.contains_key(surface_id),
        nodes_view(after) == spec_unlink(
            nodes_view(before.remove(surface_id)),
            surface_id,
            before[surface_id].parent,
        ),
    ensures
        popup_chains_end(after),
{
    assert forall|id: u32|
        id != surface_id implies (#[trigger] after.contains_key(id) == before.contains_key(id) && (after.contains_key(id)
            ==> after[id].parent == before[id].parent)) by {
        lemma_view_parents(after, id);
        lemma_view_parents(before.remove(surface_id), id);
    }
    lemma_view_parents(after, surface_id);
    lemma_view_parents(before.remove(surface_id), surface_id);
    lemma_reparent_keeps_popup_chains_finite(before, after, 0, surface_id, PopupOwner::Toplevel(surface_id));
}

/// The empty popup tree is acyclic.
pub proof fn lemma_empty_popup_tree_chains_end()
    ensures
        popup_chains_end(Map::<u32, PopupNode>::empty()),
{
    assert forall|id: u32| #[trigger] chain_ends_somehow(Map::<u32, PopupNode>::empty(), id) by {
        assert(chain_ends(Map::<u32, PopupNode>::empty(), id, 1));
    }
}

/// A popup is never hung from itself.
pub proof fn lemma_self_link_closes_cycle(nodes: Map<u32, PopupNode>, len: usize, surface: u32)
    ensures
        link_closes_cycle(nodes, len, surface, PopupOwner::Popup(surface)),
{
}

} // verus!
