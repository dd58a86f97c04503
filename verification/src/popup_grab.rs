//! Creating popups and explicit popup grabs. A new popup hangs from its
//! parent and belongs to the window at the root of its chain. A popup asks
//! for the grab with the serial of an input event; a refused request
//! dismisses the popup, and a grant ends a grab held by another client or
//! another window's popups.
use vstd::prelude::*;
use crate::compositor::{bump, interaction_touches, spec_clear_interaction, CompositorState};
use crate::popup::{
    link_closes_cycle, nodes_view, remove_all, spec_link, spec_node_alive, spec_remove_all,
    spec_tree_root_walk, spec_unlink, walk_bound, PopupGrab, PopupLifecycle, PopupNode,
    PopupNodeView, PopupOwner, PopupState, PopupSurface,
};
use crate::popup_dismiss::{popup_dismissed, PopupDismissal};

verus! {

/// The answer to a grab request, with the dismissal it caused, if any: the
/// requesting popup's when refused, the previous grab's tree when replaced.
#[derive(Debug, Clone, PartialEq, Eq)]
pub struct PopupGrabOutcome {
    pub granted: bool,
    pub dismissal: Option<PopupDismissal>,
}

/// Whether a grab request may be granted: the popup lives, the seat belongs
/// to its client, the serial names a recent input event of that client, and
/// the client is still connected.
pub open spec fn grab_request_valid(
    s: CompositorState,
    surface_id: u32,
    seat_matches: bool,
    serial_valid: bool,
    owner_client: Option<u64>,
) -> bool {
    spec_node_alive(s.popups, surface_id) && seat_matches && serial_valid && owner_client is Some
}

/// What installing the grab of `surface_id` over the state `m` leaves: the
/// next generation, stamped on the popup, a grab focused on it, the popup on
/// top of the grab stack, and keyboard focus on it.
pub open spec fn grab_installed(
    m: CompositorState,
    f: CompositorState,
    surface_id: u32,
    owner_client: u64,
    owner_root_id: u32,
    tree_root_popup_id: u32,
    serial: u32,
) -> bool {
    let generation = bump(m.popups.next_grab_generation);
    let v = nodes_view(m.popups.nodes@);
    &&& m.popups.nodes@.contains_key(surface_id)
    &&& nodes_view(f.popups.nodes@) == v.insert(
        surface_id,
        PopupNodeView { grab_generation: Some(generation), ..v[surface_id] },
    )
    &&& f.popups.grab == Some(
        PopupGrab {
            owner_client,
            owner_root_id,
            tree_root_popup_id,
            focused_popup_id: surface_id,
            serial,
            generation,
        },
    )
    &&& f.popups.grab_stack@ == spec_remove_all(m.popups.grab_stack@, surface_id).push(surface_id)
    &&& f.popups == PopupState {
        nodes: f.popups.nodes,
        grab: f.popups.grab,
        grab_stack: f.popups.grab_stack,
        next_grab_generation: generation,
        ..m.popups
    }
    &&& f == CompositorState { popups: f.popups, keyboard_focus: Some(surface_id), ..m }
}

/// What a grab request from `surface_id` leaves, with `r` its answer.
pub open spec fn grab_requested(
    o: CompositorState,
    f: CompositorState,
    surface_id: u32,
    seat_matches: bool,
    serial_valid: bool,
    owner_client: Option<u64>,
    serial: u32,
    r: PopupGrabOutcome,
) -> bool {
    if !grab_request_valid(o, surface_id, seat_matches, serial_valid, owner_client) {
        &&& !r.granted
        &&& r.dismissal matches Some(d) && popup_dismissed(o, f, surface_id, d)
    } else {
        let client = owner_client->0;
        let owner_root_id = o.popups.nodes@[surface_id].owner_root_id;
        let tree_root = spec_tree_root_walk(
            o.popups.nodes@,
            surface_id,
            walk_bound(o.popups.nodes.len()),
            surface_id,
        );
        &&& r.granted
        &&& match o.popups.grab {
            Some(active) if active.owner_client != client || active.owner_root_id != owner_root_id => {
                &&& r.dismissal is Some
                &&& exists|m: CompositorState|
                    #![trigger grab_installed(m, f, surface_id, client, owner_root_id, tree_root, serial)]
                    popup_dismissed(o, m, active.tree_root_popup_id, r.dismissal->0) && grab_installed(
                        m,
                        f,
                        surface_id,
                        client,
                        owner_root_id,
                        tree_root,
                        serial,
                    )
            },
            _ => {
                &&& r.dismissal is None
                &&& grab_installed(o, f, surface_id, client, owner_root_id, tree_root, serial)
            },
        }
    }
}

/// The owner a popup created with `parent` hangs from: the parent popup,
/// layer surface or toplevel, or the popup itself when it has no parent.
pub open spec fn new_popup_owner(s: CompositorState, surface_id: u32, parent: Option<u32>) -> PopupOwner {
    match parent {
        Some(p) => if s.popups.nodes@.contains_key(p) {
            PopupOwner::Popup(p)
        } else if s.popups.layer_surfaces@.contains(p) {
            PopupOwner::LayerSurface(p)
        } else {
            PopupOwner::Toplevel(p)
        },
        None => PopupOwner::Toplevel(surface_id),
    }
}

/// The window a popup hanging from `owner` belongs to: that of a parent
/// popup, otherwise the owner surface itself.
pub open spec fn new_popup_owner_root(s: CompositorState, owner: PopupOwner) -> u32 {
    match owner {
        PopupOwner::Popup(p) => if s.popups.nodes@.contains_key(p) {
            s.popups.nodes@[p].owner_root_id
        } else {
            p
        },
        PopupOwner::LayerSurface(p) => p,
        PopupOwner::Toplevel(p) => p,
    }
}

/// A popup node as it is created: alive, unmapped, unconfigured, childless.
pub open spec fn fresh_popup_view(owner_root_id: u32, parent: PopupOwner) -> PopupNodeView {
    PopupNodeView {
        owner_root_id,
        parent,
        children: Seq::empty(),
        lifecycle: PopupLifecycle::Alive,
        mapped: false,
        configured: false,
        popup_done_sent: false,
        grab_generation: None,
    }
}

/// What registering the popup `surface_id` with `parent` leaves: resize
/// state of the surface dropped, its role recorded, and its node hung from
/// its owner unless that would close a cycle.
pub open spec fn popup_registered(o: CompositorState, f: CompositorState, surface_id: u32, parent: Option<u32>) -> bool {
    let owner = new_popup_owner(o, surface_id, parent);
    let fresh = fresh_popup_view(new_popup_owner_root(o, owner), owner);
    let unlinked = if o.popups.nodes@.contains_key(surface_id) {
        spec_unlink(nodes_view(o.popups.nodes@), surface_id, o.popups.nodes@[surface_id].parent)
    } else {
        nodes_view(o.popups.nodes@)
    };
    let base = if o.window_interaction matches Some(i) && interaction_touches(i, seq![surface_id]) {
        spec_clear_interaction(o).1
    } else {
        o
    };
    &&& nodes_view(f.popups.nodes@) == if link_closes_cycle(o.popups.nodes@, o.popups.nodes.len(), surface_id, owner) {
        unlinked
    } else {
        spec_link(unlinked.insert(surface_id, fresh), surface_id, owner)
    }
    &&& f.popups.surfaces@ == o.popups.surfaces@.insert(surface_id, PopupSurface { parent_surface_id: parent })
    &&& f.resize_configure_flows@ == o.resize_configure_flows@.remove(surface_id)
    &&& f == CompositorState {
        popups: PopupState { nodes: f.popups.nodes, surfaces: f.popups.surfaces, ..o.popups },
        resize_configure_flows: f.resize_configure_flows,
        ..base
    }
}

impl CompositorState {
    /// Gives `surface_id` the xdg_popup role under `parent`; refused (with
    /// nothing done) for a cursor surface.
    pub fn register_popup_surface(&mut self, surface_id: u32, parent: Option<u32>, is_cursor_surface: bool)
        ensures
            is_cursor_surface ==> *final(self) == *old(self),
            !is_cursor_surface ==> popup_registered(*old(self), *final(self), surface_id, parent),
    {
        if is_cursor_surface {
            return;
        }
        let ids: [u32; 1] = [surface_id];
        proof {
            assert(ids@ =~= seq![surface_id]);
            assert(ids@.to_set() =~= set![surface_id]);
        }
        self.clear_resize_state_for_surfaces(&ids);
        let ghost cleared = *self;
        proof {
            assert(cleared.resize_configure_flows@ =~= old(self).resize_configure_flows@.remove(surface_id));
        }
        let owner = match parent {
            Some(parent_id) => self.popup_owner_for_parent(parent_id),
            None => PopupOwner::Toplevel(surface_id),
        };
        let owner_root_id = match owner {
            PopupOwner::Popup(parent_id) => match self.popups.nodes.get(&parent_id) {
                Some(node) => node.owner_root_id,
                None => parent_id,
            },
            PopupOwner::LayerSurface(parent_id) => parent_id,
            PopupOwner::Toplevel(parent_id) => parent_id,
        };
        self.popups.surfaces.insert(surface_id, PopupSurface { parent_surface_id: parent });
        let node = PopupNode {
            owner_root_id,
            parent: owner,
            children: Vec::new(),
            lifecycle: PopupLifecycle::Alive,
            mapped: false,
            configured: false,
            popup_done_sent: false,
            grab_generation: None,
        };
        proof {
            assert(node@.children =~= Seq::<u32>::empty());
        }
        let ghost inserted = *self;
        self.attach_popup_node(surface_id, node);
        proof {
            assert(inserted.popups.nodes == old(self).popups.nodes);
            assert(self.popups.surfaces@ == old(self).popups.surfaces@.insert(
                surface_id,
                PopupSurface { parent_surface_id: parent },
            ));
            assert(self.resize_configure_flows@ == old(self).resize_configure_flows@.remove(surface_id));
        }
    }

    /// A popup's request for an explicit grab with `serial`. `seat_matches`
    /// says whether the seat belongs to the popup's client, `serial_valid`
    /// whether the serial names a recent input event of that client, and
    /// `owner_client` is that client while it is connected. A refused request
    /// dismisses the popup; a granted one first dismisses a grab that another
    /// client, or the popups of another window, hold.
    pub fn grab_popup_surface(
        &mut self,
        surface_id: u32,
        seat_matches: bool,
        serial_valid: bool,
        owner_client: Option<u64>,
        serial: u32,
    ) -> (r: PopupGrabOutcome)
        ensures
            grab_requested(
                *old(self),
                *final(self),
                surface_id,
                seat_matches,
                serial_valid,
                owner_client,
                serial,
                r,
            ),
    {
        if !self.popup_node_is_alive(surface_id) || !seat_matches || !serial_valid {
            let d = self.dismiss_popup_surface(surface_id);
            return PopupGrabOutcome { granted: false, dismissal: Some(d) };
        }
        let client = match owner_client {
            Some(client) => client,
            None => {
                let d = self.dismiss_popup_surface(surface_id);
                return PopupGrabOutcome { granted: false, dismissal: Some(d) };
            },
        };
        let owner_root_id = match self.popups.nodes.get(&surface_id) {
            Some(node) => node.owner_root_id,
            None => {
                let d = self.dismiss_popup_surface(surface_id);
                return PopupGrabOutcome { granted: false, dismissal: Some(d) };
            },
        };
        let tree_root_popup_id = self.popup_tree_root(surface_id);
        let mut dismissal: Option<PopupDismissal> = None;
        match self.popups.grab {
            Some(active) => {
                if active.owner_client != client || active.owner_root_id != owner_root_id {
                    dismissal = Some(self.dismiss_popup_surface(active.tree_root_popup_id));
                }
            },
            None => {},
        }
        let ghost mid = *self;
        proof {
            assert(mid.popups.nodes@.contains_key(surface_id)) by {
                assert(nodes_view(mid.popups.nodes@).contains_key(surface_id));
            }
        }
        let generation = self.popups.next_grab_generation.saturating_add(1);
        self.popups.next_grab_generation = generation;
        match self.popups.nodes.remove(&surface_id) {
            Some(mut node) => {
                node.grab_generation = Some(generation);
                self.popups.nodes.insert(surface_id, node);
            },
            None => {},
        }
        proof {
            let v = nodes_view(mid.popups.nodes@);
            assert(nodes_view(self.popups.nodes@) =~= v.insert(
                surface_id,
                PopupNodeView { grab_generation: Some(generation), ..v[surface_id] },
            ));
        }
        self.popups.grab = Some(
            PopupGrab {
                owner_client: client,
                owner_root_id,
                tree_root_popup_id,
                focused_popup_id: surface_id,
                serial,
                generation,
            },
        );
        let mut stack = remove_all(&self.popups.grab_stack, surface_id);
        stack.push(surface_id);
        self.popups.grab_stack = stack;
        self.keyboard_focus = Some(surface_id);
        proof {
            assert(grab_installed(mid, *self, surface_id, client, owner_root_id, tree_root_popup_id, serial));
        }
        PopupGrabOutcome { granted: true, dismissal }
    }
}

} // verus!
