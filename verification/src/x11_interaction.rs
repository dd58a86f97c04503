//! `_NET_WM_MOVERESIZE` requests of X11 clients: they start an interaction
//! from a pointer button the user still holds on the window.
use vstd::prelude::*;
use crate::compositor::{begin_allowed, interaction_begun, spec_end_interaction, spec_end_requests, CompositorState};
use crate::fixed::Fixed;
use crate::interaction::{
    spec_x11_button_to_evdev, x11_button_to_evdev, BeginWindowInteraction, WindowId,
    WindowInteractionEndReason, WindowInteractionKind, WindowInteractionSource,
};

verus! {

/// A pointer button held down on a surface of a root window.
#[derive(Debug, Clone, Copy, PartialEq, Eq, Structural)]
pub struct HeldPointerButton {
    pub root_surface_id: u32,
    pub surface_id: u32,
    pub button: u32,
}

/// The most recent press among `presses[..n]` on `root` with the requested
/// button (any button when none is requested).
pub open spec fn last_matching_press(
    presses: Seq<HeldPointerButton>,
    root: u32,
    requested: Option<u32>,
    n: int,
) -> Option<HeldPointerButton>
    decreases n,
{
    if n <= 0 {
        None
    } else {
        let p = presses[n - 1];
        if p.root_surface_id == root && match requested {
            None => true,
            Some(b) => p.button == b,
        } {
            Some(p)
        } else {
            last_matching_press(presses, root, requested, n - 1)
        }
    }
}

/// The interaction an X11 move/resize request asks for, given the press it rides on.
pub open spec fn x11_begin(
    window_id: WindowId,
    root_surface_id: u32,
    x: Fixed,
    y: Fixed,
    kind: WindowInteractionKind,
    press: HeldPointerButton,
) -> BeginWindowInteraction {
    BeginWindowInteraction {
        window_id: Some(window_id),
        root_surface_id,
        x,
        y,
        kind,
        source: WindowInteractionSource::X11NetWmMoveResize,
        trigger_button: Some(press.button),
        trigger_serial: None,
        pointer_motion_surface_id: Some(press.surface_id),
    }
}

impl CompositorState {
    fn last_held_press(&self, root_surface_id: u32, requested: Option<u32>) -> (r: Option<HeldPointerButton>)
        ensures
            r == last_matching_press(
                self.held_pointer_buttons@,
                root_surface_id,
                requested,
                self.held_pointer_buttons@.len() as int,
            ),
    {
        let mut n: usize = self.held_pointer_buttons.len();
        while n > 0
            invariant
                n <= self.held_pointer_buttons.len(),
                last_matching_press(
                    self.held_pointer_buttons@,
                    root_surface_id,
                    requested,
                    self.held_pointer_buttons@.len() as int,
                ) == last_matching_press(self.held_pointer_buttons@, root_surface_id, requested, n as int),
            decreases n,
        {
            let press = self.held_pointer_buttons[n - 1];
            let matches = press.root_surface_id == root_surface_id && match requested {
                None => true,
                Some(b) => press.button == b,
            };
            if matches {
                return Some(press);
            }
            n = n - 1;
        }
        None
    }

    /// Starts the move or resize an X11 client requested for its window
    /// (`window_id`, drawn by `root_surface_id`) with X11 button `x11_button`
    /// (0: any). It rides on the latest matching button still held on the
    /// window; without one nothing starts.
    pub fn begin_x11_client_window_interaction(
        &mut self,
        window_id: WindowId,
        root_surface_id: u32,
        x: Fixed,
        y: Fixed,
        kind: WindowInteractionKind,
        x11_button: u32,
    ) -> (r: bool)
        ensures
            ({
                let press = last_matching_press(
                    old(self).held_pointer_buttons@,
                    root_surface_id,
                    spec_x11_button_to_evdev(x11_button),
                    old(self).held_pointer_buttons@.len() as int,
                );
                match press {
                    None => !r && *final(self) == *old(self),
                    Some(p) => {
                        let begin = x11_begin(window_id, root_surface_id, x, y, kind, p);
                        &&& r == begin_allowed(*old(self), begin)
                        &&& !r ==> *final(self) == *old(self)
                        &&& r ==> interaction_begun(*old(self), *final(self), begin)
                    },
                }
            }),
    {
        let requested = x11_button_to_evdev(x11_button);
        let press = match self.last_held_press(root_surface_id, requested) {
            Some(press) => press,
            None => {
                return false;
            },
        };
        self.begin_window_interaction_for_root(
            BeginWindowInteraction {
                window_id: Some(window_id),
                root_surface_id,
                x,
                y,
                kind,
                source: WindowInteractionSource::X11NetWmMoveResize,
                trigger_button: Some(press.button),
                trigger_serial: None,
                pointer_motion_surface_id: Some(press.surface_id),
            },
        )
    }

    /// Cancels the interaction an X11 client started on `window_id`.
    pub fn cancel_x11_client_window_interaction(&mut self, window_id: WindowId) -> (r: bool)
        ensures
            r == (old(self).window_interaction matches Some(i) && i.window_id == window_id && i.source
                == WindowInteractionSource::X11NetWmMoveResize),
            !r ==> *final(self) == *old(self),
            r ==> final(self).window_interaction is None && final(self).interaction_cursor_override is None,
            r ==> final(self).resize_end_requests@ == spec_end_requests(*old(self)),
            r ==> *final(self) == spec_end_interaction(*old(self), final(self).resize_end_requests),
    {
        let interaction = match self.window_interaction {
            Some(i) => i,
            None => {
                return false;
            },
        };
        if interaction.window_id != window_id || interaction.source != WindowInteractionSource::X11NetWmMoveResize {
            return false;
        }
        self.end_window_interaction_by_id_with_reason(interaction.id, WindowInteractionEndReason::ExplicitCancel)
    }
}

} // verus!
