//! Verified core of the Typhon Wayland compositor: surface damage and
//! placement, per-surface double-buffered state, xdg-shell configure
//! lifecycle, interactive move/resize state, server-side decoration input,
//! window geometry constraints, the popup tree with its grabs and dismissal, subsurface
//! roles with cached commits and their admission budgets, XWayland scene
//! batching, visual state and buffer commits,
//! resize previews and the render assignment of previewed toplevels, and the
//! surface pipeline trace.
use vstd::prelude::*;

pub mod arith;
pub mod buffer;
pub mod compositor;
pub mod decoration;
pub mod fixed;
pub mod forest;
pub mod interaction;
pub mod metrics;
pub mod pipeline_trace;
pub mod popup;
pub mod popup_dismiss;
pub mod popup_grab;
pub mod region;
pub mod render_assignment;
pub mod resize_flow;
pub mod subsurface;
pub mod subsurface_cache;
pub mod subsurface_roles;
pub mod surface_state;
pub mod window_geometry;
pub mod x11_interaction;
pub mod xdg_lifecycle;
pub mod xwayland_commit;
pub mod xwayland_scene;
pub mod xwayland_visual;
pub mod surface;

verus! {

} // verus!
