//! Pointer handling on server-side window decorations: titlebar drags and
//! double clicks, frame-edge resizes, and the press/release protocol of the
//! minimize, maximize and close buttons.
use vstd::prelude::*;
use crate::compositor::{
    begin_allowed, interaction_begun, spec_advance_render_generation, spec_clear_interaction, CompositorState, RenderGenerationCause,
};
use crate::fixed::Fixed;
use crate::interaction::{
    BeginWindowInteraction, WindowId, WindowInteractionKind, WindowInteractionSource,
};
use crate::window_geometry::ResizeEdges;

verus! {

/// The primary (left) pointer button, `BTN_LEFT`.
pub const LEFT_BUTTON: u32 = 0x110;

/// Longest gap between two titlebar presses that still forms a double click.
pub const DOUBLE_CLICK_WINDOW_MS: u64 = 500;

/// Farthest two titlebar presses of a double click may lie apart, in
/// fixed-point units (8 logical pixels).
pub const DOUBLE_CLICK_DISTANCE_FIXED: i64 = 2048;

#[derive(Debug, Clone, Copy, PartialEq, Eq, Structural)]
pub enum DecorationButtonKind {
    Minimize,
    MaximizeRestore,
    Close,
}

#[derive(Debug, Clone, Copy, PartialEq, Eq, Structural)]
pub enum DecorationResizeEdge {
    Top,
    Right,
    Bottom,
    Left,
    TopRight,
    BottomRight,
    BottomLeft,
    TopLeft,
}

/// The part of a decoration under the pointer.
#[derive(Debug, Clone, Copy, PartialEq, Eq, Structural)]
pub enum DecorationHit {
    Titlebar,
    Button(DecorationButtonKind),
    Resize(DecorationResizeEdge),
}

/// What the pointer is over, as far as decoration handling reads it.
#[derive(Debug, Clone, Copy, PartialEq, Eq, Structural)]
pub enum PointerSceneHit {
    Decoration { window_id: WindowId, root_surface_id: u32, hit: DecorationHit },
    Client,
    Nothing,
}

/// How a window is decorated.
#[derive(Debug, Clone, Copy, PartialEq, Eq, Structural)]
pub enum DecorationMode {
    Undecorated,
    ClientSide,
    ServerSide,
}

/// A decoration button held down; it acts when released over itself.
#[derive(Debug, Clone, Copy, PartialEq, Eq, Structural)]
pub struct DecorationButtonCapture {
    pub window_id: WindowId,
    pub root_surface_id: u32,
    pub kind: DecorationButtonKind,
    pub button: u32,
}

/// A titlebar press, remembered to recognise a double click.
#[derive(Debug, Clone, Copy, PartialEq, Eq, Structural)]
pub struct TitlebarClick {
    pub window_id: WindowId,
    pub time_ms: u64,
    pub x: Fixed,
    pub y: Fixed,
}

/// The decoration button under the pointer.
#[derive(Debug, Clone, Copy, PartialEq, Eq, Structural)]
pub struct DecorationButtonHover {
    pub window_id: WindowId,
    pub kind: DecorationButtonKind,
}

/// The button whose press completed a titlebar double click; its release is swallowed.
#[derive(Debug, Clone, Copy, PartialEq, Eq, Structural)]
pub struct TitlebarClickCapture {
    pub window_id: WindowId,
    pub button: u32,
}

/// Decoration state kept between pointer events.
#[derive(Debug, Clone, Copy, PartialEq, Eq, Structural)]
pub struct DecorationPointerState {
    pub button_capture: Option<DecorationButtonCapture>,
    pub button_hover: Option<DecorationButtonHover>,
    pub titlebar_click_capture: Option<TitlebarClickCapture>,
    pub last_titlebar_click: Option<TitlebarClick>,
}

impl Default for DecorationPointerState {
    fn default() -> (r: Self)
        ensures
            r.button_capture is None && r.button_hover is None && r.titlebar_click_capture is None
                && r.last_titlebar_click is None,
    {
        DecorationPointerState {
            button_capture: None,
            button_hover: None,
            titlebar_click_capture: None,
            last_titlebar_click: None,
        }
    }
}

/// A window-management action a decoration asks for; the window manager performs it.
#[derive(Debug, Clone, Copy, PartialEq, Eq, Structural)]
pub enum DecorationWindowAction {
    NoAction,
    Activate(WindowId),
    ToggleMaximize(WindowId),
    Minimize(WindowId),
    Close(WindowId),
}

/// The frame a client draws around its content (`_GTK_FRAME_EXTENTS`).
#[derive(Debug, Clone, Copy, PartialEq, Eq, Structural)]
pub struct X11FrameExtents {
    pub left: u32,
    pub right: u32,
    pub top: u32,
    pub bottom: u32,
}

/// The decoration hints an X11 client set: its frame extents and whether its
/// Motif hints ask for no decorations.
#[derive(Debug, Clone, Copy, PartialEq, Eq, Structural)]
pub struct X11DecorationHints {
    pub gtk_frame_extents: Option<X11FrameExtents>,
    pub motif_undecorated: bool,
}

/// Whether the client draws a frame of its own: some frame extent is not zero.
pub open spec fn draws_own_frame(hints: X11DecorationHints) -> bool {
    match hints.gtk_frame_extents {
        Some(e) => e.left != 0 || e.right != 0 || e.top != 0 || e.bottom != 0,
        None => false,
    }
}

/// The decoration of an X11 window: only managed normal X11 windows that are
/// not fullscreen are decorated; client-side when the client draws its own
/// frame, none when its Motif hints ask for none, server-side otherwise.
pub open spec fn spec_effective_x11_decoration_mode(
    is_x11: bool,
    managed: bool,
    normal_x11_role: bool,
    fullscreen: bool,
    hints: X11DecorationHints,
) -> DecorationMode {
    if !(is_x11 && managed && normal_x11_role) || fullscreen {
        DecorationMode::Undecorated
    } else if draws_own_frame(hints) {
        DecorationMode::ClientSide
    } else if hints.motif_undecorated {
        DecorationMode::Undecorated
    } else {
        DecorationMode::ServerSide
    }
}

/// The decoration mode of a window from its backend, management, role, mode
/// and X11 hints.
pub fn effective_x11_decoration_mode(
    is_x11: bool,
    managed: bool,
    normal_x11_role: bool,
    fullscreen: bool,
    hints: X11DecorationHints,
) -> (r: DecorationMode)
    ensures
        r == spec_effective_x11_decoration_mode(is_x11, managed, normal_x11_role, fullscreen, hints),
{
    if !is_x11 || !managed || !normal_x11_role {
        return DecorationMode::Undecorated;
    }
    if fullscreen {
        return DecorationMode::Undecorated;
    }
    let own_frame = match hints.gtk_frame_extents {
        Some(e) => e.left != 0 || e.right != 0 || e.top != 0 || e.bottom != 0,
        None => false,
    };
    if own_frame {
        return DecorationMode::ClientSide;
    }
    if hints.motif_undecorated {
        return DecorationMode::Undecorated;
    }
    DecorationMode::ServerSide
}

pub open spec fn spec_resize_edges_for_decoration_edge(edge: DecorationResizeEdge) -> ResizeEdges {
    match edge {
        DecorationResizeEdge::Top => ResizeEdges { top: true, bottom: false, left: false, right: false },
        DecorationResizeEdge::Right => ResizeEdges { top: false, bottom: false, left: false, right: true },
        DecorationResizeEdge::Bottom => ResizeEdges { top: false, bottom: true, left: false, right: false },
        DecorationResizeEdge::Left => ResizeEdges { top: false, bottom: false, left: true, right: false },
        DecorationResizeEdge::TopRight => ResizeEdges { top: true, bottom: false, left: false, right: true },
        DecorationResizeEdge::BottomRight => ResizeEdges { top: false, bottom: true, left: false, right: true },
        DecorationResizeEdge::BottomLeft => ResizeEdges { top: false, bottom: true, left: true, right: false },
        DecorationResizeEdge::TopLeft => ResizeEdges { top: true, bottom: false, left: true, right: false },
    }
}

/// The window edges a frame edge or corner drags.
pub fn resize_edges_for_decoration_edge(edge: DecorationResizeEdge) -> (r: ResizeEdges)
    ensures
        r == spec_resize_edges_for_decoration_edge(edge),
{
    match edge {
        DecorationResizeEdge::Top => ResizeEdges::new(true, false, false, false),
        DecorationResizeEdge::Right => ResizeEdges::new(false, false, false, true),
        DecorationResizeEdge::Bottom => ResizeEdges::new(false, true, false, false),
        DecorationResizeEdge::Left => ResizeEdges::new(false, false, true, false),
        DecorationResizeEdge::TopRight => ResizeEdges::new(true, false, false, true),
        DecorationResizeEdge::BottomRight => ResizeEdges::new(false, true, false, true),
        DecorationResizeEdge::BottomLeft => ResizeEdges::new(false, true, true, false),
        DecorationResizeEdge::TopLeft => ResizeEdges::new(true, false, true, false),
    }
}

/// Whether a titlebar press at `(x, y)` at `now_ms` completes a double click
/// with the remembered press: same window, at most 500 ms later (an earlier
/// time counts as no gap) and at most 8 logical pixels away.
pub open spec fn spec_is_double_click(prior: Option<TitlebarClick>, window_id: WindowId, now_ms: u64, x: Fixed, y: Fixed) -> bool {
    match prior {
        None => false,
        Some(p) => {
            let elapsed = if now_ms >= p.time_ms {
                now_ms - p.time_ms
            } else {
                0
            };
            let dx = x.raw - p.x.raw;
            let dy = y.raw - p.y.raw;
            &&& p.window_id == window_id
            &&& elapsed <= DOUBLE_CLICK_WINDOW_MS
            &&& dx * dx + dy * dy <= DOUBLE_CLICK_DISTANCE_FIXED * DOUBLE_CLICK_DISTANCE_FIXED
        },
    }
}

pub fn is_double_click(prior: Option<TitlebarClick>, window_id: WindowId, now_ms: u64, x: Fixed, y: Fixed) -> (r: bool)
    ensures
        r == spec_is_double_click(prior, window_id, now_ms, x, y),
{
    match prior {
        None => false,
        Some(p) => {
            let elapsed = now_ms.saturating_sub(p.time_ms);
            let dx: i128 = x.raw as i128 - p.x.raw as i128;
            let dy: i128 = y.raw as i128 - p.y.raw as i128;
            assert(dx * dx <= 0x1_0000_0000_0000_0000) by (nonlinear_arith)
                requires
                    -0x1_0000_0000 <= dx <= 0x1_0000_0000,
            ;
            assert(dy * dy <= 0x1_0000_0000_0000_0000) by (nonlinear_arith)
                requires
                    -0x1_0000_0000 <= dy <= 0x1_0000_0000,
            ;
            assert(dx * dx >= 0 && dy * dy >= 0) by (nonlinear_arith);
            let limit: i128 = DOUBLE_CLICK_DISTANCE_FIXED as i128;
            p.window_id == window_id && elapsed <= DOUBLE_CLICK_WINDOW_MS && dx * dx + dy * dy <= limit * limit
        },
    }
}

pub open spec fn with_decoration(s: CompositorState, d: DecorationPointerState) -> CompositorState {
    CompositorState { decoration: d, ..s }
}

/// The interaction a decoration press starts.
pub open spec fn decoration_begin(
    window_id: WindowId,
    root_surface_id: u32,
    x: Fixed,
    y: Fixed,
    kind: WindowInteractionKind,
    button: u32,
) -> BeginWindowInteraction {
    BeginWindowInteraction {
        window_id: Some(window_id),
        root_surface_id,
        x,
        y,
        kind,
        source: WindowInteractionSource::NativeBinding,
        trigger_button: Some(button),
        trigger_serial: None,
        pointer_motion_surface_id: None,
    }
}

/// What a decoration's request to begin `begin` leaves of the state
/// `before`: exactly what a begin leaves when it is allowed, `before` itself
/// otherwise.
pub open spec fn began_as_asked(before: CompositorState, after: CompositorState, begin: BeginWindowInteraction) -> bool {
    if begin_allowed(before, begin) {
        interaction_begun(before, after, begin)
    } else {
        after == before
    }
}

pub open spec fn release_action(capture: DecorationButtonCapture) -> DecorationWindowAction {
    match capture.kind {
        DecorationButtonKind::Minimize => DecorationWindowAction::Minimize(capture.window_id),
        DecorationButtonKind::MaximizeRestore => DecorationWindowAction::ToggleMaximize(capture.window_id),
        DecorationButtonKind::Close => DecorationWindowAction::Close(capture.window_id),
    }
}

/// The action a released decoration button asks for is the one its kind
/// names, on the window it was pressed on: minimize, maximize/restore
/// toggle or close; the three kinds never ask for the same action.
pub proof fn lemma_release_action_follows_button_kind(capture: DecorationButtonCapture)
    ensures
        capture.kind == DecorationButtonKind::Minimize ==> release_action(capture) == DecorationWindowAction::Minimize(
            capture.window_id,
        ),
        capture.kind == DecorationButtonKind::MaximizeRestore ==> release_action(capture)
            == DecorationWindowAction::ToggleMaximize(capture.window_id),
        capture.kind == DecorationButtonKind::Close ==> release_action(capture) == DecorationWindowAction::Close(
            capture.window_id,
        ),
{
}

pub open spec fn released_over_capture(capture: DecorationButtonCapture, scene_hit: Option<PointerSceneHit>) -> bool {
    scene_hit matches Some(PointerSceneHit::Decoration { window_id, hit: DecorationHit::Button(kind), .. })
        && window_id == capture.window_id && kind == capture.kind
}

impl CompositorState {
    /// Records which decoration button the pointer is over; a change repaints.
    pub fn update_decoration_hover_for_scene_hit(&mut self, hit: PointerSceneHit)
        ensures
            ({
                let next = match hit {
                    PointerSceneHit::Decoration { window_id, hit: DecorationHit::Button(kind), .. } => Some(
                        DecorationButtonHover { window_id, kind },
                    ),
                    _ => None,
                };
                if old(self).decoration.button_hover == next {
                    *final(self) == *old(self)
                } else {
                    *final(self) == spec_advance_render_generation(
                        with_decoration(
                            *old(self),
                            DecorationPointerState { button_hover: next, ..old(self).decoration },
                        ),
                        RenderGenerationCause::WindowDecoration,
                    )
                }
            }),
    {
        let next = match hit {
            PointerSceneHit::Decoration { window_id, hit: DecorationHit::Button(kind), .. } => Some(
                DecorationButtonHover { window_id, kind },
            ),
            _ => None,
        };
        if self.decoration.button_hover == next {
            return;
        }
        self.decoration.button_hover = next;
        self.advance_render_generation(RenderGenerationCause::WindowDecoration);
    }

    /// Handles a pointer button on the decoration layer at the pointer position.
    /// Returns whether the decoration consumed the event and the window action to perform.
    ///
    /// A release of the button whose press completed a titlebar double click is
    /// swallowed. A left press on a titlebar either completes a double click
    /// (maximize toggles) or starts a move; on a frame edge it starts a resize;
    /// on a button it captures the button. Other presses on a decoration are
    /// consumed without effect. A release of a captured button acts only when
    /// it is the capturing button released over the same button.
    pub fn handle_decoration_button_with_hit(
        &mut self,
        scene_hit: Option<PointerSceneHit>,
        button: u32,
        pressed: bool,
        now_ms: u64,
    ) -> (r: (bool, DecorationWindowAction))
        ensures
            ({
                let d = old(self).decoration;
                if !pressed && (d.titlebar_click_capture matches Some(c) && c.button == button) {
                    &&& r == (true, DecorationWindowAction::NoAction)
                    &&& *final(self) == spec_advance_render_generation(
                        with_decoration(*old(self), DecorationPointerState { titlebar_click_capture: None, ..d }),
                        RenderGenerationCause::WindowDecoration,
                    )
                } else if pressed {
                    match scene_hit {
                        Some(PointerSceneHit::Decoration { window_id, root_surface_id, hit }) => {
                            if button != LEFT_BUTTON {
                                r == (true, DecorationWindowAction::NoAction) && *final(self) == *old(self)
                            } else {
                                match hit {
                                    DecorationHit::Titlebar => if spec_is_double_click(
                                        d.last_titlebar_click,
                                        window_id,
                                        now_ms,
                                        old(self).pointer_x,
                                        old(self).pointer_y,
                                    ) {
                                        &&& r == (true, DecorationWindowAction::ToggleMaximize(window_id))
                                        &&& *final(self) == spec_advance_render_generation(
                                            with_decoration(
                                                *old(self),
                                                DecorationPointerState {
                                                    last_titlebar_click: None,
                                                    titlebar_click_capture: Some(TitlebarClickCapture { window_id, button }),
                                                    ..d
                                                },
                                            ),
                                            RenderGenerationCause::WindowDecoration,
                                        )
                                    } else {
                                        let begin = decoration_begin(
                                            window_id,
                                            root_surface_id,
                                            old(self).pointer_x,
                                            old(self).pointer_y,
                                            WindowInteractionKind::Move,
                                            button,
                                        );
                                        let clicked = DecorationPointerState {
                                            last_titlebar_click: Some(
                                                TitlebarClick {
                                                    window_id,
                                                    time_ms: now_ms,
                                                    x: old(self).pointer_x,
                                                    y: old(self).pointer_y,
                                                },
                                            ),
                                            ..d
                                        };
                                        &&& r == (true, DecorationWindowAction::NoAction)
                                        &&& final(self).decoration == clicked
                                        &&& began_as_asked(with_decoration(*old(self), clicked), *final(self), begin)
                                    },
                                    DecorationHit::Button(kind) => {
                                        &&& r == (true, DecorationWindowAction::Activate(window_id))
                                        &&& *final(self) == spec_advance_render_generation(
                                            with_decoration(
                                                *old(self),
                                                DecorationPointerState {
                                                    button_capture: Some(
                                                        DecorationButtonCapture {
                                                            window_id,
                                                            root_surface_id,
                                                            kind,
                                                            button,
                                                        },
                                                    ),
                                                    ..d
                                                },
                                            ),
                                            RenderGenerationCause::WindowDecoration,
                                        )
                                    },
                                    DecorationHit::Resize(edge) => {
                                        let begin = decoration_begin(
                                            window_id,
                                            root_surface_id,
                                            old(self).pointer_x,
                                            old(self).pointer_y,
                                            WindowInteractionKind::Resize(
                                                spec_resize_edges_for_decoration_edge(edge),
                                            ),
                                            button,
                                        );
                                        &&& r == (true, DecorationWindowAction::Activate(window_id))
                                        &&& final(self).decoration == d
                                        &&& began_as_asked(*old(self), *final(self), begin)
                                    },
                                }
                            }
                        },
                        _ => r == (false, DecorationWindowAction::NoAction) && *final(self) == *old(self),
                    }
                } else {
                    match d.button_capture {
                        None => r == (scene_hit matches Some(PointerSceneHit::Decoration { .. }),
                            DecorationWindowAction::NoAction) && *final(self) == *old(self),
                        Some(capture) => {
                            &&& r == (true, if capture.button == button && released_over_capture(
                                capture,
                                scene_hit,
                            ) {
                                release_action(capture)
                            } else {
                                DecorationWindowAction::NoAction
                            })
                            &&& *final(self) == spec_advance_render_generation(
                                with_decoration(*old(self), DecorationPointerState { button_capture: None, ..d }),
                                RenderGenerationCause::WindowDecoration,
                            )
                        },
                    }
                }
            }),
            !pressed && !(old(self).decoration.titlebar_click_capture matches Some(t) && t.button == button) && (old(
                self,
            ).decoration.button_capture matches Some(c) && c.button == button && released_over_capture(c, scene_hit)
                && c.kind == DecorationButtonKind::Minimize) ==> r == (
                true,
                DecorationWindowAction::Minimize(old(self).decoration.button_capture->0.window_id),
            ),
            !pressed && !(old(self).decoration.titlebar_click_capture matches Some(t) && t.button == button) && (old(
                self,
            ).decoration.button_capture matches Some(c) && c.button == button && released_over_capture(c, scene_hit)
                && c.kind == DecorationButtonKind::MaximizeRestore) ==> r == (
                true,
                DecorationWindowAction::ToggleMaximize(old(self).decoration.button_capture->0.window_id),
            ),
            !pressed && !(old(self).decoration.titlebar_click_capture matches Some(t) && t.button == button) && (old(
                self,
            ).decoration.button_capture matches Some(c) && c.button == button && released_over_capture(c, scene_hit)
                && c.kind == DecorationButtonKind::Close) ==> r == (
                true,
                DecorationWindowAction::Close(old(self).decoration.button_capture->0.window_id),
            ),
            !pressed && !(old(self).decoration.titlebar_click_capture matches Some(t) && t.button == button) && old(
                self,
            ).decoration.button_capture is Some && !(old(self).decoration.button_capture->0.button == button && (
            scene_hit matches Some(PointerSceneHit::Decoration { window_id, hit: DecorationHit::Button(kind), .. })
                && window_id == old(self).decoration.button_capture->0.window_id && kind == old(
                self,
            ).decoration.button_capture->0.kind)) ==> r == (true, DecorationWindowAction::NoAction),
    {
        let swallow_release = !pressed && match self.decoration.titlebar_click_capture {
            Some(capture) => capture.button == button,
            None => false,
        };
        if swallow_release {
            self.decoration.titlebar_click_capture = None;
            self.advance_render_generation(RenderGenerationCause::WindowDecoration);
            return (true, DecorationWindowAction::NoAction);
        }
        if pressed {
            let (window_id, root_surface_id, hit) = match scene_hit {
                Some(PointerSceneHit::Decoration { window_id, root_surface_id, hit }) => (
                    window_id,
                    root_surface_id,
                    hit,
                ),
                _ => {
                    return (false, DecorationWindowAction::NoAction);
                },
            };
            if button != LEFT_BUTTON {
                return (true, DecorationWindowAction::NoAction);
            }
            return match hit {
                DecorationHit::Titlebar => {
                    let prior = self.decoration.last_titlebar_click;
                    self.decoration.last_titlebar_click = None;
                    if is_double_click(prior, window_id, now_ms, self.pointer_x, self.pointer_y) {
                        self.decoration.titlebar_click_capture = Some(TitlebarClickCapture { window_id, button });
                        self.advance_render_generation(RenderGenerationCause::WindowDecoration);
                        return (true, DecorationWindowAction::ToggleMaximize(window_id));
                    }
                    self.decoration.last_titlebar_click = Some(
                        TitlebarClick { window_id, time_ms: now_ms, x: self.pointer_x, y: self.pointer_y },
                    );
                    let _ = self.begin_window_interaction_for_root(
                        BeginWindowInteraction {
                            window_id: Some(window_id),
                            root_surface_id,
                            x: self.pointer_x,
                            y: self.pointer_y,
                            kind: WindowInteractionKind::Move,
                            source: WindowInteractionSource::NativeBinding,
                            trigger_button: Some(button),
                            trigger_serial: None,
                            pointer_motion_surface_id: None,
                        },
                    );
                    (true, DecorationWindowAction::NoAction)
                },
                DecorationHit::Button(kind) => {
                    self.decoration.button_capture = Some(
                        DecorationButtonCapture { window_id, root_surface_id, kind, button },
                    );
                    self.advance_render_generation(RenderGenerationCause::WindowDecoration);
                    (true, DecorationWindowAction::Activate(window_id))
                },
                DecorationHit::Resize(edge) => {
                    let _ = self.begin_window_interaction_for_root(
                        BeginWindowInteraction {
                            window_id: Some(window_id),
                            root_surface_id,
                            x: self.pointer_x,
                            y: self.pointer_y,
                            kind: WindowInteractionKind::Resize(resize_edges_for_decoration_edge(edge)),
                            source: WindowInteractionSource::NativeBinding,
                            trigger_button: Some(button),
                            trigger_serial: None,
                            pointer_motion_surface_id: None,
                        },
                    );
                    (true, DecorationWindowAction::Activate(window_id))
                },
            };
        }
        let capture = match self.decoration.button_capture {
            Some(capture) => capture,
            None => {
                return (
                    match scene_hit {
                        Some(PointerSceneHit::Decoration { .. }) => true,
                        _ => false,
                    },
                    DecorationWindowAction::NoAction,
                );
            },
        };
        self.decoration.button_capture = None;
        let same_button = capture.button == button && match scene_hit {
            Some(PointerSceneHit::Decoration { window_id, hit: DecorationHit::Button(kind), .. }) => window_id
                == capture.window_id && kind == capture.kind,
            _ => false,
        };
        let action = if same_button {
            match capture.kind {
                DecorationButtonKind::Minimize => DecorationWindowAction::Minimize(capture.window_id),
                DecorationButtonKind::MaximizeRestore => DecorationWindowAction::ToggleMaximize(capture.window_id),
                DecorationButtonKind::Close => DecorationWindowAction::Close(capture.window_id),
            }
        } else {
            DecorationWindowAction::NoAction
        };
        self.advance_render_generation(RenderGenerationCause::WindowDecoration);
        (true, action)
    }

    /// After a window's decoration mode changed, forgets its decoration
    /// captures, hover and click history, and ends a move or resize that its
    /// server-side decoration started if the window is no longer server-side decorated.
    pub fn reconcile_decoration_transition(
        &mut self,
        window_id: WindowId,
        root_surface_id: u32,
        old_mode: DecorationMode,
        new_mode: DecorationMode,
    )
        ensures
            old_mode == new_mode ==> *final(self) == *old(self),
            old_mode != new_mode ==> {
                let d = old(self).decoration;
                &&& final(self).decoration == DecorationPointerState {
                    button_capture: match d.button_capture {
                        Some(c) if c.root_surface_id == root_surface_id => None,
                        other => other,
                    },
                    button_hover: match d.button_hover {
                        Some(h) if h.window_id == window_id => None,
                        other => other,
                    },
                    titlebar_click_capture: match d.titlebar_click_capture {
                        Some(c) if c.window_id == window_id => None,
                        other => other,
                    },
                    last_titlebar_click: match d.last_titlebar_click {
                        Some(c) if c.window_id == window_id => None,
                        other => other,
                    },
                }
                &&& (new_mode != DecorationMode::ServerSide && (old(self).window_interaction matches Some(i)
                    && i.root_surface_id == root_surface_id && i.source == WindowInteractionSource::NativeBinding))
                    ==> *final(self) == spec_clear_interaction(with_decoration(*old(self), final(self).decoration)).1
                &&& !(new_mode != DecorationMode::ServerSide && (old(self).window_interaction matches Some(i)
                    && i.root_surface_id == root_surface_id && i.source == WindowInteractionSource::NativeBinding))
                    ==> *final(self) == with_decoration(*old(self), final(self).decoration)
            },
    {
        if old_mode == new_mode {
            return;
        }
        match self.decoration.button_capture {
            Some(c) => {
                if c.root_surface_id == root_surface_id {
                    self.decoration.button_capture = None;
                }
            },
            None => {},
        }
        match self.decoration.button_hover {
            Some(h) => {
                if h.window_id == window_id {
                    self.decoration.button_hover = None;
                }
            },
            None => {},
        }
        match self.decoration.titlebar_click_capture {
            Some(c) => {
                if c.window_id == window_id {
                    self.decoration.titlebar_click_capture = None;
                }
            },
            None => {},
        }
        match self.decoration.last_titlebar_click {
            Some(c) => {
                if c.window_id == window_id {
                    self.decoration.last_titlebar_click = None;
                }
            },
            None => {},
        }
        let decoration_owned = match self.window_interaction {
            Some(i) => i.root_surface_id == root_surface_id && i.source == WindowInteractionSource::NativeBinding,
            None => false,
        };
        if new_mode != DecorationMode::ServerSide && decoration_owned {
            self.clear_window_interaction_state(crate::interaction::WindowInteractionEndReason::ModeTransition);
        }
    }
}

} // verus!
