use vstd::prelude::*;

use crate::geometry::Point;

verus! {

/// The mouse buttons that the canvas tells apart.
#[derive(Clone, Copy, Debug, PartialEq, Eq)]
pub enum MouseButton {
    Left,
    Middle,
    Other,
}

/// A window event as the canvas sees it: `M` is a pointer position on the
/// screen, `W` a zoom gesture (a scroll or a pinch).
#[derive(Clone, Copy, Debug)]
pub enum CanvasEvent<M, W> {
    MouseInput { button: MouseButton, pressed: bool },
    /// A key went down or up; `space` tells whether it is the space bar.
    Key { space: bool, pressed: bool },
    CursorMoved(M),
    MouseWheel(W),
    /// A pinch on a touchpad.
    Pinch(W),
    Other,
}

/// The 2D view of the drawing: where it looks, how far it is zoomed, and
/// the state of a pan (with the middle button or the space bar held).
pub struct Camera<S, M> {
    pub position: Point<S>,
    pub zoom: S,
    pub viewport_width: S,
    pub viewport_height: S,
    pub is_panning: bool,
    /// The last pointer position on the screen, once the pointer moved.
    pub last_mouse_pos: Option<M>,
}

impl<S: Copy, M: Copy> Camera<S, M> {
    /// A camera over a viewport of the given size, looking at `position` at
    /// the given zoom, not panning, that has not seen the pointer yet.
    pub fn new(width: S, height: S, position: Point<S>, zoom: S) -> (c: Self)
        ensures
            c == (Camera::<S, M> {
                position,
                zoom,
                viewport_width: width,
                viewport_height: height,
                is_panning: false,
                last_mouse_pos: None,
            }),
    {
        Camera {
            position,
            zoom,
            viewport_width: width,
            viewport_height: height,
            is_panning: false,
            last_mouse_pos: None,
        }
    }

    pub fn update_viewport(&mut self, width: S, height: S)
        ensures
            *final(self) == (Camera { viewport_width: width, viewport_height: height, ..*old(self) }),
    {
        self.viewport_width = width;
        self.viewport_height = height;
    }

    /// What an event does to the camera, and whether the camera consumes
    /// it: the middle button and the space bar start a pan when pressed and
    /// end it when released; a pointer move during a pan moves the view by
    /// the pointer's travel (as `pan` computes it from the position, the
    /// zoom and the two pointer positions) and every move is remembered; the
    /// wheel and a pinch zoom (as `zoom_step` computes it).
    pub open spec fn event_post<P, Z, W>(
        self,
        event: CanvasEvent<M, W>,
        pan: P,
        zoom_step: Z,
        next: Self,
        consumed: bool,
    ) -> bool where
        P: Fn(Point<S>, S, M, M) -> Point<S>,
        Z: Fn(S, W) -> S,
     {
        match event {
            CanvasEvent::MouseInput { button, pressed } => if button == MouseButton::Middle {
                &&& next == (Camera { is_panning: pressed, ..self })
                &&& consumed
            } else {
                &&& next == self
                &&& !consumed
            },
            CanvasEvent::Key { space, pressed } => if space {
                &&& next == (Camera { is_panning: pressed, ..self })
                &&& consumed
            } else {
                &&& next == self
                &&& !consumed
            },
            CanvasEvent::CursorMoved(p) => {
                &&& consumed == self.is_panning
                &&& next.is_panning == self.is_panning
                &&& next.zoom == self.zoom
                &&& next.viewport_width == self.viewport_width
                &&& next.viewport_height == self.viewport_height
                &&& next.last_mouse_pos == Some(p)
                &&& if self.is_panning && self.last_mouse_pos is Some {
                    call_ensures(pan, (self.position, self.zoom, self.last_mouse_pos->0, p), next.position)
                } else {
                    next.position == self.position
                }
            },
            CanvasEvent::MouseWheel(d) => {
                &&& consumed
                &&& call_ensures(zoom_step, (self.zoom, d), next.zoom)
                &&& next == (Camera { zoom: next.zoom, ..self })
            },
            CanvasEvent::Pinch(d) => {
                &&& consumed
                &&& call_ensures(zoom_step, (self.zoom, d), next.zoom)
                &&& next == (Camera { zoom: next.zoom, ..self })
            },
            CanvasEvent::Other => {
                &&& next == self
                &&& !consumed
            },
        }
    }

    /// Lets the camera handle an event; answers whether it consumed it.
    pub fn handle_event<P, Z, W: Copy>(&mut self, event: &CanvasEvent<M, W>, pan: &P, zoom_step: &Z) -> (consumed:
        bool) where
        P: Fn(Point<S>, S, M, M) -> Point<S>,
        Z: Fn(S, W) -> S,

        requires
            forall|a: Point<S>, z: S, m1: M, m2: M| pan.requires((a, z, m1, m2)),
            forall|z: S, d: W| zoom_step.requires((z, d)),
        ensures
            old(self).event_post(*event, *pan, *zoom_step, *final(self), consumed),
    {
        match event {
            CanvasEvent::MouseInput { button, pressed } => {
                match button {
                    MouseButton::Middle => {
                        self.is_panning = *pressed;
                        true
                    },
                    _ => false,
                }
            },
            CanvasEvent::Key { space, pressed } => {
                if *space {
                    self.is_panning = *pressed;
                    true
                } else {
                    false
                }
            },
            CanvasEvent::CursorMoved(p) => {
                if self.is_panning {
                    if let Some(last) = self.last_mouse_pos {
                        self.position = pan(self.position, self.zoom, last, *p);
                    }
                }
                self.last_mouse_pos = Some(*p);
                self.is_panning
            },
            CanvasEvent::MouseWheel(d) => {
                self.zoom = zoom_step(self.zoom, *d);
                true
            },
            CanvasEvent::Pinch(d) => {
                self.zoom = zoom_step(self.zoom, *d);
                true
            },
            CanvasEvent::Other => false,
        }
    }
}

/// The view moves only while a pan is under way, by a pointer move, and the
/// zoom changes only by the wheel or a pinch.
pub proof fn lemma_view_changes_only_by_pan_and_zoom<S: Copy, M: Copy, W, P, Z>(
    camera: Camera<S, M>,
    event: CanvasEvent<M, W>,
    pan: P,
    zoom_step: Z,
    next: Camera<S, M>,
    consumed: bool,
) where
    P: Fn(Point<S>, S, M, M) -> Point<S>,
    Z: Fn(S, W) -> S,

    requires
        camera.event_post(event, pan, zoom_step, next, consumed),
    ensures
        next.position != camera.position ==> camera.is_panning && event is CursorMoved,
        next.zoom != camera.zoom ==> event is MouseWheel || event is Pinch,
        next.viewport_width == camera.viewport_width,
        next.viewport_height == camera.viewport_height,
{
}

/// Holding the space bar and dragging pans exactly as the middle button
/// does: the press starts the pan, each pointer move then moves the view.
pub proof fn lemma_space_drag_pans<S: Copy, M: Copy, W, P, Z>(
    camera: Camera<S, M>,
    pan: P,
    zoom_step: Z,
    pressed: Camera<S, M>,
    moved: Camera<S, M>,
    to: M,
    c1: bool,
    c2: bool,
) where
    P: Fn(Point<S>, S, M, M) -> Point<S>,
    Z: Fn(S, W) -> S,

    requires
        camera.last_mouse_pos is Some,
        camera.event_post(CanvasEvent::<M, W>::Key { space: true, pressed: true }, pan, zoom_step, pressed, c1),
        pressed.event_post(CanvasEvent::<M, W>::CursorMoved(to), pan, zoom_step, moved, c2),
    ensures
        c1 && c2,
        pressed.is_panning,
        call_ensures(pan, (camera.position, camera.zoom, camera.last_mouse_pos->0, to), moved.position),
        moved.last_mouse_pos == Some(to),
{
}

// --- The reference application's input handling ---

/// A change of view that the input handling asks of the camera.
#[derive(Clone, Copy, Debug, PartialEq)]
pub enum ViewChange<M, W> {
    /// Pan by the pointer's travel from the first to the second screen
    /// position.
    Pan(M, M),
    /// Zoom by the gesture (a scroll or a pinch).
    Zoom(W),
}

/// What the input handling keeps between events: whether a pan is under
/// way, and the last pointer position.
#[derive(Clone, Copy, Debug)]
pub struct InputState<M> {
    pub is_panning: bool,
    pub last_mouse_pos: Option<M>,
}

impl<M: Copy> InputState<M> {
    /// Not panning, and the pointer not seen yet.
    pub fn new() -> (r: Self)
        ensures
            r == (InputState::<M> { is_panning: false, last_mouse_pos: None }),
    {
        InputState { is_panning: false, last_mouse_pos: None }
    }

    /// What an event does: an event that the user interface consumed is
    /// consumed and changes nothing; otherwise the middle button and the
    /// space bar start a pan when pressed and end it when released, a
    /// pointer move during a pan asks to pan by the travel from the last
    /// position (every move is remembered), and the wheel and a pinch ask to
    /// zoom. Only the user interface consumes events.
    pub open spec fn input_post<W>(
        self,
        event: CanvasEvent<M, W>,
        ui_consumed: bool,
        next: Self,
        consumed: bool,
        change: Option<ViewChange<M, W>>,
    ) -> bool {
        if ui_consumed {
            next == self && consumed && change is None
        } else {
            &&& !consumed
            &&& match event {
                CanvasEvent::MouseInput { button: MouseButton::Middle, pressed } => next == (InputState {
                    is_panning: pressed,
                    ..self
                }) && change is None,
                CanvasEvent::Key { space: true, pressed } => next == (InputState { is_panning: pressed, ..self })
                    && change is None,
                CanvasEvent::CursorMoved(p) => {
                    &&& next == (InputState { last_mouse_pos: Some(p), ..self })
                    &&& change == if self.is_panning && self.last_mouse_pos is Some {
                        Some(ViewChange::<M, W>::Pan(self.last_mouse_pos->0, p))
                    } else {
                        None
                    }
                },
                CanvasEvent::MouseWheel(d) => next == self && change == Some(ViewChange::<M, W>::Zoom(d)),
                CanvasEvent::Pinch(d) => next == self && change == Some(ViewChange::<M, W>::Zoom(d)),
                _ => next == self && change is None,
            }
        }
    }

    /// Handles an event after the user interface saw it (`ui_consumed`
    /// tells whether it took it); answers whether the event was consumed and
    /// the change of view it asks for.
    pub fn input<W: Copy>(&mut self, event: &CanvasEvent<M, W>, ui_consumed: bool) -> (r: (
        bool,
        Option<ViewChange<M, W>>,
    ))
        ensures
            old(self).input_post(*event, ui_consumed, *final(self), r.0, r.1),
    {
        if ui_consumed {
            return (true, None);
        }
        let change = match event {
            CanvasEvent::MouseInput { button: MouseButton::Middle, pressed } => {
                self.is_panning = *pressed;
                None
            },
            CanvasEvent::Key { space: true, pressed } => {
                self.is_panning = *pressed;
                None
            },
            CanvasEvent::CursorMoved(p) => {
                let mut change: Option<ViewChange<M, W>> = None;
                if self.is_panning {
                    if let Some(last) = self.last_mouse_pos {
                        change = Some(ViewChange::Pan(last, *p));
                    }
                }
                self.last_mouse_pos = Some(*p);
                change
            },
            CanvasEvent::MouseWheel(d) => Some(ViewChange::Zoom(*d)),
            CanvasEvent::Pinch(d) => Some(ViewChange::Zoom(*d)),
            _ => None,
        };
        (false, change)
    }
}

/// With the space bar held, a drag asks to pan by the pointer's travel,
/// exactly as with the middle button.
pub proof fn lemma_input_space_drag_pans<M: Copy, W>(
    state: InputState<M>,
    pressed: InputState<M>,
    moved: InputState<M>,
    from: M,
    to: M,
    c1: bool,
    c2: bool,
    change1: Option<ViewChange<M, W>>,
    change2: Option<ViewChange<M, W>>,
)
    requires
        state.last_mouse_pos == Some(from),
        state.input_post(CanvasEvent::<M, W>::Key { space: true, pressed: true }, false, pressed, c1, change1),
        pressed.input_post(CanvasEvent::<M, W>::CursorMoved(to), false, moved, c2, change2),
    ensures
        change2 == Some(ViewChange::<M, W>::Pan(from, to)),
        moved.is_panning,
        moved.last_mouse_pos == Some(to),
{
}

/// The middle button and the space bar hold a pan exactly while they are
/// down: a press starts it and a release ends it, whatever the state before,
/// both in the camera and in the input handling (for an event that the user
/// interface did not take).
pub proof fn lemma_pan_follows_button<S: Copy, M: Copy, W, P, Z>(
    camera: Camera<S, M>,
    input: InputState<M>,
    event: CanvasEvent<M, W>,
    pressed: bool,
    pan: P,
    zoom_step: Z,
    next_camera: Camera<S, M>,
    next_input: InputState<M>,
    c1: bool,
    c2: bool,
    change: Option<ViewChange<M, W>>,
) where
    P: Fn(Point<S>, S, M, M) -> Point<S>,
    Z: Fn(S, W) -> S,

    requires
        (event == (CanvasEvent::<M, W>::MouseInput { button: MouseButton::Middle, pressed })) || (event
            == (CanvasEvent::<M, W>::Key { space: true, pressed })),
        camera.event_post(event, pan, zoom_step, next_camera, c1),
        input.input_post(event, false, next_input, c2, change),
    ensures
        next_camera.is_panning == pressed,
        next_camera.position == camera.position,
        next_input.is_panning == pressed,
        change is None,
{
}

/// After the pan button is released, a pointer move no longer pans: the
/// camera stays where it is, and the input handling asks for no change.
pub proof fn lemma_release_stops_panning<S: Copy, M: Copy, W, P, Z>(
    camera: Camera<S, M>,
    input: InputState<M>,
    release: CanvasEvent<M, W>,
    to: M,
    pan: P,
    zoom_step: Z,
    camera1: Camera<S, M>,
    camera2: Camera<S, M>,
    input1: InputState<M>,
    input2: InputState<M>,
    c1: bool,
    c2: bool,
    c3: bool,
    c4: bool,
    change1: Option<ViewChange<M, W>>,
    change2: Option<ViewChange<M, W>>,
) where
    P: Fn(Point<S>, S, M, M) -> Point<S>,
    Z: Fn(S, W) -> S,

    requires
        (release == (CanvasEvent::<M, W>::MouseInput { button: MouseButton::Middle, pressed: false })) || (
        release == (CanvasEvent::<M, W>::Key { space: true, pressed: false })),
        camera.event_post(release, pan, zoom_step, camera1, c1),
        camera1.event_post(CanvasEvent::<M, W>::CursorMoved(to), pan, zoom_step, camera2, c2),
        input.input_post(release, false, input1, c3, change1),
        input1.input_post(CanvasEvent::<M, W>::CursorMoved(to), false, input2, c4, change2),
    ensures
        camera2.position == camera.position,
        !c2,
        change2 is None,
        !input2.is_panning,
{
}

} // verus!
