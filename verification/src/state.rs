use vstd::prelude::*;

use crate::canvas::{Camera, CanvasEvent};
use crate::geometry::{Entity, GeometryStore, Point, Segment};
use crate::tools::{ops_callable, LineTool, PlaneOps, Tool, ToolManager};

verus! {

/// The view arithmetic that the event handling calls on the application's
/// scalars: panning and zooming the camera, turning a screen position into
/// a snapped drawing position, and measuring an entity's distance to a
/// point for picking.
pub struct ViewOps<P, Z, T, E> {
    /// The camera position after the pointer travelled from the first to
    /// the second screen position during a pan, at the given zoom.
    pub pan: P,
    /// The zoom after a scroll.
    pub zoom_step: Z,
    /// The drawing position of a screen position, snapped to the grid, for
    /// the camera position, zoom and grid size given.
    pub to_world: T,
    /// The order key of the distance from an entity to a point.
    pub entity_key: E,
}

/// Every operation of `view` may be called on any arguments.
pub open spec fn view_callable<S, M, W, P, Z, T, E>(view: &ViewOps<P, Z, T, E>) -> bool where
    P: Fn(Point<S>, S, M, M) -> Point<S>,
    Z: Fn(S, W) -> S,
    T: Fn(Point<S>, S, S, M) -> Point<S>,
    E: Fn(&Entity<S>, Point<S>) -> u32,
 {
    &&& forall|a: Point<S>, z: S, m1: M, m2: M| view.pan.requires((a, z, m1, m2))
    &&& forall|z: S, d: W| view.zoom_step.requires((z, d))
    &&& forall|p: Point<S>, z: S, g: S, m: M| view.to_world.requires((p, z, g, m))
    &&& forall|e: &Entity<S>, p: Point<S>| view.entity_key.requires((e, p))
}

/// The state that the window and the agent share: the drawing, the camera,
/// the tools and the grid.
pub struct AppState<S, M, U = LineTool<S>> {
    pub geometry: GeometryStore<S>,
    pub camera: Camera<S, M>,
    pub tool_manager: ToolManager<S, U>,
    pub grid_size: S,
}

/// What handling a window event came to: whether the camera consumed it,
/// and the index of the entity that the active tool removed, if any.
#[derive(Clone, Copy, Debug, PartialEq, Eq)]
pub struct EventOutcome {
    pub consumed: bool,
    pub deleted: Option<usize>,
}

impl<S: Copy, M: Copy, U: Tool<S>> AppState<S, M, U> {
    /// Handles a window event: the camera first (panning and zooming); an
    /// event that the camera does not consume goes to the active tool, with
    /// the camera as the event left it. Answers whether the camera consumed
    /// the event and which entity the tool removed.
    pub fn handle_window_event<W, P, Z, T, E, R, D, O, K>(
        &mut self,
        event: &CanvasEvent<M, W>,
        view: &ViewOps<P, Z, T, E>,
        ops: &PlaneOps<R, D, O, K>,
    ) -> (outcome: EventOutcome) where
        W: Copy,
        P: Fn(Point<S>, S, M, M) -> Point<S>,
        Z: Fn(S, W) -> S,
        T: Fn(Point<S>, S, S, M) -> Point<S>,
        E: Fn(&Entity<S>, Point<S>) -> u32,
        R: Fn(Point<S>, Point<S>) -> S,
        D: Fn(Point<S>, Point<S>, S) -> (Segment<S>, Segment<S>),
        O: Fn(Point<S>, Point<S>, Point<S>) -> Segment<S>,
        K: Fn(Point<S>, Point<S>) -> u32,

        requires
            view_callable::<S, M, W, P, Z, T, E>(view),
            ops_callable(ops),
        ensures
            old(self).camera.event_post(*event, view.pan, view.zoom_step, final(self).camera, outcome.consumed),
            final(self).grid_size == old(self).grid_size,
            if outcome.consumed {
                &&& old(self).geometry.same_as(final(self).geometry)
                &&& final(self).tool_manager == old(self).tool_manager
                &&& outcome.deleted is None
            } else {
                old(self).tool_manager.handle_event_post(
                    *event,
                    old(self).geometry,
                    final(self).camera,
                    old(self).grid_size,
                    view.to_world,
                    view.entity_key,
                    *ops,
                    final(self).tool_manager,
                    final(self).geometry,
                    outcome.deleted,
                )
            },
    {
        if self.camera.handle_event(event, &view.pan, &view.zoom_step) {
            return EventOutcome { consumed: true, deleted: None };
        }
        let deleted = self.tool_manager.handle_event(
            event,
            &mut self.geometry,
            &self.camera,
            self.grid_size,
            &view.to_world,
            &view.entity_key,
            ops,
        );
        EventOutcome { consumed: false, deleted }
    }
}

} // verus!
