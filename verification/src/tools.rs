use vstd::prelude::*;

use crate::canvas::{Camera, CanvasEvent, MouseButton};
use crate::geometry::{line, nearest_answer, pick_keys, Entity, GeometryStore, Point, Segment};

verus! {

/// The plane arithmetic that the tools call on the application's scalars.
/// The library decides when each is called and on which points, and places
/// what comes back into the drawing; it assumes nothing of the values.
pub struct PlaneOps<R, D, O, K> {
    /// The distance between two points: the radius of a circle from its
    /// center and a point on its rim.
    pub radius: R,
    /// The two sides of a band of the given width around the segment from
    /// the first to the second point.
    pub parallel: D,
    /// The copy of the segment from the first to the second point, moved
    /// along its normal so that it passes through the third point.
    pub offset_through: O,
    /// The order key of the distance between two points (a key that orders
    /// as the distances do).
    pub distance_key: K,
}

/// Every operation of `ops` may be called on any arguments.
pub open spec fn ops_callable<
    S,
    R: Fn(Point<S>, Point<S>) -> S,
    D: Fn(Point<S>, Point<S>, S) -> (Segment<S>, Segment<S>),
    O: Fn(Point<S>, Point<S>, Point<S>) -> Segment<S>,
    K: Fn(Point<S>, Point<S>) -> u32,
>(ops: &PlaneOps<R, D, O, K>) -> bool {
    &&& forall|a: Point<S>, b: Point<S>| ops.radius.requires((a, b))
    &&& forall|a: Point<S>, b: Point<S>, w: S| ops.parallel.requires((a, b, w))
    &&& forall|a: Point<S>, b: Point<S>, c: Point<S>| ops.offset_through.requires((a, b, c))
    &&& forall|a: Point<S>, b: Point<S>| ops.distance_key.requires((a, b))
}

/// The graph of a two-argument operation: `graph2(f)(a, b, t)` holds when
/// `f` may return `t` on `a` and `b`.
pub open spec fn graph2<A, B, T, F: Fn(A, B) -> T>(f: F) -> spec_fn(A, B, T) -> bool {
    |a: A, b: B, t: T| call_ensures(f, (a, b), t)
}

/// The graph of a three-argument operation.
pub open spec fn graph3<A, B, C, T, F: Fn(A, B, C) -> T>(f: F) -> spec_fn(A, B, C, T) -> bool {
    |a: A, b: B, c: C, t: T| call_ensures(f, (a, b, c), t)
}

/// What is known of the plane operations: for each, the relation between
/// its arguments and the results that it may return.
pub type PlaneRelations<S> = PlaneOps<
    spec_fn(Point<S>, Point<S>, S) -> bool,
    spec_fn(Point<S>, Point<S>, S, (Segment<S>, Segment<S>)) -> bool,
    spec_fn(Point<S>, Point<S>, Point<S>, Segment<S>) -> bool,
    spec_fn(Point<S>, Point<S>, u32) -> bool,
>;

/// The relations of the operations in `ops`.
pub open spec fn relations<S, R, D, O, K>(ops: PlaneOps<R, D, O, K>) -> PlaneRelations<S> where
    R: Fn(Point<S>, Point<S>) -> S,
    D: Fn(Point<S>, Point<S>, S) -> (Segment<S>, Segment<S>),
    O: Fn(Point<S>, Point<S>, Point<S>) -> Segment<S>,
    K: Fn(Point<S>, Point<S>) -> u32,
 {
    PlaneOps {
        radius: graph2(ops.radius),
        parallel: graph3(ops.parallel),
        offset_through: graph3(ops.offset_through),
        distance_key: graph2(ops.distance_key),
    }
}

/// The two lines of a band whose sides are `sides`.
pub open spec fn band_lines<S>(sides: (Segment<S>, Segment<S>)) -> Seq<Entity<S>> {
    seq![line(sides.0.0, sides.0.1), line(sides.1.0, sides.1.1)]
}

/// `e` is a polyline through `points`.
pub open spec fn is_polyline_of<S>(e: Entity<S>, points: Seq<Point<S>>) -> bool {
    e matches Entity::Polyline { points: p } && p@ == points
}

/// A copy of the points, in order.
fn copy_points<S: Copy>(points: &Vec<Point<S>>) -> (r: Vec<Point<S>>)
    ensures
        r@ == points@,
{
    let mut r: Vec<Point<S>> = Vec::new();
    let n = points.len();
    for i in 0..n
        invariant
            n == points@.len(),
            r@ == points@.take(i as int),
    {
        let p: Point<S> = points[i];
        r.push(p);
        assert(points@.take(i + 1) =~= points@.take(i as int).push(p));
    }
    assert(points@.take(n as int) =~= points@);
    r
}

// --- Line tool: press at the start, drag, release at the end ---

pub struct LineTool<S> {
    pub start_pos: Option<Point<S>>,
    pub is_dragging: bool,
}

impl<S: Copy> LineTool<S> {
    pub open spec fn new_spec() -> Self {
        LineTool { start_pos: None, is_dragging: false }
    }

    pub fn new() -> (t: Self)
        ensures
            t == (LineTool::<S> { start_pos: None, is_dragging: false }),
    {
        LineTool { start_pos: None, is_dragging: false }
    }

    pub fn name(&self) -> (r: &'static str)
        ensures
            r@ == "line"@,
    {
        "line"
    }

    pub open spec fn down_post(self, pos: Point<S>, next: Self) -> bool {
        next == (LineTool::<S> { start_pos: Some(pos), is_dragging: true })
    }

    pub open spec fn move_post(self, store: GeometryStore<S>, pos: Point<S>, next_store: GeometryStore<S>) -> bool {
        if self.is_dragging && self.start_pos is Some {
            store.shows_preview(seq![line(self.start_pos->0, pos)], next_store)
        } else {
            store.same_as(next_store)
        }
    }

    pub open spec fn up_post(
        self,
        store: GeometryStore<S>,
        pos: Point<S>,
        next: Self,
        next_store: GeometryStore<S>,
    ) -> bool {
        if self.is_dragging {
            &&& next == (LineTool::<S> { start_pos: None, is_dragging: false })
            &&& match self.start_pos {
                Some(start) => store.commits(seq![line(start, pos)], next_store),
                None => store.same_as(next_store),
            }
        } else {
            next == self && store.same_as(next_store)
        }
    }

    pub fn on_mouse_down(&mut self, pos: Point<S>, store: &mut GeometryStore<S>)
        ensures
            old(self).down_post(pos, *final(self)),
            old(store).same_as(*final(store)),
    {
        self.start_pos = Some(pos);
        self.is_dragging = true;
    }

    pub fn on_mouse_move(&self, pos: Point<S>, store: &mut GeometryStore<S>)
        ensures
            self.move_post(*old(store), pos, *final(store)),
    {
        if self.is_dragging {
            if let Some(start) = self.start_pos {
                store.temp_entities.clear();
                store.temp_entities.push(Entity::Line { start, end: pos });
            }
        }
    }

    pub fn on_mouse_up(&mut self, pos: Point<S>, store: &mut GeometryStore<S>)
        ensures
            old(self).up_post(*old(store), pos, *final(self), *final(store)),
    {
        if self.is_dragging {
            if let Some(start) = self.start_pos {
                store.entities.push(Entity::Line { start, end: pos });
                store.temp_entities.clear();
            }
            self.start_pos = None;
            self.is_dragging = false;
        }
    }
}

// --- Circle tool: press at the center, drag, release on the rim ---

pub struct CircleTool<S> {
    pub center: Option<Point<S>>,
    pub is_dragging: bool,
}

impl<S: Copy> CircleTool<S> {
    pub fn new() -> (t: Self)
        ensures
            t == (CircleTool::<S> { center: None, is_dragging: false }),
    {
        CircleTool { center: None, is_dragging: false }
    }

    pub fn name(&self) -> (r: &'static str)
        ensures
            r@ == "circle"@,
    {
        "circle"
    }

    pub open spec fn down_post(self, pos: Point<S>, next: Self) -> bool {
        next == (CircleTool::<S> { center: Some(pos), is_dragging: true })
    }

    pub open spec fn move_post(
        self,
        store: GeometryStore<S>,
        pos: Point<S>,
        radius: spec_fn(Point<S>, Point<S>, S) -> bool,
        next_store: GeometryStore<S>,
    ) -> bool {
        if self.is_dragging && self.center is Some {
            let center = self.center->0;
            exists|r: S|
                #[trigger] radius(center, pos, r) && store.shows_preview(
                    seq![Entity::Circle { center, radius: r }],
                    next_store,
                )
        } else {
            store.same_as(next_store)
        }
    }

    pub open spec fn up_post(
        self,
        store: GeometryStore<S>,
        pos: Point<S>,
        radius: spec_fn(Point<S>, Point<S>, S) -> bool,
        next: Self,
        next_store: GeometryStore<S>,
    ) -> bool {
        if self.is_dragging {
            &&& next == (CircleTool::<S> { center: None, is_dragging: false })
            &&& match self.center {
                Some(center) => exists|r: S|
                    #[trigger] radius(center, pos, r) && store.commits(
                        seq![Entity::Circle { center, radius: r }],
                        next_store,
                    ),
                None => store.same_as(next_store),
            }
        } else {
            next == self && store.same_as(next_store)
        }
    }

    pub fn on_mouse_down(&mut self, pos: Point<S>, store: &mut GeometryStore<S>)
        ensures
            old(self).down_post(pos, *final(self)),
            old(store).same_as(*final(store)),
    {
        self.center = Some(pos);
        self.is_dragging = true;
    }

    pub fn on_mouse_move<R: Fn(Point<S>, Point<S>) -> S>(
        &self,
        pos: Point<S>,
        store: &mut GeometryStore<S>,
        radius: &R,
    )
        requires
            forall|a: Point<S>, b: Point<S>| radius.requires((a, b)),
        ensures
            self.move_post(*old(store), pos, graph2(*radius), *final(store)),
    {
        if self.is_dragging {
            if let Some(center) = self.center {
                let r = radius(center, pos);
                assert(graph2(*radius)(center, pos, r));
                store.temp_entities.clear();
                store.temp_entities.push(Entity::Circle { center, radius: r });
            }
        }
    }

    pub fn on_mouse_up<R: Fn(Point<S>, Point<S>) -> S>(
        &mut self,
        pos: Point<S>,
        store: &mut GeometryStore<S>,
        radius: &R,
    )
        requires
            forall|a: Point<S>, b: Point<S>| radius.requires((a, b)),
        ensures
            old(self).up_post(*old(store), pos, graph2(*radius), *final(self), *final(store)),
    {
        if self.is_dragging {
            if let Some(center) = self.center {
                let r = radius(center, pos);
                assert(graph2(*radius)(center, pos, r));
                store.entities.push(Entity::Circle { center, radius: r });
                store.temp_entities.clear();
                assert(store.entities@ =~= old(store).entities@ + seq![Entity::Circle { center, radius: r }]);
            }
            self.center = None;
            self.is_dragging = false;
        }
    }
}

// --- Rectangle tool: press at one corner, drag, release at the opposite one ---

pub struct RectTool<S> {
    pub start_pos: Option<Point<S>>,
    pub is_dragging: bool,
}

impl<S: Copy> RectTool<S> {
    pub fn new() -> (t: Self)
        ensures
            t == (RectTool::<S> { start_pos: None, is_dragging: false }),
    {
        RectTool { start_pos: None, is_dragging: false }
    }

    pub fn name(&self) -> (r: &'static str)
        ensures
            r@ == "rect"@,
    {
        "rect"
    }

    pub open spec fn down_post(self, pos: Point<S>, next: Self) -> bool {
        next == (RectTool::<S> { start_pos: Some(pos), is_dragging: true })
    }

    pub open spec fn move_post(self, store: GeometryStore<S>, pos: Point<S>, next_store: GeometryStore<S>) -> bool {
        if self.is_dragging && self.start_pos is Some {
            store.shows_preview(seq![Entity::Rect { p1: self.start_pos->0, p2: pos }], next_store)
        } else {
            store.same_as(next_store)
        }
    }

    pub open spec fn up_post(
        self,
        store: GeometryStore<S>,
        pos: Point<S>,
        next: Self,
        next_store: GeometryStore<S>,
    ) -> bool {
        if self.is_dragging {
            &&& next == (RectTool::<S> { start_pos: None, is_dragging: false })
            &&& match self.start_pos {
                Some(start) => store.commits(seq![Entity::Rect { p1: start, p2: pos }], next_store),
                None => store.same_as(next_store),
            }
        } else {
            next == self && store.same_as(next_store)
        }
    }

    pub fn on_mouse_down(&mut self, pos: Point<S>, store: &mut GeometryStore<S>)
        ensures
            old(self).down_post(pos, *final(self)),
            old(store).same_as(*final(store)),
    {
        self.start_pos = Some(pos);
        self.is_dragging = true;
    }

    pub fn on_mouse_move(&self, pos: Point<S>, store: &mut GeometryStore<S>)
        ensures
            self.move_post(*old(store), pos, *final(store)),
    {
        if self.is_dragging {
            if let Some(start) = self.start_pos {
                store.temp_entities.clear();
                store.temp_entities.push(Entity::Rect { p1: start, p2: pos });
            }
        }
    }

    pub fn on_mouse_up(&mut self, pos: Point<S>, store: &mut GeometryStore<S>)
        ensures
            old(self).up_post(*old(store), pos, *final(self), *final(store)),
    {
        if self.is_dragging {
            if let Some(start) = self.start_pos {
                store.entities.push(Entity::Rect { p1: start, p2: pos });
                store.temp_entities.clear();
            }
            self.start_pos = None;
            self.is_dragging = false;
        }
    }
}

// --- Double line tool: a band of two parallel lines of a fixed width ---

pub struct DoubleLineTool<S> {
    pub start_pos: Option<Point<S>>,
    pub is_dragging: bool,
    pub width: S,
}

impl<S: Copy> DoubleLineTool<S> {
    /// An idle double line tool that draws bands of the given width.
    pub fn new(width: S) -> (t: Self)
        ensures
            t == (DoubleLineTool::<S> { start_pos: None, is_dragging: false, width }),
    {
        DoubleLineTool { start_pos: None, is_dragging: false, width }
    }

    pub fn name(&self) -> (r: &'static str)
        ensures
            r@ == "double_line"@,
    {
        "double_line"
    }

    pub open spec fn down_post(self, pos: Point<S>, next: Self) -> bool {
        next == (DoubleLineTool::<S> { start_pos: Some(pos), is_dragging: true, width: self.width })
    }

    pub open spec fn move_post(
        self,
        store: GeometryStore<S>,
        pos: Point<S>,
        parallel: spec_fn(Point<S>, Point<S>, S, (Segment<S>, Segment<S>)) -> bool,
        next_store: GeometryStore<S>,
    ) -> bool {
        if self.is_dragging && self.start_pos is Some {
            let start = self.start_pos->0;
            exists|sides: (Segment<S>, Segment<S>)|
                #[trigger] parallel(start, pos, self.width, sides)
                    && store.shows_preview(band_lines(sides), next_store)
        } else {
            store.same_as(next_store)
        }
    }

    pub open spec fn up_post(
        self,
        store: GeometryStore<S>,
        pos: Point<S>,
        parallel: spec_fn(Point<S>, Point<S>, S, (Segment<S>, Segment<S>)) -> bool,
        next: Self,
        next_store: GeometryStore<S>,
    ) -> bool {
        if self.is_dragging {
            &&& next == (DoubleLineTool::<S> { start_pos: None, is_dragging: false, width: self.width })
            &&& match self.start_pos {
                Some(start) => exists|sides: (Segment<S>, Segment<S>)|
                    #[trigger] parallel(start, pos, self.width, sides)
                        && store.commits(band_lines(sides), next_store),
                None => store.same_as(next_store),
            }
        } else {
            next == self && store.same_as(next_store)
        }
    }

    pub fn on_mouse_down(&mut self, pos: Point<S>, store: &mut GeometryStore<S>)
        ensures
            old(self).down_post(pos, *final(self)),
            old(store).same_as(*final(store)),
    {
        self.start_pos = Some(pos);
        self.is_dragging = true;
    }

    pub fn on_mouse_move<D: Fn(Point<S>, Point<S>, S) -> (Segment<S>, Segment<S>)>(
        &self,
        pos: Point<S>,
        store: &mut GeometryStore<S>,
        parallel: &D,
    )
        requires
            forall|a: Point<S>, b: Point<S>, w: S| parallel.requires((a, b, w)),
        ensures
            self.move_post(*old(store), pos, graph3(*parallel), *final(store)),
    {
        if self.is_dragging {
            if let Some(start) = self.start_pos {
                let sides = parallel(start, pos, self.width);
                assert(graph3(*parallel)(start, pos, self.width, sides));
                store.temp_entities.clear();
                store.temp_entities.push(Entity::Line { start: sides.0.0, end: sides.0.1 });
                store.temp_entities.push(Entity::Line { start: sides.1.0, end: sides.1.1 });
                assert(store.temp_entities@ =~= band_lines(sides));
            }
        }
    }

    pub fn on_mouse_up<D: Fn(Point<S>, Point<S>, S) -> (Segment<S>, Segment<S>)>(
        &mut self,
        pos: Point<S>,
        store: &mut GeometryStore<S>,
        parallel: &D,
    )
        requires
            forall|a: Point<S>, b: Point<S>, w: S| parallel.requires((a, b, w)),
        ensures
            old(self).up_post(*old(store), pos, graph3(*parallel), *final(self), *final(store)),
    {
        if self.is_dragging {
            if let Some(start) = self.start_pos {
                let sides = parallel(start, pos, self.width);
                assert(graph3(*parallel)(start, pos, self.width, sides));
                store.entities.push(Entity::Line { start: sides.0.0, end: sides.0.1 });
                store.entities.push(Entity::Line { start: sides.1.0, end: sides.1.1 });
                store.temp_entities.clear();
                assert(store.entities@ =~= old(store).entities@ + band_lines(sides));
            }
            self.start_pos = None;
            self.is_dragging = false;
        }
    }
}

// --- Offset tool: press on a line, drag to where its parallel copy goes ---

pub struct OffsetTool {
    pub selected_idx: Option<usize>,
    pub is_dragging: bool,
}

/// The line at index `idx` of the drawing, if there is one and it is a line.
pub open spec fn line_at<S>(store: GeometryStore<S>, idx: usize) -> Option<Segment<S>> {
    if idx < store.entities@.len() {
        match store.entities@[idx as int] {
            Entity::Line { start, end } => Some((start, end)),
            _ => None,
        }
    } else {
        None
    }
}

/// The line at index `idx`, read from the drawing.
pub fn get_line<S: Copy>(store: &GeometryStore<S>, idx: usize) -> (r: Option<Segment<S>>)
    ensures
        r == line_at(*store, idx),
{
    if idx < store.entities.len() {
        match &store.entities[idx] {
            Entity::Line { start, end } => Some((*start, *end)),
            _ => None,
        }
    } else {
        None
    }
}

impl OffsetTool {
    pub fn new() -> (t: Self)
        ensures
            t == (OffsetTool { selected_idx: None, is_dragging: false }),
    {
        OffsetTool { selected_idx: None, is_dragging: false }
    }

    pub fn name(&self) -> (r: &'static str)
        ensures
            r@ == "offset"@,
    {
        "offset"
    }

    /// A press selects the candidate nearest to the pointer within the pick
    /// radius, by the pick keys `keys`; a press far from every candidate
    /// leaves the tool as it was.
    pub open spec fn down_post(self, keys: Seq<u32>, pick_key: u32, next: Self) -> bool {
        exists|r: Option<usize>|
            #[trigger] nearest_answer(keys, pick_key, r) && match r {
                Some(i) => next == (OffsetTool { selected_idx: Some(i), is_dragging: true }),
                None => next == self,
            }
    }

    pub open spec fn move_post<S>(
        self,
        store: GeometryStore<S>,
        pos: Point<S>,
        offset_through: spec_fn(Point<S>, Point<S>, Point<S>, Segment<S>) -> bool,
        next_store: GeometryStore<S>,
    ) -> bool {
        if self.is_dragging && self.selected_idx is Some && line_at(store, self.selected_idx->0) is Some {
            let (start, end) = line_at(store, self.selected_idx->0)->0;
            exists|seg: Segment<S>|
                #[trigger] offset_through(start, end, pos, seg)
                    && store.shows_preview(seq![line(seg.0, seg.1)], next_store)
        } else {
            store.same_as(next_store)
        }
    }

    pub open spec fn up_post<S>(
        self,
        store: GeometryStore<S>,
        pos: Point<S>,
        offset_through: spec_fn(Point<S>, Point<S>, Point<S>, Segment<S>) -> bool,
        next: Self,
        next_store: GeometryStore<S>,
    ) -> bool {
        if self.is_dragging {
            &&& next == (OffsetTool { selected_idx: None, is_dragging: false })
            &&& if self.selected_idx is Some && line_at(store, self.selected_idx->0) is Some {
                let (start, end) = line_at(store, self.selected_idx->0)->0;
                exists|seg: Segment<S>|
                    #[trigger] offset_through(start, end, pos, seg)
                        && store.commits(seq![line(seg.0, seg.1)], next_store)
            } else {
                store.same_as(next_store)
            }
        } else {
            next == self && store.same_as(next_store)
        }
    }

    /// `distance_keys[i]` is the order key of the distance from the pointer
    /// to entity `i`, and `pick_key` that of the pick radius.
    pub fn on_mouse_down<S>(&mut self, store: &GeometryStore<S>, distance_keys: &Vec<u32>, pick_key: u32)
        requires
            distance_keys@.len() == store.entities@.len(),
        ensures
            old(self).down_post(pick_keys(store.entities@, distance_keys@), pick_key, *final(self)),
    {
        let found = store.find_nearest_entity(distance_keys, pick_key);
        if let Some(idx) = found {
            self.selected_idx = Some(idx);
            self.is_dragging = true;
        }
    }

    pub fn on_mouse_move<S: Copy, O: Fn(Point<S>, Point<S>, Point<S>) -> Segment<S>>(
        &self,
        pos: Point<S>,
        store: &mut GeometryStore<S>,
        offset_through: &O,
    )
        requires
            forall|a: Point<S>, b: Point<S>, c: Point<S>| offset_through.requires((a, b, c)),
        ensures
            self.move_post(*old(store), pos, graph3(*offset_through), *final(store)),
    {
        if self.is_dragging {
            if let Some(idx) = self.selected_idx {
                if let Some((start, end)) = get_line(store, idx) {
                    let seg = offset_through(start, end, pos);
                    assert(graph3(*offset_through)(start, end, pos, seg));
                    store.temp_entities.clear();
                    store.temp_entities.push(Entity::Line { start: seg.0, end: seg.1 });
                }
            }
        }
    }

    pub fn on_mouse_up<S: Copy, O: Fn(Point<S>, Point<S>, Point<S>) -> Segment<S>>(
        &mut self,
        pos: Point<S>,
        store: &mut GeometryStore<S>,
        offset_through: &O,
    )
        requires
            forall|a: Point<S>, b: Point<S>, c: Point<S>| offset_through.requires((a, b, c)),
        ensures
            old(self).up_post(*old(store), pos, graph3(*offset_through), *final(self), *final(store)),
    {
        if self.is_dragging {
            if let Some(idx) = self.selected_idx {
                if let Some((start, end)) = get_line(store, idx) {
                    let seg = offset_through(start, end, pos);
                    assert(graph3(*offset_through)(start, end, pos, seg));
                    store.entities.push(Entity::Line { start: seg.0, end: seg.1 });
                    store.temp_entities.clear();
                    assert(store.entities@ =~= old(store).entities@ + seq![line(seg.0, seg.1)]);
                }
            }
            self.selected_idx = None;
            self.is_dragging = false;
        }
    }
}

// --- Delete tool: press on an entity, release to remove it ---

pub struct DeleteTool {
    pub target_idx: Option<usize>,
}

impl DeleteTool {
    pub fn new() -> (t: Self)
        ensures
            t == (DeleteTool { target_idx: None }),
    {
        DeleteTool { target_idx: None }
    }

    pub fn name(&self) -> (r: &'static str)
        ensures
            r@ == "delete"@,
    {
        "delete"
    }

    /// A press targets the candidate nearest to the pointer within the pick
    /// radius, by the pick keys `keys`, or nothing.
    pub open spec fn down_post(self, keys: Seq<u32>, pick_key: u32, next: Self) -> bool {
        exists|r: Option<usize>| #[trigger]
            nearest_answer(keys, pick_key, r) && next == (DeleteTool { target_idx: r })
    }

    /// A release removes the targeted entity, if it is still in the drawing,
    /// and forgets the target.
    pub open spec fn up_post<S>(self, store: GeometryStore<S>, next: Self, next_store: GeometryStore<S>) -> bool {
        &&& next == (DeleteTool { target_idx: None })
        &&& if self.target_idx is Some && self.target_idx->0 < store.entities@.len() {
            &&& next_store.entities@ =~= store.entities@.remove(self.target_idx->0 as int)
            &&& next_store.temp_entities@ =~= store.temp_entities@
        } else {
            store.same_as(next_store)
        }
    }

    pub fn on_mouse_down<S>(&mut self, store: &GeometryStore<S>, distance_keys: &Vec<u32>, pick_key: u32)
        requires
            distance_keys@.len() == store.entities@.len(),
        ensures
            old(self).down_post(pick_keys(store.entities@, distance_keys@), pick_key, *final(self)),
    {
        let found = store.find_nearest_entity(distance_keys, pick_key);
        self.target_idx = found;
    }

    /// Moving the pointer does nothing.
    pub fn on_mouse_move<S>(&self, store: &mut GeometryStore<S>)
        ensures
            old(store).same_as(*final(store)),
    {
    }

    /// The index that a release removes: the target's, while it is still
    /// in the drawing.
    pub open spec fn removed_index<S>(self, store: GeometryStore<S>) -> Option<usize> {
        if self.target_idx is Some && self.target_idx->0 < store.entities@.len() {
            self.target_idx
        } else {
            None
        }
    }

    /// Removes the targeted entity and answers its index (`None` when
    /// nothing was removed).
    pub fn on_mouse_up<S>(&mut self, store: &mut GeometryStore<S>) -> (deleted: Option<usize>)
        ensures
            old(self).up_post(*old(store), *final(self), *final(store)),
            deleted == old(self).removed_index(*old(store)),
    {
        let mut deleted: Option<usize> = None;
        if let Some(idx) = self.target_idx {
            if idx < store.entities.len() {
                store.entities.remove(idx);
                deleted = Some(idx);
            }
        }
        self.target_idx = None;
        deleted
    }
}

// --- Polyline tool: each press adds a vertex; a press on the last vertex ends ---

pub struct PolylineTool<S> {
    pub points: Vec<Point<S>>,
}

impl<S: Copy> PolylineTool<S> {
    pub fn new() -> (t: Self)
        ensures
            t.points@ == Seq::<Point<S>>::empty(),
    {
        PolylineTool { points: Vec::new() }
    }

    pub fn name(&self) -> (r: &'static str)
        ensures
            r@ == "polyline"@,
    {
        "polyline"
    }

    /// A press close to the last vertex (its distance key below
    /// `close_key`) ends the polyline: it is committed when it has two
    /// vertices or more, and the tool starts afresh. Any other press adds a
    /// vertex.
    pub open spec fn down_post(
        self,
        store: GeometryStore<S>,
        pos: Point<S>,
        distance_key: spec_fn(Point<S>, Point<S>, u32) -> bool,
        close_key: u32,
        next: Self,
        next_store: GeometryStore<S>,
    ) -> bool {
        let pts = self.points@;
        if pts.len() > 0 {
            exists|k: u32|
                #[trigger] distance_key(pos, pts.last(), k) && if k < close_key {
                    &&& next.points@ =~= Seq::<Point<S>>::empty()
                    &&& next_store.temp_entities@ =~= Seq::<Entity<S>>::empty()
                    &&& if pts.len() >= 2 {
                        &&& next_store.entities@.len() == store.entities@.len() + 1
                        &&& next_store.entities@.take(store.entities@.len() as int) =~= store.entities@
                        &&& is_polyline_of(next_store.entities@.last(), pts)
                    } else {
                        next_store.entities@ =~= store.entities@
                    }
                } else {
                    next.points@ =~= pts.push(pos) && store.same_as(next_store)
                }
        } else {
            next.points@ =~= seq![pos] && store.same_as(next_store)
        }
    }

    /// While vertices are placed, the preview is the polyline through them
    /// and the pointer.
    pub open spec fn move_post(self, store: GeometryStore<S>, pos: Point<S>, next_store: GeometryStore<S>) -> bool {
        if self.points@.len() > 0 {
            &&& next_store.entities@ =~= store.entities@
            &&& next_store.temp_entities@.len() == 1
            &&& is_polyline_of(next_store.temp_entities@[0], self.points@.push(pos))
        } else {
            store.same_as(next_store)
        }
    }

    pub fn on_mouse_down<K: Fn(Point<S>, Point<S>) -> u32>(
        &mut self,
        pos: Point<S>,
        store: &mut GeometryStore<S>,
        distance_key: &K,
        close_key: u32,
    )
        requires
            forall|a: Point<S>, b: Point<S>| distance_key.requires((a, b)),
        ensures
            old(self).down_post(*old(store), pos, graph2(*distance_key), close_key, *final(self), *final(store)),
    {
        let n = self.points.len();
        if n > 0 {
            let last = self.points[n - 1];
            let k = distance_key(pos, last);
            assert(last == old(self).points@.last());
            assert(graph2(*distance_key)(pos, old(self).points@.last(), k));
            if k < close_key {
                if n >= 2 {
                    let pts = copy_points(&self.points);
                    store.entities.push(Entity::Polyline { points: pts });
                    assert(store.entities@.take(old(store).entities@.len() as int) =~= old(store).entities@);
                }
                self.points.clear();
                store.temp_entities.clear();
                return ;
            }
        }
        self.points.push(pos);
    }

    pub fn on_mouse_move(&self, pos: Point<S>, store: &mut GeometryStore<S>)
        ensures
            self.move_post(*old(store), pos, *final(store)),
    {
        if self.points.len() > 0 {
            let mut preview = copy_points(&self.points);
            preview.push(pos);
            store.temp_entities.clear();
            store.temp_entities.push(Entity::Polyline { points: preview });
        }
    }

    /// Releasing the button does nothing: vertices are placed by presses.
    pub fn on_mouse_up(&self, store: &mut GeometryStore<S>)
        ensures
            old(store).same_as(*final(store)),
    {
    }
}

// --- The tool interface ---

/// The distances that the tools use, in the application's units: the width
/// of a new double line, and the pick and close radii as order keys.
#[derive(Clone, Copy, Debug)]
pub struct ToolSettings<S> {
    pub double_line_width: S,
    pub pick_radius_key: u32,
    pub close_radius_key: u32,
}

/// A drawing tool, driven by the presses, moves and releases of the drawing
/// button. A tool states in `pressed`, `moved` and `released` what each
/// event does to it and to the drawing, and its methods are held to those
/// statements. `ops` stands for what is known of the plane operations that
/// the application supplies. A tool that does not state them (one written
/// outside Verus, say) promises nothing of its events.
pub trait Tool<S>: Sized {
    /// A press at `pos` turns the tool `self` into `next` and the drawing
    /// `store` into `next_store`; `keys[i]` is the order key of the distance
    /// from `pos` to entity `i`.
    open spec fn pressed(
        self,
        store: GeometryStore<S>,
        pos: Point<S>,
        keys: Seq<u32>,
        settings: ToolSettings<S>,
        ops: PlaneRelations<S>,
        next: Self,
        next_store: GeometryStore<S>,
    ) -> bool {
        true
    }

    /// Moving the pointer to `pos` turns `self` into `next` and `store`
    /// into `next_store`.
    open spec fn moved(
        self,
        store: GeometryStore<S>,
        pos: Point<S>,
        ops: PlaneRelations<S>,
        next: Self,
        next_store: GeometryStore<S>,
    ) -> bool {
        true
    }

    /// A release at `pos` turns `self` into `next` and `store` into
    /// `next_store`; `deleted` is the index of the entity that it removed,
    /// if it removed one.
    open spec fn released(
        self,
        store: GeometryStore<S>,
        pos: Point<S>,
        ops: PlaneRelations<S>,
        next: Self,
        next_store: GeometryStore<S>,
        deleted: Option<usize>,
    ) -> bool {
        true
    }

    /// The name under which the tool is selected.
    fn name(&self) -> (r: &'static str);

    /// A press of the drawing button at `pos`.
    fn on_mouse_down<R, D, O, K>(
        &mut self,
        pos: Point<S>,
        store: &mut GeometryStore<S>,
        distance_keys: &Vec<u32>,
        settings: &ToolSettings<S>,
        ops: &PlaneOps<R, D, O, K>,
    ) where
        R: Fn(Point<S>, Point<S>) -> S,
        D: Fn(Point<S>, Point<S>, S) -> (Segment<S>, Segment<S>),
        O: Fn(Point<S>, Point<S>, Point<S>) -> Segment<S>,
        K: Fn(Point<S>, Point<S>) -> u32,

        requires
            distance_keys@.len() == old(store).entities@.len(),
            ops_callable(ops),
        ensures
            old(self).pressed(
                *old(store),
                pos,
                distance_keys@,
                *settings,
                relations(*ops),
                *final(self),
                *final(store),
            ),
    ;

    /// The pointer moved to `pos`.
    fn on_mouse_move<R, D, O, K>(&mut self, pos: Point<S>, store: &mut GeometryStore<S>, ops: &PlaneOps<R, D, O, K>) where
        R: Fn(Point<S>, Point<S>) -> S,
        D: Fn(Point<S>, Point<S>, S) -> (Segment<S>, Segment<S>),
        O: Fn(Point<S>, Point<S>, Point<S>) -> Segment<S>,
        K: Fn(Point<S>, Point<S>) -> u32,

        requires
            ops_callable(ops),
        ensures
            old(self).moved(*old(store), pos, relations(*ops), *final(self), *final(store)),
    ;

    /// A release of the drawing button at `pos`; answers the index of the
    /// entity removed, if any.
    fn on_mouse_up<R, D, O, K>(
        &mut self,
        pos: Point<S>,
        store: &mut GeometryStore<S>,
        ops: &PlaneOps<R, D, O, K>,
    ) -> (deleted: Option<usize>) where
        R: Fn(Point<S>, Point<S>) -> S,
        D: Fn(Point<S>, Point<S>, S) -> (Segment<S>, Segment<S>),
        O: Fn(Point<S>, Point<S>, Point<S>) -> Segment<S>,
        K: Fn(Point<S>, Point<S>) -> u32,

        requires
            ops_callable(ops),
        ensures
            old(self).released(*old(store), pos, relations(*ops), *final(self), *final(store), deleted),
    ;
}

impl<S: Copy> Tool<S> for LineTool<S> {
    open spec fn pressed(
        self,
        store: GeometryStore<S>,
        pos: Point<S>,
        keys: Seq<u32>,
        settings: ToolSettings<S>,
        ops: PlaneRelations<S>,
        next: Self,
        next_store: GeometryStore<S>,
    ) -> bool {
        self.down_post(pos, next) && store.same_as(next_store)
    }

    open spec fn moved(
        self,
        store: GeometryStore<S>,
        pos: Point<S>,
        ops: PlaneRelations<S>,
        next: Self,
        next_store: GeometryStore<S>,
    ) -> bool {
        next == self && self.move_post(store, pos, next_store)
    }

    open spec fn released(
        self,
        store: GeometryStore<S>,
        pos: Point<S>,
        ops: PlaneRelations<S>,
        next: Self,
        next_store: GeometryStore<S>,
        deleted: Option<usize>,
    ) -> bool {
        self.up_post(store, pos, next, next_store) && deleted is None
    }

    fn name(&self) -> (r: &'static str)
        ensures
            r@ == "line"@,
    {
        LineTool::<S>::name(self)
    }

    fn on_mouse_down<R, D, O, K>(
        &mut self,
        pos: Point<S>,
        store: &mut GeometryStore<S>,
        distance_keys: &Vec<u32>,
        settings: &ToolSettings<S>,
        ops: &PlaneOps<R, D, O, K>,
    ) where
        R: Fn(Point<S>, Point<S>) -> S,
        D: Fn(Point<S>, Point<S>, S) -> (Segment<S>, Segment<S>),
        O: Fn(Point<S>, Point<S>, Point<S>) -> Segment<S>,
        K: Fn(Point<S>, Point<S>) -> u32,
     {
        LineTool::<S>::on_mouse_down(self, pos, store)
    }

    fn on_mouse_move<R, D, O, K>(&mut self, pos: Point<S>, store: &mut GeometryStore<S>, ops: &PlaneOps<R, D, O, K>) where
        R: Fn(Point<S>, Point<S>) -> S,
        D: Fn(Point<S>, Point<S>, S) -> (Segment<S>, Segment<S>),
        O: Fn(Point<S>, Point<S>, Point<S>) -> Segment<S>,
        K: Fn(Point<S>, Point<S>) -> u32,
     {
        LineTool::<S>::on_mouse_move(self, pos, store)
    }

    fn on_mouse_up<R, D, O, K>(
        &mut self,
        pos: Point<S>,
        store: &mut GeometryStore<S>,
        ops: &PlaneOps<R, D, O, K>,
    ) -> (deleted: Option<usize>) where
        R: Fn(Point<S>, Point<S>) -> S,
        D: Fn(Point<S>, Point<S>, S) -> (Segment<S>, Segment<S>),
        O: Fn(Point<S>, Point<S>, Point<S>) -> Segment<S>,
        K: Fn(Point<S>, Point<S>) -> u32,
     {
        LineTool::<S>::on_mouse_up(self, pos, store);
        None
    }
}

impl<S: Copy> Tool<S> for CircleTool<S> {
    open spec fn pressed(
        self,
        store: GeometryStore<S>,
        pos: Point<S>,
        keys: Seq<u32>,
        settings: ToolSettings<S>,
        ops: PlaneRelations<S>,
        next: Self,
        next_store: GeometryStore<S>,
    ) -> bool {
        self.down_post(pos, next) && store.same_as(next_store)
    }

    open spec fn moved(
        self,
        store: GeometryStore<S>,
        pos: Point<S>,
        ops: PlaneRelations<S>,
        next: Self,
        next_store: GeometryStore<S>,
    ) -> bool {
        next == self && self.move_post(store, pos, ops.radius, next_store)
    }

    open spec fn released(
        self,
        store: GeometryStore<S>,
        pos: Point<S>,
        ops: PlaneRelations<S>,
        next: Self,
        next_store: GeometryStore<S>,
        deleted: Option<usize>,
    ) -> bool {
        self.up_post(store, pos, ops.radius, next, next_store) && deleted is None
    }

    fn name(&self) -> (r: &'static str)
        ensures
            r@ == "circle"@,
    {
        CircleTool::<S>::name(self)
    }

    fn on_mouse_down<R, D, O, K>(
        &mut self,
        pos: Point<S>,
        store: &mut GeometryStore<S>,
        distance_keys: &Vec<u32>,
        settings: &ToolSettings<S>,
        ops: &PlaneOps<R, D, O, K>,
    ) where
        R: Fn(Point<S>, Point<S>) -> S,
        D: Fn(Point<S>, Point<S>, S) -> (Segment<S>, Segment<S>),
        O: Fn(Point<S>, Point<S>, Point<S>) -> Segment<S>,
        K: Fn(Point<S>, Point<S>) -> u32,
     {
        CircleTool::<S>::on_mouse_down(self, pos, store)
    }

    fn on_mouse_move<R, D, O, K>(&mut self, pos: Point<S>, store: &mut GeometryStore<S>, ops: &PlaneOps<R, D, O, K>) where
        R: Fn(Point<S>, Point<S>) -> S,
        D: Fn(Point<S>, Point<S>, S) -> (Segment<S>, Segment<S>),
        O: Fn(Point<S>, Point<S>, Point<S>) -> Segment<S>,
        K: Fn(Point<S>, Point<S>) -> u32,
     {
        CircleTool::<S>::on_mouse_move(self, pos, store, &ops.radius)
    }

    fn on_mouse_up<R, D, O, K>(
        &mut self,
        pos: Point<S>,
        store: &mut GeometryStore<S>,
        ops: &PlaneOps<R, D, O, K>,
    ) -> (deleted: Option<usize>) where
        R: Fn(Point<S>, Point<S>) -> S,
        D: Fn(Point<S>, Point<S>, S) -> (Segment<S>, Segment<S>),
        O: Fn(Point<S>, Point<S>, Point<S>) -> Segment<S>,
        K: Fn(Point<S>, Point<S>) -> u32,
     {
        CircleTool::<S>::on_mouse_up(self, pos, store, &ops.radius);
        None
    }
}

impl<S: Copy> Tool<S> for RectTool<S> {
    open spec fn pressed(
        self,
        store: GeometryStore<S>,
        pos: Point<S>,
        keys: Seq<u32>,
        settings: ToolSettings<S>,
        ops: PlaneRelations<S>,
        next: Self,
        next_store: GeometryStore<S>,
    ) -> bool {
        self.down_post(pos, next) && store.same_as(next_store)
    }

    open spec fn moved(
        self,
        store: GeometryStore<S>,
        pos: Point<S>,
        ops: PlaneRelations<S>,
        next: Self,
        next_store: GeometryStore<S>,
    ) -> bool {
        next == self && self.move_post(store, pos, next_store)
    }

    open spec fn released(
        self,
        store: GeometryStore<S>,
        pos: Point<S>,
        ops: PlaneRelations<S>,
        next: Self,
        next_store: GeometryStore<S>,
        deleted: Option<usize>,
    ) -> bool {
        self.up_post(store, pos, next, next_store) && deleted is None
    }

    fn name(&self) -> (r: &'static str)
        ensures
            r@ == "rect"@,
    {
        RectTool::<S>::name(self)
    }

    fn on_mouse_down<R, D, O, K>(
        &mut self,
        pos: Point<S>,
        store: &mut GeometryStore<S>,
        distance_keys: &Vec<u32>,
        settings: &ToolSettings<S>,
        ops: &PlaneOps<R, D, O, K>,
    ) where
        R: Fn(Point<S>, Point<S>) -> S,
        D: Fn(Point<S>, Point<S>, S) -> (Segment<S>, Segment<S>),
        O: Fn(Point<S>, Point<S>, Point<S>) -> Segment<S>,
        K: Fn(Point<S>, Point<S>) -> u32,
     {
        RectTool::<S>::on_mouse_down(self, pos, store)
    }

    fn on_mouse_move<R, D, O, K>(&mut self, pos: Point<S>, store: &mut GeometryStore<S>, ops: &PlaneOps<R, D, O, K>) where
        R: Fn(Point<S>, Point<S>) -> S,
        D: Fn(Point<S>, Point<S>, S) -> (Segment<S>, Segment<S>),
        O: Fn(Point<S>, Point<S>, Point<S>) -> Segment<S>,
        K: Fn(Point<S>, Point<S>) -> u32,
     {
        RectTool::<S>::on_mouse_move(self, pos, store)
    }

    fn on_mouse_up<R, D, O, K>(
        &mut self,
        pos: Point<S>,
        store: &mut GeometryStore<S>,
        ops: &PlaneOps<R, D, O, K>,
    ) -> (deleted: Option<usize>) where
        R: Fn(Point<S>, Point<S>) -> S,
        D: Fn(Point<S>, Point<S>, S) -> (Segment<S>, Segment<S>),
        O: Fn(Point<S>, Point<S>, Point<S>) -> Segment<S>,
        K: Fn(Point<S>, Point<S>) -> u32,
     {
        RectTool::<S>::on_mouse_up(self, pos, store);
        None
    }
}

impl<S: Copy> Tool<S> for DoubleLineTool<S> {
    open spec fn pressed(
        self,
        store: GeometryStore<S>,
        pos: Point<S>,
        keys: Seq<u32>,
        settings: ToolSettings<S>,
        ops: PlaneRelations<S>,
        next: Self,
        next_store: GeometryStore<S>,
    ) -> bool {
        self.down_post(pos, next) && store.same_as(next_store)
    }

    open spec fn moved(
        self,
        store: GeometryStore<S>,
        pos: Point<S>,
        ops: PlaneRelations<S>,
        next: Self,
        next_store: GeometryStore<S>,
    ) -> bool {
        next == self && self.move_post(store, pos, ops.parallel, next_store)
    }

    open spec fn released(
        self,
        store: GeometryStore<S>,
        pos: Point<S>,
        ops: PlaneRelations<S>,
        next: Self,
        next_store: GeometryStore<S>,
        deleted: Option<usize>,
    ) -> bool {
        self.up_post(store, pos, ops.parallel, next, next_store) && deleted is None
    }

    fn name(&self) -> (r: &'static str)
        ensures
            r@ == "double_line"@,
    {
        DoubleLineTool::<S>::name(self)
    }

    fn on_mouse_down<R, D, O, K>(
        &mut self,
        pos: Point<S>,
        store: &mut GeometryStore<S>,
        distance_keys: &Vec<u32>,
        settings: &ToolSettings<S>,
        ops: &PlaneOps<R, D, O, K>,
    ) where
        R: Fn(Point<S>, Point<S>) -> S,
        D: Fn(Point<S>, Point<S>, S) -> (Segment<S>, Segment<S>),
        O: Fn(Point<S>, Point<S>, Point<S>) -> Segment<S>,
        K: Fn(Point<S>, Point<S>) -> u32,
     {
        DoubleLineTool::<S>::on_mouse_down(self, pos, store)
    }

    fn on_mouse_move<R, D, O, K>(&mut self, pos: Point<S>, store: &mut GeometryStore<S>, ops: &PlaneOps<R, D, O, K>) where
        R: Fn(Point<S>, Point<S>) -> S,
        D: Fn(Point<S>, Point<S>, S) -> (Segment<S>, Segment<S>),
        O: Fn(Point<S>, Point<S>, Point<S>) -> Segment<S>,
        K: Fn(Point<S>, Point<S>) -> u32,
     {
        DoubleLineTool::<S>::on_mouse_move(self, pos, store, &ops.parallel)
    }

    fn on_mouse_up<R, D, O, K>(
        &mut self,
        pos: Point<S>,
        store: &mut GeometryStore<S>,
        ops: &PlaneOps<R, D, O, K>,
    ) -> (deleted: Option<usize>) where
        R: Fn(Point<S>, Point<S>) -> S,
        D: Fn(Point<S>, Point<S>, S) -> (Segment<S>, Segment<S>),
        O: Fn(Point<S>, Point<S>, Point<S>) -> Segment<S>,
        K: Fn(Point<S>, Point<S>) -> u32,
     {
        DoubleLineTool::<S>::on_mouse_up(self, pos, store, &ops.parallel);
        None
    }
}

impl<S: Copy> Tool<S> for OffsetTool {
    open spec fn pressed(
        self,
        store: GeometryStore<S>,
        pos: Point<S>,
        keys: Seq<u32>,
        settings: ToolSettings<S>,
        ops: PlaneRelations<S>,
        next: Self,
        next_store: GeometryStore<S>,
    ) -> bool {
        self.down_post(pick_keys(store.entities@, keys), settings.pick_radius_key, next) && store.same_as(next_store)
    }

    open spec fn moved(
        self,
        store: GeometryStore<S>,
        pos: Point<S>,
        ops: PlaneRelations<S>,
        next: Self,
        next_store: GeometryStore<S>,
    ) -> bool {
        next == self && self.move_post(store, pos, ops.offset_through, next_store)
    }

    open spec fn released(
        self,
        store: GeometryStore<S>,
        pos: Point<S>,
        ops: PlaneRelations<S>,
        next: Self,
        next_store: GeometryStore<S>,
        deleted: Option<usize>,
    ) -> bool {
        self.up_post(store, pos, ops.offset_through, next, next_store) && deleted is None
    }

    fn name(&self) -> (r: &'static str)
        ensures
            r@ == "offset"@,
    {
        OffsetTool::name(self)
    }

    fn on_mouse_down<R, D, O, K>(
        &mut self,
        pos: Point<S>,
        store: &mut GeometryStore<S>,
        distance_keys: &Vec<u32>,
        settings: &ToolSettings<S>,
        ops: &PlaneOps<R, D, O, K>,
    ) where
        R: Fn(Point<S>, Point<S>) -> S,
        D: Fn(Point<S>, Point<S>, S) -> (Segment<S>, Segment<S>),
        O: Fn(Point<S>, Point<S>, Point<S>) -> Segment<S>,
        K: Fn(Point<S>, Point<S>) -> u32,
     {
        OffsetTool::on_mouse_down(self, &*store, distance_keys, settings.pick_radius_key)
    }

    fn on_mouse_move<R, D, O, K>(&mut self, pos: Point<S>, store: &mut GeometryStore<S>, ops: &PlaneOps<R, D, O, K>) where
        R: Fn(Point<S>, Point<S>) -> S,
        D: Fn(Point<S>, Point<S>, S) -> (Segment<S>, Segment<S>),
        O: Fn(Point<S>, Point<S>, Point<S>) -> Segment<S>,
        K: Fn(Point<S>, Point<S>) -> u32,
     {
        OffsetTool::on_mouse_move(self, pos, store, &ops.offset_through)
    }

    fn on_mouse_up<R, D, O, K>(
        &mut self,
        pos: Point<S>,
        store: &mut GeometryStore<S>,
        ops: &PlaneOps<R, D, O, K>,
    ) -> (deleted: Option<usize>) where
        R: Fn(Point<S>, Point<S>) -> S,
        D: Fn(Point<S>, Point<S>, S) -> (Segment<S>, Segment<S>),
        O: Fn(Point<S>, Point<S>, Point<S>) -> Segment<S>,
        K: Fn(Point<S>, Point<S>) -> u32,
     {
        OffsetTool::on_mouse_up(self, pos, store, &ops.offset_through);
        None
    }
}

impl<S: Copy> Tool<S> for DeleteTool {
    open spec fn pressed(
        self,
        store: GeometryStore<S>,
        pos: Point<S>,
        keys: Seq<u32>,
        settings: ToolSettings<S>,
        ops: PlaneRelations<S>,
        next: Self,
        next_store: GeometryStore<S>,
    ) -> bool {
        self.down_post(pick_keys(store.entities@, keys), settings.pick_radius_key, next) && store.same_as(next_store)
    }

    open spec fn moved(
        self,
        store: GeometryStore<S>,
        pos: Point<S>,
        ops: PlaneRelations<S>,
        next: Self,
        next_store: GeometryStore<S>,
    ) -> bool {
        next == self && store.same_as(next_store)
    }

    open spec fn released(
        self,
        store: GeometryStore<S>,
        pos: Point<S>,
        ops: PlaneRelations<S>,
        next: Self,
        next_store: GeometryStore<S>,
        deleted: Option<usize>,
    ) -> bool {
        self.up_post(store, next, next_store) && deleted == self.removed_index(store)
    }

    fn name(&self) -> (r: &'static str)
        ensures
            r@ == "delete"@,
    {
        DeleteTool::name(self)
    }

    fn on_mouse_down<R, D, O, K>(
        &mut self,
        pos: Point<S>,
        store: &mut GeometryStore<S>,
        distance_keys: &Vec<u32>,
        settings: &ToolSettings<S>,
        ops: &PlaneOps<R, D, O, K>,
    ) where
        R: Fn(Point<S>, Point<S>) -> S,
        D: Fn(Point<S>, Point<S>, S) -> (Segment<S>, Segment<S>),
        O: Fn(Point<S>, Point<S>, Point<S>) -> Segment<S>,
        K: Fn(Point<S>, Point<S>) -> u32,
     {
        DeleteTool::on_mouse_down(self, &*store, distance_keys, settings.pick_radius_key)
    }

    fn on_mouse_move<R, D, O, K>(&mut self, pos: Point<S>, store: &mut GeometryStore<S>, ops: &PlaneOps<R, D, O, K>) where
        R: Fn(Point<S>, Point<S>) -> S,
        D: Fn(Point<S>, Point<S>, S) -> (Segment<S>, Segment<S>),
        O: Fn(Point<S>, Point<S>, Point<S>) -> Segment<S>,
        K: Fn(Point<S>, Point<S>) -> u32,
     {
        DeleteTool::on_mouse_move(self, store)
    }

    fn on_mouse_up<R, D, O, K>(
        &mut self,
        pos: Point<S>,
        store: &mut GeometryStore<S>,
        ops: &PlaneOps<R, D, O, K>,
    ) -> (deleted: Option<usize>) where
        R: Fn(Point<S>, Point<S>) -> S,
        D: Fn(Point<S>, Point<S>, S) -> (Segment<S>, Segment<S>),
        O: Fn(Point<S>, Point<S>, Point<S>) -> Segment<S>,
        K: Fn(Point<S>, Point<S>) -> u32,
     {
        DeleteTool::on_mouse_up(self, store)
    }
}

impl<S: Copy> Tool<S> for PolylineTool<S> {
    open spec fn pressed(
        self,
        store: GeometryStore<S>,
        pos: Point<S>,
        keys: Seq<u32>,
        settings: ToolSettings<S>,
        ops: PlaneRelations<S>,
        next: Self,
        next_store: GeometryStore<S>,
    ) -> bool {
        self.down_post(store, pos, ops.distance_key, settings.close_radius_key, next, next_store)
    }

    open spec fn moved(
        self,
        store: GeometryStore<S>,
        pos: Point<S>,
        ops: PlaneRelations<S>,
        next: Self,
        next_store: GeometryStore<S>,
    ) -> bool {
        next.points@ == self.points@ && self.move_post(store, pos, next_store)
    }

    open spec fn released(
        self,
        store: GeometryStore<S>,
        pos: Point<S>,
        ops: PlaneRelations<S>,
        next: Self,
        next_store: GeometryStore<S>,
        deleted: Option<usize>,
    ) -> bool {
        next.points@ == self.points@ && store.same_as(next_store) && deleted is None
    }

    fn name(&self) -> (r: &'static str)
        ensures
            r@ == "polyline"@,
    {
        PolylineTool::<S>::name(self)
    }

    fn on_mouse_down<R, D, O, K>(
        &mut self,
        pos: Point<S>,
        store: &mut GeometryStore<S>,
        distance_keys: &Vec<u32>,
        settings: &ToolSettings<S>,
        ops: &PlaneOps<R, D, O, K>,
    ) where
        R: Fn(Point<S>, Point<S>) -> S,
        D: Fn(Point<S>, Point<S>, S) -> (Segment<S>, Segment<S>),
        O: Fn(Point<S>, Point<S>, Point<S>) -> Segment<S>,
        K: Fn(Point<S>, Point<S>) -> u32,
     {
        PolylineTool::<S>::on_mouse_down(self, pos, store, &ops.distance_key, settings.close_radius_key)
    }

    fn on_mouse_move<R, D, O, K>(&mut self, pos: Point<S>, store: &mut GeometryStore<S>, ops: &PlaneOps<R, D, O, K>) where
        R: Fn(Point<S>, Point<S>) -> S,
        D: Fn(Point<S>, Point<S>, S) -> (Segment<S>, Segment<S>),
        O: Fn(Point<S>, Point<S>, Point<S>) -> Segment<S>,
        K: Fn(Point<S>, Point<S>) -> u32,
     {
        PolylineTool::<S>::on_mouse_move(self, pos, store)
    }

    fn on_mouse_up<R, D, O, K>(
        &mut self,
        pos: Point<S>,
        store: &mut GeometryStore<S>,
        ops: &PlaneOps<R, D, O, K>,
    ) -> (deleted: Option<usize>) where
        R: Fn(Point<S>, Point<S>) -> S,
        D: Fn(Point<S>, Point<S>, S) -> (Segment<S>, Segment<S>),
        O: Fn(Point<S>, Point<S>, Point<S>) -> Segment<S>,
        K: Fn(Point<S>, Point<S>) -> u32,
     {
        PolylineTool::<S>::on_mouse_up(self, store);
        None
    }
}

// --- Tool manager: the active tool, switched by name ---

/// The kinds of tool that the manager can activate.
#[derive(Clone, Copy, Debug, PartialEq, Eq)]
pub enum ToolKind {
    Line,
    Circle,
    Rect,
    DoubleLine,
    Offset,
    Delete,
    Polyline,
}

/// The tool that a name selects, if any.
pub open spec fn kind_of_name(name: Seq<char>) -> Option<ToolKind> {
    if name == "line"@ {
        Some(ToolKind::Line)
    } else if name == "circle"@ {
        Some(ToolKind::Circle)
    } else if name == "rect"@ {
        Some(ToolKind::Rect)
    } else if name == "double_line"@ {
        Some(ToolKind::DoubleLine)
    } else if name == "offset"@ {
        Some(ToolKind::Offset)
    } else if name == "delete"@ {
        Some(ToolKind::Delete)
    } else if name == "polyline"@ {
        Some(ToolKind::Polyline)
    } else {
        None
    }
}

/// The active tool with its state: one of the library's tools, or a tool of
/// the application's own.
pub enum ActiveTool<S, U = LineTool<S>> {
    Line(LineTool<S>),
    Circle(CircleTool<S>),
    Rect(RectTool<S>),
    DoubleLine(DoubleLineTool<S>),
    Offset(OffsetTool),
    Delete(DeleteTool),
    Polyline(PolylineTool<S>),
    Custom(U),
}

impl<S: Copy, U> ActiveTool<S, U> {
    /// `self` is a tool of kind `kind` in its initial state.
    pub open spec fn is_fresh(self, kind: ToolKind, width: S) -> bool {
        match kind {
            ToolKind::Line => self == ActiveTool::<S, U>::Line(LineTool::<S> { start_pos: None, is_dragging: false }),
            ToolKind::Circle => self == ActiveTool::<S, U>::Circle(CircleTool::<S> { center: None, is_dragging: false }),
            ToolKind::Rect => self == ActiveTool::<S, U>::Rect(RectTool::<S> { start_pos: None, is_dragging: false }),
            ToolKind::DoubleLine => self == ActiveTool::<S, U>::DoubleLine(
                DoubleLineTool::<S> { start_pos: None, is_dragging: false, width },
            ),
            ToolKind::Offset => self == ActiveTool::<S, U>::Offset(OffsetTool { selected_idx: None, is_dragging: false }),
            ToolKind::Delete => self == ActiveTool::<S, U>::Delete(DeleteTool { target_idx: None }),
            ToolKind::Polyline => self matches ActiveTool::Polyline(t) && t.points@.len() == 0,
        }
    }
}

/// Each event goes to the active tool, which stays the same kind of tool.
impl<S: Copy, U: Tool<S>> Tool<S> for ActiveTool<S, U> {
    open spec fn pressed(
        self,
        store: GeometryStore<S>,
        pos: Point<S>,
        keys: Seq<u32>,
        settings: ToolSettings<S>,
        ops: PlaneRelations<S>,
        next: Self,
        next_store: GeometryStore<S>,
    ) -> bool {
        match (self, next) {
            (ActiveTool::Line(t), ActiveTool::Line(t2)) => t.pressed(store, pos, keys, settings, ops, t2, next_store),
            (ActiveTool::Circle(t), ActiveTool::Circle(t2)) => t.pressed(store, pos, keys, settings, ops, t2, next_store),
            (ActiveTool::Rect(t), ActiveTool::Rect(t2)) => t.pressed(store, pos, keys, settings, ops, t2, next_store),
            (ActiveTool::DoubleLine(t), ActiveTool::DoubleLine(t2)) => t.pressed(
                store,
                pos,
                keys,
                settings,
                ops,
                t2,
                next_store,
            ),
            (ActiveTool::Offset(t), ActiveTool::Offset(t2)) => Tool::<S>::pressed(
                t,
                store,
                pos,
                keys,
                settings,
                ops,
                t2,
                next_store,
            ),
            (ActiveTool::Delete(t), ActiveTool::Delete(t2)) => Tool::<S>::pressed(
                t,
                store,
                pos,
                keys,
                settings,
                ops,
                t2,
                next_store,
            ),
            (ActiveTool::Polyline(t), ActiveTool::Polyline(t2)) => t.pressed(
                store,
                pos,
                keys,
                settings,
                ops,
                t2,
                next_store,
            ),
            (ActiveTool::Custom(t), ActiveTool::Custom(t2)) => t.pressed(store, pos, keys, settings, ops, t2, next_store),
            _ => false,
        }
    }

    open spec fn moved(
        self,
        store: GeometryStore<S>,
        pos: Point<S>,
        ops: PlaneRelations<S>,
        next: Self,
        next_store: GeometryStore<S>,
    ) -> bool {
        match (self, next) {
            (ActiveTool::Line(t), ActiveTool::Line(t2)) => t.moved(store, pos, ops, t2, next_store),
            (ActiveTool::Circle(t), ActiveTool::Circle(t2)) => t.moved(store, pos, ops, t2, next_store),
            (ActiveTool::Rect(t), ActiveTool::Rect(t2)) => t.moved(store, pos, ops, t2, next_store),
            (ActiveTool::DoubleLine(t), ActiveTool::DoubleLine(t2)) => t.moved(store, pos, ops, t2, next_store),
            (ActiveTool::Offset(t), ActiveTool::Offset(t2)) => Tool::<S>::moved(t, store, pos, ops, t2, next_store),
            (ActiveTool::Delete(t), ActiveTool::Delete(t2)) => Tool::<S>::moved(t, store, pos, ops, t2, next_store),
            (ActiveTool::Polyline(t), ActiveTool::Polyline(t2)) => t.moved(store, pos, ops, t2, next_store),
            (ActiveTool::Custom(t), ActiveTool::Custom(t2)) => t.moved(store, pos, ops, t2, next_store),
            _ => false,
        }
    }

    open spec fn released(
        self,
        store: GeometryStore<S>,
        pos: Point<S>,
        ops: PlaneRelations<S>,
        next: Self,
        next_store: GeometryStore<S>,
        deleted: Option<usize>,
    ) -> bool {
        match (self, next) {
            (ActiveTool::Line(t), ActiveTool::Line(t2)) => t.released(store, pos, ops, t2, next_store, deleted),
            (ActiveTool::Circle(t), ActiveTool::Circle(t2)) => t.released(store, pos, ops, t2, next_store, deleted),
            (ActiveTool::Rect(t), ActiveTool::Rect(t2)) => t.released(store, pos, ops, t2, next_store, deleted),
            (ActiveTool::DoubleLine(t), ActiveTool::DoubleLine(t2)) => t.released(
                store,
                pos,
                ops,
                t2,
                next_store,
                deleted,
            ),
            (ActiveTool::Offset(t), ActiveTool::Offset(t2)) => Tool::<S>::released(
                t,
                store,
                pos,
                ops,
                t2,
                next_store,
                deleted,
            ),
            (ActiveTool::Delete(t), ActiveTool::Delete(t2)) => Tool::<S>::released(
                t,
                store,
                pos,
                ops,
                t2,
                next_store,
                deleted,
            ),
            (ActiveTool::Polyline(t), ActiveTool::Polyline(t2)) => t.released(
                store,
                pos,
                ops,
                t2,
                next_store,
                deleted,
            ),
            (ActiveTool::Custom(t), ActiveTool::Custom(t2)) => t.released(store, pos, ops, t2, next_store, deleted),
            _ => false,
        }
    }

    /// The name of the active tool; a tool of the application's own answers
    /// its own.
    fn name(&self) -> (r: &'static str)
        ensures
            match *self {
                ActiveTool::Line(_) => r@ == "line"@,
                ActiveTool::Circle(_) => r@ == "circle"@,
                ActiveTool::Rect(_) => r@ == "rect"@,
                ActiveTool::DoubleLine(_) => r@ == "double_line"@,
                ActiveTool::Offset(_) => r@ == "offset"@,
                ActiveTool::Delete(_) => r@ == "delete"@,
                ActiveTool::Polyline(_) => r@ == "polyline"@,
                ActiveTool::Custom(_) => true,
            },
    {
        match self {
            ActiveTool::Line(t) => Tool::<S>::name(t),
            ActiveTool::Circle(t) => Tool::<S>::name(t),
            ActiveTool::Rect(t) => Tool::<S>::name(t),
            ActiveTool::DoubleLine(t) => Tool::<S>::name(t),
            ActiveTool::Offset(t) => Tool::<S>::name(t),
            ActiveTool::Delete(t) => Tool::<S>::name(t),
            ActiveTool::Polyline(t) => Tool::<S>::name(t),
            ActiveTool::Custom(t) => t.name(),
        }
    }

    fn on_mouse_down<R, D, O, K>(
        &mut self,
        pos: Point<S>,
        store: &mut GeometryStore<S>,
        distance_keys: &Vec<u32>,
        settings: &ToolSettings<S>,
        ops: &PlaneOps<R, D, O, K>,
    ) where
        R: Fn(Point<S>, Point<S>) -> S,
        D: Fn(Point<S>, Point<S>, S) -> (Segment<S>, Segment<S>),
        O: Fn(Point<S>, Point<S>, Point<S>) -> Segment<S>,
        K: Fn(Point<S>, Point<S>) -> u32,
     {
        match self {
            ActiveTool::Line(t) => Tool::<S>::on_mouse_down(t, pos, store, distance_keys, settings, ops),
            ActiveTool::Circle(t) => Tool::<S>::on_mouse_down(t, pos, store, distance_keys, settings, ops),
            ActiveTool::Rect(t) => Tool::<S>::on_mouse_down(t, pos, store, distance_keys, settings, ops),
            ActiveTool::DoubleLine(t) => Tool::<S>::on_mouse_down(t, pos, store, distance_keys, settings, ops),
            ActiveTool::Offset(t) => Tool::<S>::on_mouse_down(t, pos, store, distance_keys, settings, ops),
            ActiveTool::Delete(t) => Tool::<S>::on_mouse_down(t, pos, store, distance_keys, settings, ops),
            ActiveTool::Polyline(t) => Tool::<S>::on_mouse_down(t, pos, store, distance_keys, settings, ops),
            ActiveTool::Custom(t) => t.on_mouse_down(pos, store, distance_keys, settings, ops),
        }
    }

    fn on_mouse_move<R, D, O, K>(&mut self, pos: Point<S>, store: &mut GeometryStore<S>, ops: &PlaneOps<R, D, O, K>) where
        R: Fn(Point<S>, Point<S>) -> S,
        D: Fn(Point<S>, Point<S>, S) -> (Segment<S>, Segment<S>),
        O: Fn(Point<S>, Point<S>, Point<S>) -> Segment<S>,
        K: Fn(Point<S>, Point<S>) -> u32,
     {
        match self {
            ActiveTool::Line(t) => Tool::<S>::on_mouse_move(t, pos, store, ops),
            ActiveTool::Circle(t) => Tool::<S>::on_mouse_move(t, pos, store, ops),
            ActiveTool::Rect(t) => Tool::<S>::on_mouse_move(t, pos, store, ops),
            ActiveTool::DoubleLine(t) => Tool::<S>::on_mouse_move(t, pos, store, ops),
            ActiveTool::Offset(t) => Tool::<S>::on_mouse_move(t, pos, store, ops),
            ActiveTool::Delete(t) => Tool::<S>::on_mouse_move(t, pos, store, ops),
            ActiveTool::Polyline(t) => Tool::<S>::on_mouse_move(t, pos, store, ops),
            ActiveTool::Custom(t) => t.on_mouse_move(pos, store, ops),
        }
    }

    fn on_mouse_up<R, D, O, K>(
        &mut self,
        pos: Point<S>,
        store: &mut GeometryStore<S>,
        ops: &PlaneOps<R, D, O, K>,
    ) -> (deleted: Option<usize>) where
        R: Fn(Point<S>, Point<S>) -> S,
        D: Fn(Point<S>, Point<S>, S) -> (Segment<S>, Segment<S>),
        O: Fn(Point<S>, Point<S>, Point<S>) -> Segment<S>,
        K: Fn(Point<S>, Point<S>) -> u32,
     {
        match self {
            ActiveTool::Line(t) => Tool::<S>::on_mouse_up(t, pos, store, ops),
            ActiveTool::Circle(t) => Tool::<S>::on_mouse_up(t, pos, store, ops),
            ActiveTool::Rect(t) => Tool::<S>::on_mouse_up(t, pos, store, ops),
            ActiveTool::DoubleLine(t) => Tool::<S>::on_mouse_up(t, pos, store, ops),
            ActiveTool::Offset(t) => Tool::<S>::on_mouse_up(t, pos, store, ops),
            ActiveTool::Delete(t) => Tool::<S>::on_mouse_up(t, pos, store, ops),
            ActiveTool::Polyline(t) => Tool::<S>::on_mouse_up(t, pos, store, ops),
            ActiveTool::Custom(t) => t.on_mouse_up(pos, store, ops),
        }
    }
}

/// Holds the active tool and hands it the pointer events. `U` is the type of
/// the application's own tools, if it has any.
pub struct ToolManager<S, U = LineTool<S>> {
    pub active_tool: ActiveTool<S, U>,
    pub settings: ToolSettings<S>,
}

impl<S: Copy> ToolManager<S> {
    /// A manager whose active tool is the line tool.
    pub fn new(settings: ToolSettings<S>) -> (m: Self)
        ensures
            m.active_tool.is_fresh(ToolKind::Line, settings.double_line_width),
            m.settings == settings,
    {
        ToolManager { active_tool: ActiveTool::Line(LineTool::new()), settings }
    }
}

impl<S: Copy, U: Tool<S>> ToolManager<S, U> {
    /// A manager whose active tool is `tool`, a tool of the application's
    /// own.
    pub fn with_tool(settings: ToolSettings<S>, tool: U) -> (m: Self)
        ensures
            m.active_tool == ActiveTool::<S, U>::Custom(tool),
            m.settings == settings,
    {
        ToolManager { active_tool: ActiveTool::Custom(tool), settings }
    }

    /// Activates `tool`, a tool of the application's own, in the state it
    /// is handed over in.
    pub fn set_custom_tool(&mut self, tool: U)
        ensures
            final(self).active_tool == ActiveTool::<S, U>::Custom(tool),
            final(self).settings == old(self).settings,
    {
        self.active_tool = ActiveTool::Custom(tool);
    }

    /// What selecting a tool by name does: a known name activates a fresh
    /// tool of that kind, an unknown one changes nothing.
    pub open spec fn set_tool_post(self, name: Seq<char>, next: Self) -> bool {
        &&& match kind_of_name(name) {
            Some(kind) => next.active_tool.is_fresh(kind, self.settings.double_line_width),
            None => next.active_tool == self.active_tool,
        }
        &&& next.settings == self.settings
    }

    /// Activates the tool that `name` selects, in its initial state, and
    /// answers `true`; an unknown name leaves the active tool as it was and
    /// answers `false`.
    pub fn set_active_tool(&mut self, name: &str) -> (known: bool)
        ensures
            known == kind_of_name(name@) is Some,
            old(self).set_tool_post(name@, *final(self)),
    {
        let n = name.to_owned();
        if n == "line".to_owned() {
            self.active_tool = ActiveTool::Line(LineTool::new());
        } else if n == "circle".to_owned() {
            self.active_tool = ActiveTool::Circle(CircleTool::new());
        } else if n == "rect".to_owned() {
            self.active_tool = ActiveTool::Rect(RectTool::new());
        } else if n == "double_line".to_owned() {
            self.active_tool = ActiveTool::DoubleLine(DoubleLineTool::new(self.settings.double_line_width));
        } else if n == "offset".to_owned() {
            self.active_tool = ActiveTool::Offset(OffsetTool::new());
        } else if n == "delete".to_owned() {
            self.active_tool = ActiveTool::Delete(DeleteTool::new());
        } else if n == "polyline".to_owned() {
            self.active_tool = ActiveTool::Polyline(PolylineTool::new());
        } else {
            return false;
        }
        true
    }

    /// A press of the drawing button at `pos`; `distance_keys[i]` is the
    /// order key of the distance from `pos` to entity `i`.
    pub fn on_mouse_down<R, D, O, K>(
        &mut self,
        pos: Point<S>,
        store: &mut GeometryStore<S>,
        distance_keys: &Vec<u32>,
        ops: &PlaneOps<R, D, O, K>,
    ) where
        R: Fn(Point<S>, Point<S>) -> S,
        D: Fn(Point<S>, Point<S>, S) -> (Segment<S>, Segment<S>),
        O: Fn(Point<S>, Point<S>, Point<S>) -> Segment<S>,
        K: Fn(Point<S>, Point<S>) -> u32,

        requires
            distance_keys@.len() == old(store).entities@.len(),
            ops_callable(ops),
        ensures
            old(self).active_tool.pressed(
                *old(store),
                pos,
                distance_keys@,
                old(self).settings,
                relations(*ops),
                final(self).active_tool,
                *final(store),
            ),
            final(self).settings == old(self).settings,
    {
        let settings = self.settings;
        self.active_tool.on_mouse_down(pos, store, distance_keys, &settings, ops);
    }

    /// The pointer moved to `pos`.
    pub fn on_mouse_move<R, D, O, K>(
        &mut self,
        pos: Point<S>,
        store: &mut GeometryStore<S>,
        ops: &PlaneOps<R, D, O, K>,
    ) where
        R: Fn(Point<S>, Point<S>) -> S,
        D: Fn(Point<S>, Point<S>, S) -> (Segment<S>, Segment<S>),
        O: Fn(Point<S>, Point<S>, Point<S>) -> Segment<S>,
        K: Fn(Point<S>, Point<S>) -> u32,

        requires
            ops_callable(ops),
        ensures
            old(self).active_tool.moved(*old(store), pos, relations(*ops), final(self).active_tool, *final(store)),
            final(self).settings == old(self).settings,
    {
        self.active_tool.on_mouse_move(pos, store, ops);
    }

    /// A release of the drawing button at `pos`; answers the index of the
    /// entity that the release removed, if any.
    pub fn on_mouse_up<R, D, O, K>(
        &mut self,
        pos: Point<S>,
        store: &mut GeometryStore<S>,
        ops: &PlaneOps<R, D, O, K>,
    ) -> (deleted: Option<usize>) where
        R: Fn(Point<S>, Point<S>) -> S,
        D: Fn(Point<S>, Point<S>, S) -> (Segment<S>, Segment<S>),
        O: Fn(Point<S>, Point<S>, Point<S>) -> Segment<S>,
        K: Fn(Point<S>, Point<S>) -> u32,

        requires
            ops_callable(ops),
        ensures
            old(self).active_tool.released(
                *old(store),
                pos,
                relations(*ops),
                final(self).active_tool,
                *final(store),
                deleted,
            ),
            final(self).settings == old(self).settings,
    {
        self.active_tool.on_mouse_up(pos, store, ops)
    }

    /// What a window event does through the active tool: the left button
    /// presses and releases at the last pointer position, a pointer move
    /// moves to the new position; `to_world` turns a screen position into
    /// the snapped drawing position (from the camera's position and zoom and
    /// the grid size), and `entity_key` measures the distance from an entity
    /// to the press for picking. `deleted` is the index of the entity that a
    /// release removed. Other events, and a button event before the pointer
    /// was ever seen, change nothing.
    pub open spec fn handle_event_post<M, W, T, E, R, D, O, K>(
        self,
        event: CanvasEvent<M, W>,
        store: GeometryStore<S>,
        camera: Camera<S, M>,
        grid_size: S,
        to_world: T,
        entity_key: E,
        ops: PlaneOps<R, D, O, K>,
        next: Self,
        next_store: GeometryStore<S>,
        deleted: Option<usize>,
    ) -> bool where
        T: Fn(Point<S>, S, S, M) -> Point<S>,
        E: Fn(&Entity<S>, Point<S>) -> u32,
        R: Fn(Point<S>, Point<S>) -> S,
        D: Fn(Point<S>, Point<S>, S) -> (Segment<S>, Segment<S>),
        O: Fn(Point<S>, Point<S>, Point<S>) -> Segment<S>,
        K: Fn(Point<S>, Point<S>) -> u32,
     {
        &&& next.settings == self.settings
        &&& match event {
            CanvasEvent::MouseInput { button: MouseButton::Left, pressed } => match camera.last_mouse_pos {
                Some(m) => exists|pos: Point<S>|
                    #[trigger] call_ensures(to_world, (camera.position, camera.zoom, grid_size, m), pos) && if pressed {
                        &&& deleted is None
                        &&& exists|keys: Seq<u32>|
                            {
                                &&& keys.len() == store.entities@.len()
                                &&& forall|i: int|
                                    0 <= i < keys.len() ==> call_ensures(
                                        entity_key,
                                        (&store.entities@[i], pos),
                                        #[trigger] keys[i],
                                    )
                                &&& #[trigger] self.active_tool.pressed(
                                    store,
                                    pos,
                                    keys,
                                    self.settings,
                                    relations(ops),
                                    next.active_tool,
                                    next_store,
                                )
                            }
                    } else {
                        self.active_tool.released(store, pos, relations(ops), next.active_tool, next_store, deleted)
                    },
                None => next == self && store.same_as(next_store) && deleted is None,
            },
            CanvasEvent::CursorMoved(m) => exists|pos: Point<S>|
                #[trigger] call_ensures(to_world, (camera.position, camera.zoom, grid_size, m), pos)
                    && self.active_tool.moved(store, pos, relations(ops), next.active_tool, next_store)
                    && deleted is None,
            _ => next == self && store.same_as(next_store) && deleted is None,
        }
    }

    /// Hands a window event to the active tool (see `handle_event_post`);
    /// answers the index of the entity that it removed, if any.
    pub fn handle_event<M, W, T, E, R, D, O, K>(
        &mut self,
        event: &CanvasEvent<M, W>,
        store: &mut GeometryStore<S>,
        camera: &Camera<S, M>,
        grid_size: S,
        to_world: &T,
        entity_key: &E,
        ops: &PlaneOps<R, D, O, K>,
    ) -> (deleted: Option<usize>) where
        M: Copy,
        W: Copy,
        T: Fn(Point<S>, S, S, M) -> Point<S>,
        E: Fn(&Entity<S>, Point<S>) -> u32,
        R: Fn(Point<S>, Point<S>) -> S,
        D: Fn(Point<S>, Point<S>, S) -> (Segment<S>, Segment<S>),
        O: Fn(Point<S>, Point<S>, Point<S>) -> Segment<S>,
        K: Fn(Point<S>, Point<S>) -> u32,

        requires
            forall|p: Point<S>, z: S, g: S, m: M| to_world.requires((p, z, g, m)),
            forall|e: &Entity<S>, p: Point<S>| entity_key.requires((e, p)),
            ops_callable(ops),
        ensures
            old(self).handle_event_post(
                *event,
                *old(store),
                *camera,
                grid_size,
                *to_world,
                *entity_key,
                *ops,
                *final(self),
                *final(store),
                deleted,
            ),
    {
        match event {
            CanvasEvent::MouseInput { button: MouseButton::Left, pressed } => {
                if let Some(m) = camera.last_mouse_pos {
                    let pos = to_world(camera.position, camera.zoom, grid_size, m);
                    if *pressed {
                        let keys = store.distance_keys(pos, entity_key);
                        self.on_mouse_down(pos, store, &keys, ops);
                        None
                    } else {
                        self.on_mouse_up(pos, store, ops)
                    }
                } else {
                    None
                }
            },
            CanvasEvent::CursorMoved(m) => {
                let pos = to_world(camera.position, camera.zoom, grid_size, *m);
                self.on_mouse_move(pos, store, ops);
                None
            },
            _ => None,
        }
    }
}

// --- Laws of the tools ---

impl<S: Copy, U> ActiveTool<S, U> {
    /// The tool has no gesture under way: nothing pressed, picked or targeted.
    /// (A polyline in progress is kept between presses by design.)
    pub open spec fn is_at_rest(self) -> bool {
        match self {
            ActiveTool::Line(t) => t.start_pos is None && !t.is_dragging,
            ActiveTool::Circle(t) => t.center is None && !t.is_dragging,
            ActiveTool::Rect(t) => t.start_pos is None && !t.is_dragging,
            ActiveTool::DoubleLine(t) => t.start_pos is None && !t.is_dragging,
            ActiveTool::Offset(t) => t.selected_idx is None && !t.is_dragging,
            ActiveTool::Delete(t) => t.target_idx is None,
            ActiveTool::Polyline(_) => true,
            ActiveTool::Custom(_) => false,
        }
    }

    /// A tool is pressed exactly when it holds the point or entity that the
    /// press chose. Every tool that the manager makes, and every state that
    /// the events lead to, is consistent.
    pub open spec fn is_consistent(self) -> bool {
        match self {
            ActiveTool::Line(t) => t.start_pos is Some == t.is_dragging,
            ActiveTool::Circle(t) => t.center is Some == t.is_dragging,
            ActiveTool::Rect(t) => t.start_pos is Some == t.is_dragging,
            ActiveTool::DoubleLine(t) => t.start_pos is Some == t.is_dragging,
            ActiveTool::Offset(t) => t.selected_idx is Some == t.is_dragging,
            ActiveTool::Delete(_) => true,
            ActiveTool::Polyline(_) => true,
            ActiveTool::Custom(_) => false,
        }
    }
}

/// A freshly activated tool is at rest and consistent.
pub proof fn lemma_fresh_tool_at_rest<S: Copy, U>(tool: ActiveTool<S, U>, kind: ToolKind, width: S)
    requires
        tool.is_fresh(kind, width),
    ensures
        tool.is_at_rest(),
        tool.is_consistent(),
{
}

/// Presses keep a tool consistent.
pub proof fn lemma_press_keeps_consistency<S: Copy, U: Tool<S>>(
    tool: ActiveTool<S, U>,
    store: GeometryStore<S>,
    pos: Point<S>,
    keys: Seq<u32>,
    settings: ToolSettings<S>,
    ops: PlaneRelations<S>,
    next: ActiveTool<S, U>,
    next_store: GeometryStore<S>,
)
    requires
        tool.is_consistent(),
        tool.pressed(store, pos, keys, settings, ops, next, next_store),
    ensures
        next.is_consistent(),
{
}

/// Moving the pointer never changes the committed drawing, whichever of the
/// library's tools is active.
pub proof fn lemma_move_keeps_drawing<S: Copy, U: Tool<S>>(
    tool: ActiveTool<S, U>,
    store: GeometryStore<S>,
    pos: Point<S>,
    ops: PlaneRelations<S>,
    next: ActiveTool<S, U>,
    next_store: GeometryStore<S>,
)
    requires
        !(tool is Custom),
        tool.moved(store, pos, ops, next, next_store),
    ensures
        next_store.entities@ == store.entities@,
{
}

/// A release always ends the gesture under way: afterwards the tool is at
/// rest, and it is still the same kind of tool.
pub proof fn lemma_release_ends_gesture<S: Copy, U: Tool<S>>(
    tool: ActiveTool<S, U>,
    store: GeometryStore<S>,
    pos: Point<S>,
    ops: PlaneRelations<S>,
    next: ActiveTool<S, U>,
    next_store: GeometryStore<S>,
    deleted: Option<usize>,
)
    requires
        tool.is_consistent(),
        tool.released(store, pos, ops, next, next_store, deleted),
    ensures
        next.is_at_rest(),
        next.is_consistent(),
{
}

/// With the line tool, a press at `a` and a release at `b` add the line from
/// `a` to `b` to the drawing and clear the preview, whatever moves happen in
/// between.
pub proof fn lemma_line_press_release<S: Copy>(
    tool: LineTool<S>,
    pressed: LineTool<S>,
    released: LineTool<S>,
    store: GeometryStore<S>,
    before_release: GeometryStore<S>,
    after: GeometryStore<S>,
    a: Point<S>,
    b: Point<S>,
)
    requires
        tool.down_post(a, pressed),
        before_release.entities@ == store.entities@,
        pressed.up_post(before_release, b, released, after),
    ensures
        store.commits(seq![line(a, b)], after),
        released == LineTool::<S>::new_spec(),
{
}

/// With the rectangle tool, a press at `a` and a release at `b` add the
/// rectangle with corners `a` and `b`.
pub proof fn lemma_rect_press_release<S: Copy>(
    tool: RectTool<S>,
    pressed: RectTool<S>,
    released: RectTool<S>,
    store: GeometryStore<S>,
    before_release: GeometryStore<S>,
    after: GeometryStore<S>,
    a: Point<S>,
    b: Point<S>,
)
    requires
        tool.down_post(a, pressed),
        before_release.entities@ == store.entities@,
        pressed.up_post(before_release, b, released, after),
    ensures
        store.commits(seq![Entity::Rect { p1: a, p2: b }], after),
        released == (RectTool::<S> { start_pos: None, is_dragging: false }),
{
}

/// With the circle tool, a press at `a` and a release at `b` add the circle
/// centered on `a` whose radius the application measured from `a` to `b`.
pub proof fn lemma_circle_press_release<S: Copy>(
    tool: CircleTool<S>,
    pressed: CircleTool<S>,
    released: CircleTool<S>,
    store: GeometryStore<S>,
    before_release: GeometryStore<S>,
    after: GeometryStore<S>,
    a: Point<S>,
    b: Point<S>,
    radius: spec_fn(Point<S>, Point<S>, S) -> bool,
)
    requires
        tool.down_post(a, pressed),
        before_release.entities@ == store.entities@,
        pressed.up_post(before_release, b, radius, released, after),
    ensures
        exists|r: S|
            #[trigger] radius(a, b, r) && store.commits(
                seq![Entity::Circle { center: a, radius: r }],
                after,
            ),
        released == (CircleTool::<S> { center: None, is_dragging: false }),
{
    let r = choose|r: S|
        #[trigger] radius(a, b, r) && before_release.commits(
            seq![Entity::Circle { center: a, radius: r }],
            after,
        );
    assert(store.commits(seq![Entity::Circle { center: a, radius: r }], after));
}

/// With the double line tool, a press at `a` and a release at `b` add the two
/// sides of the band of the tool's width around the segment from `a` to `b`.
pub proof fn lemma_double_line_press_release<S: Copy>(
    tool: DoubleLineTool<S>,
    pressed: DoubleLineTool<S>,
    released: DoubleLineTool<S>,
    store: GeometryStore<S>,
    before_release: GeometryStore<S>,
    after: GeometryStore<S>,
    a: Point<S>,
    b: Point<S>,
    parallel: spec_fn(Point<S>, Point<S>, S, (Segment<S>, Segment<S>)) -> bool,
)
    requires
        tool.down_post(a, pressed),
        before_release.entities@ == store.entities@,
        pressed.up_post(before_release, b, parallel, released, after),
    ensures
        exists|sides: (Segment<S>, Segment<S>)|
            #[trigger] parallel(a, b, tool.width, sides) && store.commits(
                band_lines(sides),
                after,
            ),
        released == (DoubleLineTool::<S> { start_pos: None, is_dragging: false, width: tool.width }),
{
    let sides = choose|sides: (Segment<S>, Segment<S>)|
        #[trigger] parallel(a, b, tool.width, sides) && before_release.commits(
            band_lines(sides),
            after,
        );
    assert(store.commits(band_lines(sides), after));
}

/// With the delete tool, a press and a release remove the line nearest to
/// the press within the pick radius, and nothing when none is that close;
/// the release reports the index of the line removed. `keys[i]` is the
/// order key of the distance from the press to entity `i`.
pub proof fn lemma_delete_press_release<S>(
    tool: DeleteTool,
    pressed: DeleteTool,
    released: DeleteTool,
    store: GeometryStore<S>,
    after: GeometryStore<S>,
    keys: Seq<u32>,
    pick_key: u32,
    nearest: Option<usize>,
    deleted: Option<usize>,
)
    requires
        keys.len() == store.entities@.len(),
        nearest_answer(pick_keys(store.entities@, keys), pick_key, nearest),
        tool.down_post(pick_keys(store.entities@, keys), pick_key, pressed),
        pressed.up_post(store, released, after),
        deleted == pressed.removed_index(store),
    ensures
        deleted == nearest,
        match nearest {
            Some(i) => store.entities@[i as int] is Line && after.entities@ == store.entities@.remove(i as int),
            None => after.entities@ == store.entities@,
        },
        after.temp_entities@ == store.temp_entities@,
        released == (DeleteTool { target_idx: None }),
{
    let pk = pick_keys(store.entities@, keys);
    let r = choose|r: Option<usize>| #[trigger] nearest_answer(pk, pick_key, r) && pressed == (DeleteTool { target_idx: r });
    crate::geometry::lemma_nearest_answer_unique(pk, pick_key, r, nearest);
    if let Some(i) = nearest {
        assert(pk[i as int] < pick_key);
    }
}

/// With the offset tool, a press picks the line nearest to the pointer
/// within the pick radius, and the release at `b` adds the copy of that line
/// moved to pass through `b`. A press far from every line adds nothing.
/// `keys[i]` is the order key of the distance from the press to entity `i`.
pub proof fn lemma_offset_press_release<S: Copy>(
    tool: OffsetTool,
    pressed: OffsetTool,
    released: OffsetTool,
    store: GeometryStore<S>,
    before_release: GeometryStore<S>,
    after: GeometryStore<S>,
    keys: Seq<u32>,
    pick_key: u32,
    nearest: Option<usize>,
    b: Point<S>,
    offset_through: spec_fn(Point<S>, Point<S>, Point<S>, Segment<S>) -> bool,
)
    requires
        tool == (OffsetTool { selected_idx: None, is_dragging: false }),
        keys.len() == store.entities@.len(),
        nearest_answer(pick_keys(store.entities@, keys), pick_key, nearest),
        tool.down_post(pick_keys(store.entities@, keys), pick_key, pressed),
        before_release.same_as(store),
        pressed.up_post(before_release, b, offset_through, released, after),
    ensures
        released == (OffsetTool { selected_idx: None, is_dragging: false }),
        match nearest {
            Some(i) => line_at(store, i) matches Some(seg) && exists|moved: Segment<S>|
                #[trigger] offset_through(seg.0, seg.1, b, moved) && store.commits(
                    seq![line(moved.0, moved.1)],
                    after,
                ),
            None => store.same_as(after),
        },
{
    let pk = pick_keys(store.entities@, keys);
    let r = choose|r: Option<usize>|
        #[trigger] nearest_answer(pk, pick_key, r) && match r {
            Some(i) => pressed == (OffsetTool { selected_idx: Some(i), is_dragging: true }),
            None => pressed == tool,
        };
    crate::geometry::lemma_nearest_answer_unique(pk, pick_key, r, nearest);
    if let Some(i) = nearest {
        assert(pk[i as int] < pick_key);
        assert(line_at(before_release, i) == line_at(store, i));
        let seg = line_at(store, i)->0;
        let moved = choose|moved: Segment<S>|
            #[trigger] offset_through(seg.0, seg.1, b, moved) && before_release.commits(
                seq![line(moved.0, moved.1)],
                after,
            );
        assert(store.commits(seq![line(moved.0, moved.1)], after));
    }
}

/// The polyline tool commits a polyline only when it has two vertices or
/// more, and then exactly the vertices placed so far.
pub proof fn lemma_polyline_commits_placed_vertices<S: Copy>(
    tool: PolylineTool<S>,
    store: GeometryStore<S>,
    pos: Point<S>,
    distance_key: spec_fn(Point<S>, Point<S>, u32) -> bool,
    close_key: u32,
    next: PolylineTool<S>,
    next_store: GeometryStore<S>,
)
    requires
        tool.down_post(store, pos, distance_key, close_key, next, next_store),
        next_store.entities@.len() != store.entities@.len(),
    ensures
        tool.points@.len() >= 2,
        next_store.entities@.len() == store.entities@.len() + 1,
        is_polyline_of(next_store.entities@.last(), tool.points@),
        next.points@.len() == 0,
{
}

/// Only the left button draws: a press or release of any other button
/// changes neither the tools nor the drawing, and removes nothing.
pub proof fn lemma_other_buttons_do_not_draw<S: Copy, U: Tool<S>, M, W, T, E, R, D, O, K>(
    manager: ToolManager<S, U>,
    button: MouseButton,
    pressed: bool,
    store: GeometryStore<S>,
    camera: Camera<S, M>,
    grid_size: S,
    to_world: T,
    entity_key: E,
    ops: PlaneOps<R, D, O, K>,
    next: ToolManager<S, U>,
    next_store: GeometryStore<S>,
    deleted: Option<usize>,
) where
    T: Fn(Point<S>, S, S, M) -> Point<S>,
    E: Fn(&Entity<S>, Point<S>) -> u32,
    R: Fn(Point<S>, Point<S>) -> S,
    D: Fn(Point<S>, Point<S>, S) -> (Segment<S>, Segment<S>),
    O: Fn(Point<S>, Point<S>, Point<S>) -> Segment<S>,
    K: Fn(Point<S>, Point<S>) -> u32,

    requires
        button != MouseButton::Left,
        manager.handle_event_post(
            CanvasEvent::<M, W>::MouseInput { button, pressed },
            store,
            camera,
            grid_size,
            to_world,
            entity_key,
            ops,
            next,
            next_store,
            deleted,
        ),
    ensures
        next == manager,
        next_store.entities@ == store.entities@,
        next_store.temp_entities@ == store.temp_entities@,
        deleted is None,
{
}

} // verus!
