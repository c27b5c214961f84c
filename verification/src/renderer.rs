use vstd::prelude::*;

use crate::geometry::{Entity, GeometryStore, Point, Segment};

verus! {

/// The number of chords that draw a circle.
pub const CIRCLE_SEGMENTS: u32 = 64;

/// The number of line segments that draw an entity.
pub open spec fn segment_count<S>(e: Entity<S>) -> int {
    match e {
        Entity::Line { .. } => 1,
        Entity::Rect { .. } => 4,
        Entity::Circle { .. } => CIRCLE_SEGMENTS as int,
        Entity::Polyline { points } => if points@.len() > 0 {
            points@.len() - 1
        } else {
            0
        },
    }
}

/// `segs` are the line segments that draw `e`: a line itself; the four sides
/// of a rectangle, around from its first corner; the chords between
/// consecutive rim points of a circle (as `rim` places the `i`-th of `n`
/// points); the pieces of a polyline between consecutive vertices.
pub open spec fn draws<S, C: Fn(Point<S>, S, u32, u32) -> Point<S>>(
    e: Entity<S>,
    rim: C,
    segs: Seq<Segment<S>>,
) -> bool {
    &&& segs.len() == segment_count(e)
    &&& match e {
        Entity::Line { start, end } => segs[0] == (start, end),
        Entity::Rect { p1, p2 } => {
            let p3 = Point { x: p2.x, y: p1.y };
            let p4 = Point { x: p1.x, y: p2.y };
            segs == seq![(p1, p3), (p3, p2), (p2, p4), (p4, p1)]
        },
        Entity::Circle { center, radius } => forall|i: int|
            0 <= i < CIRCLE_SEGMENTS ==> {
                &&& call_ensures(rim, (center, radius, i as u32, CIRCLE_SEGMENTS), #[trigger] segs[i].0)
                &&& call_ensures(rim, (center, radius, (i + 1) as u32, CIRCLE_SEGMENTS), segs[i].1)
            },
        Entity::Polyline { points } => forall|i: int|
            0 <= i < segs.len() ==> #[trigger] segs[i] == (points@[i], points@[i + 1]),
    }
}

/// `flat` lists the segments of all `entities`, entity by entity.
pub open spec fn draws_all<S, C: Fn(Point<S>, S, u32, u32) -> Point<S>>(
    entities: Seq<Entity<S>>,
    rim: C,
    flat: Seq<Segment<S>>,
) -> bool
    decreases entities.len(),
{
    if entities.len() == 0 {
        flat.len() == 0
    } else {
        let k = flat.len() - segment_count(entities.last());
        &&& 0 <= k
        &&& draws_all(entities.drop_last(), rim, flat.take(k))
        &&& draws(entities.last(), rim, flat.skip(k))
    }
}

/// The line segments that draw an entity.
pub fn entity_segments<S: Copy, C: Fn(Point<S>, S, u32, u32) -> Point<S>>(
    entity: &Entity<S>,
    rim: &C,
) -> (r: Vec<Segment<S>>)
    requires
        forall|c: Point<S>, rad: S, i: u32, n: u32| rim.requires((c, rad, i, n)),
    ensures
        draws(*entity, *rim, r@),
{
    let mut r: Vec<Segment<S>> = Vec::new();
    match entity {
        Entity::Line { start, end } => {
            r.push((*start, *end));
        },
        Entity::Rect { p1, p2 } => {
            let p3 = Point::new(p2.x, p1.y);
            let p4 = Point::new(p1.x, p2.y);
            r.push((*p1, p3));
            r.push((p3, *p2));
            r.push((*p2, p4));
            r.push((p4, *p1));
            assert(r@ =~= seq![(*p1, p3), (p3, *p2), (*p2, p4), (p4, *p1)]);
        },
        Entity::Circle { center, radius } => {
            let mut i: u32 = 0;
            while i < CIRCLE_SEGMENTS
                invariant
                    i <= CIRCLE_SEGMENTS,
                    r@.len() == i,
                    forall|c: Point<S>, rad: S, k: u32, n: u32| rim.requires((c, rad, k, n)),
                    forall|k: int|
                        0 <= k < i ==> {
                            &&& call_ensures(*rim, (*center, *radius, k as u32, CIRCLE_SEGMENTS), #[trigger] r@[k].0)
                            &&& call_ensures(*rim, (*center, *radius, (k + 1) as u32, CIRCLE_SEGMENTS), r@[k].1)
                        },
                decreases CIRCLE_SEGMENTS - i,
            {
                let a = rim(*center, *radius, i, CIRCLE_SEGMENTS);
                let b = rim(*center, *radius, i + 1, CIRCLE_SEGMENTS);
                r.push((a, b));
                i = i + 1;
            }
        },
        Entity::Polyline { points } => {
            let n = points.len();
            if n > 0 {
                for i in 0..n - 1
                    invariant
                        n == points@.len(),
                        n > 0,
                        r@.len() == i,
                        forall|k: int| 0 <= k < i ==> #[trigger] r@[k] == (points@[k], points@[k + 1]),
                {
                    r.push((points[i], points[i + 1]));
                }
            }
        },
    }
    r
}

/// The line segments that draw all entities, entity by entity.
pub fn segments_of<S: Copy, C: Fn(Point<S>, S, u32, u32) -> Point<S>>(
    entities: &Vec<Entity<S>>,
    rim: &C,
) -> (r: Vec<Segment<S>>)
    requires
        forall|c: Point<S>, rad: S, i: u32, n: u32| rim.requires((c, rad, i, n)),
    ensures
        draws_all(entities@, *rim, r@),
{
    let mut flat: Vec<Segment<S>> = Vec::new();
    let n = entities.len();
    assert(entities@.take(0) =~= Seq::<Entity<S>>::empty());
    for i in 0..n
        invariant
            n == entities@.len(),
            forall|c: Point<S>, rad: S, k: u32, m: u32| rim.requires((c, rad, k, m)),
            draws_all(entities@.take(i as int), *rim, flat@),
    {
        let segs = entity_segments(&entities[i], rim);
        let ghost before = flat@;
        let m = segs.len();
        for j in 0..m
            invariant
                m == segs@.len(),
                flat@ == before + segs@.take(j as int),
        {
            flat.push(segs[j]);
            assert(segs@.take(j + 1) =~= segs@.take(j as int).push(segs@[j as int]));
        }
        assert(segs@.take(m as int) =~= segs@);
        let ghost upto = entities@.take(i + 1);
        assert(upto.drop_last() =~= entities@.take(i as int));
        assert(upto.last() == entities@[i as int]);
        assert(flat@.take(before.len() as int) =~= before);
        assert(flat@.skip(before.len() as int) =~= segs@);
    }
    assert(entities@.take(n as int) =~= entities@);
    flat
}

/// The segments of a frame: the committed entities, then the preview drawn
/// over them.
pub fn scene_segments<S: Copy, C: Fn(Point<S>, S, u32, u32) -> Point<S>>(
    store: &GeometryStore<S>,
    rim: &C,
) -> (r: (Vec<Segment<S>>, Vec<Segment<S>>))
    requires
        forall|c: Point<S>, rad: S, i: u32, n: u32| rim.requires((c, rad, i, n)),
    ensures
        draws_all(store.entities@, *rim, r.0@),
        draws_all(store.temp_entities@, *rim, r.1@),
{
    (segments_of(&store.entities, rim), segments_of(&store.temp_entities, rim))
}

/// A rectangle is drawn as a closed outline through both given corners:
/// each side starts where the previous one ends.
pub proof fn lemma_rect_outline_closed<S, C: Fn(Point<S>, S, u32, u32) -> Point<S>>(
    p1: Point<S>,
    p2: Point<S>,
    rim: C,
    segs: Seq<Segment<S>>,
)
    requires
        draws(Entity::Rect { p1, p2 }, rim, segs),
    ensures
        segs.len() == 4,
        forall|i: int| 0 <= i < 4 ==> #[trigger] segs[i].1 == segs[(i + 1) % 4].0,
        segs[0].0 == p1,
        segs[1].1 == p2,
{
}

/// A polyline is drawn as a connected path from its first vertex to its
/// last, piece by piece.
pub proof fn lemma_polyline_path<S, C: Fn(Point<S>, S, u32, u32) -> Point<S>>(
    points: Vec<Point<S>>,
    rim: C,
    segs: Seq<Segment<S>>,
)
    requires
        draws(Entity::Polyline { points }, rim, segs),
        points@.len() >= 2,
    ensures
        segs.len() == points@.len() - 1,
        segs[0].0 == points@[0],
        segs.last().1 == points@.last(),
        forall|i: int| 0 <= i < segs.len() - 1 ==> #[trigger] segs[i].1 == segs[i + 1].0,
{
    assert(segs[0] == (points@[0], points@[1]));
    assert(segs[segs.len() - 1] == (points@[segs.len() - 1], points@[segs.len() as int]));
    assert forall|i: int| 0 <= i < segs.len() - 1 implies #[trigger] segs[i].1 == segs[i + 1].0 by {
        assert(segs[i] == (points@[i], points@[i + 1]));
        assert(segs[i + 1] == (points@[i + 1], points@[i + 2]));
    }
}

/// `rim` places each point at one spot: the same arguments give the same
/// point.
pub open spec fn rim_is_function<S, C: Fn(Point<S>, S, u32, u32) -> Point<S>>(rim: C) -> bool {
    forall|c: Point<S>, r: S, i: u32, n: u32, a: Point<S>, b: Point<S>|
        #[trigger] call_ensures(rim, (c, r, i, n), a) && #[trigger] call_ensures(rim, (c, r, i, n), b) ==> a == b
}

/// `rim` comes back to its first point after a full turn: the `n`-th of `n`
/// points is the `0`-th.
pub open spec fn rim_is_periodic<S, C: Fn(Point<S>, S, u32, u32) -> Point<S>>(rim: C) -> bool {
    forall|c: Point<S>, r: S, n: u32, a: Point<S>, b: Point<S>|
        #[trigger] call_ensures(rim, (c, r, n, n), a) && #[trigger] call_ensures(rim, (c, r, 0u32, n), b) ==> a
            == b
}

/// A circle is drawn as a closed outline that goes once all the way round:
/// its chords start at the rim's first point (of `CIRCLE_SEGMENTS`), each
/// chord starts where the one before it ends, and the last one ends back at
/// the first point, for any rim that places each point at one spot and comes
/// back to its first point after a full turn.
pub proof fn lemma_circle_outline_closed<S, C: Fn(Point<S>, S, u32, u32) -> Point<S>>(
    center: Point<S>,
    radius: S,
    rim: C,
    segs: Seq<Segment<S>>,
)
    requires
        rim_is_function(rim),
        rim_is_periodic(rim),
        draws(Entity::Circle { center, radius }, rim, segs),
    ensures
        segs.len() == CIRCLE_SEGMENTS,
        forall|p: Point<S>| call_ensures(rim, (center, radius, 0u32, CIRCLE_SEGMENTS), p) ==> segs[0].0 == p,
        forall|i: int| 0 <= i < CIRCLE_SEGMENTS - 1 ==> #[trigger] segs[i].1 == segs[i + 1].0,
        segs[CIRCLE_SEGMENTS - 1].1 == segs[0].0,
{
    let n = CIRCLE_SEGMENTS as int;
    assert(call_ensures(rim, (center, radius, 0u32, CIRCLE_SEGMENTS), segs[0].0));
    assert(call_ensures(rim, (center, radius, (n - 1) as u32, CIRCLE_SEGMENTS), segs[n - 1].0));
    assert(call_ensures(rim, (center, radius, CIRCLE_SEGMENTS, CIRCLE_SEGMENTS), segs[n - 1].1));
    assert forall|i: int| 0 <= i < n - 1 implies #[trigger] segs[i].1 == segs[i + 1].0 by {
        assert(call_ensures(rim, (center, radius, i as u32, CIRCLE_SEGMENTS), segs[i].0));
        assert(call_ensures(rim, (center, radius, (i + 1) as u32, CIRCLE_SEGMENTS), segs[i].1));
        assert(call_ensures(rim, (center, radius, (i + 1) as u32, CIRCLE_SEGMENTS), segs[i + 1].0));
    }
}

} // verus!
