use vstd::prelude::*;

use crate::geometry::{nearest_answer, nearest_below, Point};

verus! {

/// An entity of a framework document.
#[derive(Clone, Debug, PartialEq)]
pub enum Entity<S> {
    Line { p1: Point<S>, p2: Point<S> },
    Circle { center: Point<S>, radius: S },
}

/// What a snap point is on its entity.
#[derive(Clone, Copy, Debug, PartialEq, Eq)]
pub enum SnapType {
    Endpoint,
    Midpoint,
    Center,
}

/// A point that the cursor may snap to.
#[derive(Clone, Copy, Debug, PartialEq)]
pub struct SnapPoint<S> {
    pub point: Point<S>,
    pub snap_type: SnapType,
}

/// `snaps` are the snap points of `e`, in order: the two end points and the
/// midpoint of a line (as `midpoint` computes it), the center of a circle.
pub open spec fn snap_points_of<S, M: Fn(Point<S>, Point<S>) -> Point<S>>(
    e: Entity<S>,
    midpoint: M,
    snaps: Seq<SnapPoint<S>>,
) -> bool {
    match e {
        Entity::Line { p1, p2 } => {
            &&& snaps.len() == 3
            &&& snaps[0] == (SnapPoint { point: p1, snap_type: SnapType::Endpoint })
            &&& snaps[1] == (SnapPoint { point: p2, snap_type: SnapType::Endpoint })
            &&& snaps[2].snap_type == SnapType::Midpoint
            &&& call_ensures(midpoint, (p1, p2), snaps[2].point)
        },
        Entity::Circle { center, .. } => snaps == seq![
            SnapPoint { point: center, snap_type: SnapType::Center },
        ],
    }
}

/// The number of snap points of an entity.
pub open spec fn snap_count<S>(e: Entity<S>) -> int {
    match e {
        Entity::Line { .. } => 3,
        Entity::Circle { .. } => 1,
    }
}

/// `flat` lists the snap points of all `entities`, entity by entity.
pub open spec fn is_snap_listing<S, M: Fn(Point<S>, Point<S>) -> Point<S>>(
    entities: Seq<Entity<S>>,
    midpoint: M,
    flat: Seq<SnapPoint<S>>,
) -> bool
    decreases entities.len(),
{
    if entities.len() == 0 {
        flat.len() == 0
    } else {
        let k = flat.len() - snap_count(entities.last());
        &&& 0 <= k
        &&& is_snap_listing(entities.drop_last(), midpoint, flat.take(k))
        &&& snap_points_of(entities.last(), midpoint, flat.skip(k))
    }
}

impl<S: Copy> Entity<S> {
    /// The snap points of the entity.
    pub fn get_snap_points<M: Fn(Point<S>, Point<S>) -> Point<S>>(&self, midpoint: &M) -> (r: Vec<
        SnapPoint<S>,
    >)
        requires
            forall|a: Point<S>, b: Point<S>| midpoint.requires((a, b)),
        ensures
            snap_points_of(*self, *midpoint, r@),
    {
        match self {
            Entity::Line { p1, p2 } => {
                let mid = midpoint(*p1, *p2);
                let mut r: Vec<SnapPoint<S>> = Vec::new();
                r.push(SnapPoint { point: *p1, snap_type: SnapType::Endpoint });
                r.push(SnapPoint { point: *p2, snap_type: SnapType::Endpoint });
                r.push(SnapPoint { point: mid, snap_type: SnapType::Midpoint });
                r
            },
            Entity::Circle { center, .. } => {
                let mut r: Vec<SnapPoint<S>> = Vec::new();
                r.push(SnapPoint { point: *center, snap_type: SnapType::Center });
                assert(r@ =~= seq![SnapPoint { point: *center, snap_type: SnapType::Center }]);
                r
            },
        }
    }
}

/// The snap points of all entities, entity by entity.
pub fn all_snap_points<S: Copy, M: Fn(Point<S>, Point<S>) -> Point<S>>(
    entities: &[Entity<S>],
    midpoint: &M,
) -> (r: Vec<SnapPoint<S>>)
    requires
        forall|a: Point<S>, b: Point<S>| midpoint.requires((a, b)),
    ensures
        is_snap_listing(entities@, *midpoint, r@),
{
    let mut flat: Vec<SnapPoint<S>> = Vec::new();
    let n = entities.len();
    assert(entities@.take(0) =~= Seq::<Entity<S>>::empty());
    for i in 0..n
        invariant
            n == entities@.len(),
            forall|a: Point<S>, b: Point<S>| midpoint.requires((a, b)),
            is_snap_listing(entities@.take(i as int), *midpoint, flat@),
    {
        let snaps = entities[i].get_snap_points(midpoint);
        let ghost before = flat@;
        let m = snaps.len();
        for j in 0..m
            invariant
                m == snaps@.len(),
                flat@ == before + snaps@.take(j as int),
        {
            flat.push(snaps[j]);
            assert(snaps@.take(j + 1) =~= snaps@.take(j as int).push(snaps@[j as int]));
        }
        assert(snaps@.take(m as int) =~= snaps@);
        let ghost upto = entities@.take(i + 1);
        assert(upto.drop_last() =~= entities@.take(i as int));
        assert(upto.last() == entities@[i as int]);
        assert(flat@.take(before.len() as int) =~= before);
        assert(flat@.skip(before.len() as int) =~= snaps@);
    }
    assert(entities@.take(n as int) =~= entities@);
    flat
}

/// The snap point closest to the cursor among those closer than the
/// threshold, the first one of equally close snap points. `distance_key`
/// gives the order key of the squared distance between two points, and
/// `threshold_key` is the key of the squared threshold.
pub fn find_closest_snap_point<S, M, K>(
    entities: &[Entity<S>],
    cursor_pos: Point<S>,
    threshold_key: u32,
    midpoint: &M,
    distance_key: &K,
) -> (r: Option<SnapPoint<S>>) where
    S: Copy,
    M: Fn(Point<S>, Point<S>) -> Point<S>,
    K: Fn(Point<S>, Point<S>) -> u32,

    requires
        forall|a: Point<S>, b: Point<S>| midpoint.requires((a, b)),
        forall|a: Point<S>, b: Point<S>| distance_key.requires((a, b)),
    ensures
        exists|flat: Seq<SnapPoint<S>>, keys: Seq<u32>, i: Option<usize>|
            {
                &&& #[trigger] is_snap_listing(entities@, *midpoint, flat)
                &&& keys.len() == flat.len()
                &&& forall|j: int|
                    0 <= j < flat.len() ==> call_ensures(
                        *distance_key,
                        (flat[j].point, cursor_pos),
                        #[trigger] keys[j],
                    )
                &&& #[trigger] nearest_answer(keys, threshold_key, i)
                &&& r == match i {
                    Some(k) => Some(flat[k as int]),
                    None => None,
                }
            },
{
    let flat = all_snap_points(entities, midpoint);
    let mut keys: Vec<u32> = Vec::new();
    let n = flat.len();
    for j in 0..n
        invariant
            n == flat@.len(),
            forall|a: Point<S>, b: Point<S>| distance_key.requires((a, b)),
            keys@.len() == j,
            forall|t: int|
                0 <= t < j ==> call_ensures(*distance_key, (flat@[t].point, cursor_pos), #[trigger] keys@[t]),
    {
        let k = distance_key(flat[j].point, cursor_pos);
        keys.push(k);
    }
    let best = nearest_below(&keys, threshold_key);
    let r = match best {
        Some(k) => Some(flat[k]),
        None => None,
    };
    assert(is_snap_listing(entities@, *midpoint, flat@));
    assert(nearest_answer(keys@, threshold_key, best));
    r
}

/// A layer of a document: its entities in drawing order.
pub struct Layer<S> {
    pub entities: Vec<Entity<S>>,
}

/// A document: its layers, and the layer that new entities go to.
pub struct Document<S> {
    pub layers: Vec<Layer<S>>,
    pub active_layer_index: usize,
}

impl<S> Document<S> {
    /// A document with one empty layer, which is active.
    pub fn new() -> (doc: Self)
        ensures
            doc.layers@.len() == 1,
            doc.layers@[0].entities@ == Seq::<Entity<S>>::empty(),
            doc.active_layer_index == 0,
    {
        let mut layers: Vec<Layer<S>> = Vec::new();
        layers.push(Layer { entities: Vec::new() });
        Document { layers, active_layer_index: 0 }
    }

    /// The document has a layer at the active index.
    pub open spec fn has_active_layer(self) -> bool {
        self.active_layer_index < self.layers@.len()
    }

    /// The entities of layer `i`.
    pub open spec fn layer_entities(self, i: int) -> Seq<Entity<S>> {
        self.layers@[i].entities@
    }

    /// Both documents have the same layers with the same entities, and the
    /// same active layer.
    pub open spec fn same_as(self, other: Self) -> bool {
        &&& self.active_layer_index == other.active_layer_index
        &&& self.layers@.len() == other.layers@.len()
        &&& forall|i: int| 0 <= i < self.layers@.len() ==> #[trigger] self.layer_entities(i) =~= other.layer_entities(i)
    }

    /// `next` is `self` with the entities of the active layer replaced by
    /// `entities`.
    pub open spec fn with_active_entities(self, entities: Seq<Entity<S>>, next: Self) -> bool {
        &&& next.active_layer_index == self.active_layer_index
        &&& next.layers@.len() == self.layers@.len()
        &&& next.layer_entities(self.active_layer_index as int) =~= entities
        &&& forall|i: int|
            0 <= i < self.layers@.len() && i != self.active_layer_index ==> #[trigger] next.layer_entities(i)
                =~= self.layer_entities(i)
    }

    /// Appends `entity` to the active layer; a document without an active
    /// layer stays as it is.
    pub fn add_entity(&mut self, entity: Entity<S>)
        ensures
            if old(self).has_active_layer() {
                old(self).with_active_entities(
                    old(self).layer_entities(old(self).active_layer_index as int).push(entity),
                    *final(self),
                )
            } else {
                old(self).same_as(*final(self))
            },
    {
        let i = self.active_layer_index;
        if i < self.layers.len() {
            self.layers[i].entities.push(entity);
        }
    }
}

} // verus!
