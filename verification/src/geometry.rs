use vstd::prelude::*;

verus! {

/// A point (or a vector) of the drawing plane. The coordinates have the
/// scalar type `S` of the application; the library stores and moves them but
/// never computes with them.
#[derive(Clone, Copy, Debug, PartialEq)]
pub struct Point<S> {
    pub x: S,
    pub y: S,
}

impl<S: Copy> Point<S> {
    pub fn new(x: S, y: S) -> (p: Point<S>)
        ensures
            p == (Point { x, y }),
    {
        Point { x, y }
    }
}

/// A segment given by its two end points.
pub type Segment<S> = (Point<S>, Point<S>);

/// One element of a drawing.
#[derive(Clone, Debug, PartialEq)]
pub enum Entity<S> {
    Line { start: Point<S>, end: Point<S> },
    Circle { center: Point<S>, radius: S },
    Rect { p1: Point<S>, p2: Point<S> },
    Polyline { points: Vec<Point<S>> },
}

/// The drawing: the entities committed so far, and the entities that a tool
/// shows as a preview while the user is still drawing.
pub struct GeometryStore<S> {
    pub entities: Vec<Entity<S>>,
    pub temp_entities: Vec<Entity<S>>,
}

/// The line from `start` to `end`.
pub open spec fn line<S>(start: Point<S>, end: Point<S>) -> Entity<S> {
    Entity::Line { start, end }
}

/// `i` is the index of the smallest key that lies below `threshold`, and of
/// the first such key where several are equal.
pub open spec fn is_nearest_below(keys: Seq<u32>, threshold: u32, i: int) -> bool {
    &&& 0 <= i < keys.len()
    &&& keys[i] < threshold
    &&& forall|j: int| 0 <= j < keys.len() ==> keys[i] <= #[trigger] keys[j]
    &&& forall|j: int| 0 <= j < i ==> keys[i] < #[trigger] keys[j]
}

/// No key lies below `threshold`.
pub open spec fn none_below(keys: Seq<u32>, threshold: u32) -> bool {
    forall|j: int| 0 <= j < keys.len() ==> threshold <= #[trigger] keys[j]
}

/// The keys by which entities are picked: a line keeps its distance key,
/// every other entity gets the largest key, which lies below no threshold,
/// so that only lines are ever picked.
pub open spec fn pick_keys<S>(entities: Seq<Entity<S>>, keys: Seq<u32>) -> Seq<u32> {
    Seq::new(keys.len(), |i: int| if entities[i] is Line { keys[i] } else { u32::MAX })
}

/// What a search for the nearest candidate within a threshold answers:
/// the index of the nearest one, or nothing when none is close enough.
pub open spec fn nearest_answer(keys: Seq<u32>, threshold: u32, r: Option<usize>) -> bool {
    match r {
        None => none_below(keys, threshold),
        Some(i) => is_nearest_below(keys, threshold, i as int),
    }
}

/// The search answers one value at most.
pub proof fn lemma_nearest_answer_unique(
    keys: Seq<u32>,
    threshold: u32,
    a: Option<usize>,
    b: Option<usize>,
)
    requires
        nearest_answer(keys, threshold, a),
        nearest_answer(keys, threshold, b),
    ensures
        a == b,
{
    match (a, b) {
        (Some(i), Some(j)) => {
            if i < j {
                assert(keys[j as int] < keys[i as int]);
            } else if j < i {
                assert(keys[i as int] < keys[j as int]);
            }
        },
        (Some(i), None) => {
            assert(threshold <= keys[i as int]);
        },
        (None, Some(j)) => {
            assert(threshold <= keys[j as int]);
        },
        (None, None) => {},
    }
}

/// Finds the candidate nearest to the pointer among those closer than a
/// threshold. Each candidate is given by the order key of its distance (a
/// key that orders as the distances do), the threshold by the key of the
/// threshold distance. A candidate wins only when it is strictly closer than
/// the best one so far, so the first of equally near candidates is chosen.
pub fn nearest_below(keys: &Vec<u32>, threshold: u32) -> (r: Option<usize>)
    ensures
        nearest_answer(keys@, threshold, r),
{
    let mut best: Option<usize> = None;
    let mut min: u32 = threshold;
    let n = keys.len();
    for i in 0..n
        invariant
            n == keys@.len(),
            min <= threshold,
            forall|j: int| 0 <= j < i ==> min <= #[trigger] keys@[j],
            match best {
                None => min == threshold,
                Some(b) => {
                    &&& b < i
                    &&& min == keys@[b as int]
                    &&& min < threshold
                    &&& forall|j: int| 0 <= j < b ==> min < #[trigger] keys@[j]
                },
            },
    {
        if keys[i] < min {
            best = Some(i);
            min = keys[i];
        }
    }
    best
}

impl<S> GeometryStore<S> {
    /// An empty drawing with no preview.
    pub fn new() -> (store: Self)
        ensures
            store.entities@ == Seq::<Entity<S>>::empty(),
            store.temp_entities@ == Seq::<Entity<S>>::empty(),
    {
        GeometryStore { entities: Vec::new(), temp_entities: Vec::new() }
    }

    /// Both stores hold the same entities and the same preview.
    pub open spec fn same_as(self, other: Self) -> bool {
        &&& self.entities@ =~= other.entities@
        &&& self.temp_entities@ =~= other.temp_entities@
    }

    /// `next` shows `preview` in place of the former preview; the committed
    /// entities are those of `self`.
    pub open spec fn shows_preview(self, preview: Seq<Entity<S>>, next: Self) -> bool {
        &&& next.entities@ =~= self.entities@
        &&& next.temp_entities@ =~= preview
    }

    /// `next` holds the entities of `self` followed by `committed`, and no
    /// preview.
    pub open spec fn commits(self, committed: Seq<Entity<S>>, next: Self) -> bool {
        &&& next.entities@ =~= self.entities@ + committed
        &&& next.temp_entities@ =~= Seq::<Entity<S>>::empty()
    }

    /// Appends the line from `start` to `end` to the drawing.
    pub fn add_line(&mut self, start: Point<S>, end: Point<S>)
        ensures
            final(self).entities@ == old(self).entities@.push(line(start, end)),
            final(self).temp_entities@ == old(self).temp_entities@,
    {
        self.entities.push(Entity::Line { start, end });
    }

    /// The index of the line nearest to the pointer among those closer than
    /// the threshold, where `distance_keys[i]` is the order key of the
    /// distance from the pointer to entity `i` and `threshold_key` that of
    /// the threshold. Entities other than lines are never picked.
    pub fn find_nearest_entity(&self, distance_keys: &Vec<u32>, threshold_key: u32) -> (r: Option<
        usize,
    >)
        requires
            distance_keys@.len() == self.entities@.len(),
        ensures
            nearest_answer(pick_keys(self.entities@, distance_keys@), threshold_key, r),
            r matches Some(i) ==> i < self.entities@.len() && self.entities@[i as int] is Line,
    {
        let n = self.entities.len();
        let mut masked: Vec<u32> = Vec::new();
        for i in 0..n
            invariant
                n == self.entities@.len(),
                n == distance_keys@.len(),
                masked@ == pick_keys(self.entities@, distance_keys@).take(i as int),
        {
            let k = match &self.entities[i] {
                Entity::Line { .. } => distance_keys[i],
                _ => u32::MAX,
            };
            masked.push(k);
            assert(masked@ =~= pick_keys(self.entities@, distance_keys@).take(i + 1));
        }
        assert(masked@ =~= pick_keys(self.entities@, distance_keys@));
        nearest_below(&masked, threshold_key)
    }
}

impl<S: Copy> GeometryStore<S> {
    /// The order key of the distance from `pos` to each entity, as
    /// `distance_key` measures it.
    pub fn distance_keys<E: Fn(&Entity<S>, Point<S>) -> u32>(&self, pos: Point<S>, distance_key: &E) -> (r:
        Vec<u32>)
        requires
            forall|e: &Entity<S>, p: Point<S>| distance_key.requires((e, p)),
        ensures
            r@.len() == self.entities@.len(),
            forall|i: int|
                0 <= i < r@.len() ==> call_ensures(*distance_key, (&self.entities@[i], pos), #[trigger] r@[i]),
    {
        let mut r: Vec<u32> = Vec::new();
        let n = self.entities.len();
        for i in 0..n
            invariant
                n == self.entities@.len(),
                r@.len() == i,
                forall|e: &Entity<S>, p: Point<S>| distance_key.requires((e, p)),
                forall|j: int|
                    0 <= j < i ==> call_ensures(*distance_key, (&self.entities@[j], pos), #[trigger] r@[j]),
        {
            let k = distance_key(&self.entities[i], pos);
            r.push(k);
        }
        r
    }
}

impl<S> Default for GeometryStore<S> {
    fn default() -> (store: Self)
        ensures
            store.entities@ == Seq::<Entity<S>>::empty(),
            store.temp_entities@ == Seq::<Entity<S>>::empty(),
    {
        GeometryStore::new()
    }
}

/// Grid snapping of pointer positions. Rounding to the grid is arithmetic on
/// the coordinates, which the application provides.
pub struct Snapper;

} // verus!
