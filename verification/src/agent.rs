use vstd::prelude::*;

use crate::geometry::{line, Entity, GeometryStore, Point, Segment};
use crate::tools::{band_lines, is_polyline_of, kind_of_name, line_at, Tool, ToolManager};

verus! {

/// The arguments of an agent command, as the JSON request carried them. A
/// number holds its value in the application's scalar type and, when it is
/// a non-negative integer, that integer too.
#[derive(Debug)]
pub enum ArgValue<S> {
    Null,
    Bool(bool),
    Number { value: S, unsigned: Option<u64> },
    Text(String),
    Array(Vec<ArgValue<S>>),
    Object(Vec<(String, ArgValue<S>)>),
}

/// The value of the first field named `key`.
pub open spec fn find_field<S>(fields: Seq<(String, ArgValue<S>)>, key: Seq<char>) -> Option<ArgValue<S>>
    decreases fields.len(),
{
    if fields.len() == 0 {
        None
    } else if fields[0].0@ == key {
        Some(fields[0].1)
    } else {
        find_field(fields.drop_first(), key)
    }
}

impl<S: Copy> ArgValue<S> {
    /// The field `key` of an object; nothing for any other value.
    pub open spec fn field(self, key: Seq<char>) -> Option<ArgValue<S>> {
        match self {
            ArgValue::Object(fields) => find_field(fields@, key),
            _ => None,
        }
    }

    pub fn get(&self, key: &str) -> (r: Option<&ArgValue<S>>)
        ensures
            match r {
                Some(v) => self.field(key@) == Some(*v),
                None => self.field(key@) is None,
            },
    {
        match self {
            ArgValue::Object(fields) => {
                let k = key.to_owned();
                let n = fields.len();
                assert(fields@.skip(0) =~= fields@);
                for i in 0..n
                    invariant
                        n == fields@.len(),
                        k@ == key@,
                        self.field(key@) == find_field(fields@, key@),
                        find_field(fields@, key@) == find_field(fields@.skip(i as int), key@),
                {
                    assert(fields@.skip(i as int).drop_first() =~= fields@.skip(i + 1));
                    assert(fields@.skip(i as int)[0] == fields@[i as int]);
                    if fields[i].0 == k {
                        assert(find_field(fields@.skip(i as int), key@) == Some(fields@[i as int].1));
                        return Some(&fields[i].1);
                    }
                }
                None
            },
            _ => None,
        }
    }

    pub fn as_array(&self) -> (r: Option<&Vec<ArgValue<S>>>)
        ensures
            match r {
                Some(a) => *self == ArgValue::Array(*a),
                None => !(*self is Array),
            },
    {
        match self {
            ArgValue::Array(a) => Some(a),
            _ => None,
        }
    }

    pub fn as_str(&self) -> (r: Option<&String>)
        ensures
            match r {
                Some(t) => *self == ArgValue::<S>::Text(*t),
                None => !(*self is Text),
            },
    {
        match self {
            ArgValue::Text(t) => Some(t),
            _ => None,
        }
    }

    /// The value of a number.
    pub open spec fn number(self) -> Option<S> {
        match self {
            ArgValue::Number { value, .. } => Some(value),
            _ => None,
        }
    }

    pub fn as_number(&self) -> (r: Option<S>)
        ensures
            r == self.number(),
    {
        match self {
            ArgValue::Number { value, .. } => Some(*value),
            _ => None,
        }
    }

    /// The integer of a non-negative integer number.
    pub open spec fn unsigned(self) -> Option<u64> {
        match self {
            ArgValue::Number { unsigned, .. } => unsigned,
            _ => None,
        }
    }

    pub fn as_u64(&self) -> (r: Option<u64>)
        ensures
            r == self.unsigned(),
    {
        match self {
            ArgValue::Number { unsigned, .. } => *unsigned,
            _ => None,
        }
    }
}

/// The array of exactly two elements that `v` is, if it is one.
pub open spec fn pair_of<S>(v: Option<ArgValue<S>>) -> Option<Seq<ArgValue<S>>> {
    match v {
        Some(ArgValue::Array(a)) => if a@.len() == 2 {
            Some(a@)
        } else {
            None
        },
        _ => None,
    }
}

/// Both elements of the pair are numbers.
pub open spec fn is_numeric_pair<S: Copy>(p: Seq<ArgValue<S>>) -> bool {
    p[0].number() is Some && p[1].number() is Some
}

/// The point whose coordinates a numeric pair holds.
pub open spec fn pair_point<S: Copy>(p: Seq<ArgValue<S>>) -> Point<S> {
    Point { x: p[0].number()->0, y: p[1].number()->0 }
}

/// The number that `v` is, or `default`.
pub open spec fn number_or<S: Copy>(v: Option<ArgValue<S>>, default: S) -> S {
    match v {
        Some(x) => match x.number() {
            Some(n) => n,
            None => default,
        },
        None => default,
    }
}

/// The vertices of a polyline argument: each element that is an array of two
/// elements gives a vertex, whose coordinates are its numbers (`default` for
/// an element that is no number); other elements are skipped.
pub open spec fn polyline_points<S: Copy>(pts: Seq<ArgValue<S>>, default: S) -> Seq<Point<S>>
    decreases pts.len(),
{
    if pts.len() == 0 {
        Seq::empty()
    } else {
        let rest = polyline_points(pts.drop_last(), default);
        match pts.last() {
            ArgValue::Array(a) => if a@.len() == 2 {
                rest.push(Point { x: number_or(Some(a@[0]), default), y: number_or(Some(a@[1]), default) })
            } else {
                rest
            },
            _ => rest,
        }
    }
}

/// The values that commands use when an argument leaves them out, in the
/// application's scalar type.
#[derive(Clone, Copy, Debug)]
pub struct CommandDefaults<S> {
    /// The width of a double line.
    pub width: S,
    /// The distance of an offset.
    pub distance: S,
    /// A polyline coordinate that is no number.
    pub coordinate: S,
}

/// The answer to an agent command.
#[derive(Debug)]
pub struct CommandResponse {
    pub status: String,
    pub message: String,
}

/// The response has this status and message.
pub open spec fn replied(r: CommandResponse, status: Seq<char>, message: Seq<char>) -> bool {
    r.status@ == status && r.message@ == message
}

fn reply(status: &str, message: &str) -> (r: CommandResponse)
    ensures
        replied(r, status@, message@),
{
    CommandResponse { status: status.to_owned(), message: message.to_owned() }
}

/// The response, and a line for the application's log when a command names
/// a tool that does not exist.
#[derive(Debug)]
pub struct CommandOutcome {
    pub response: CommandResponse,
    pub notice: Option<String>,
}

/// The commands that the agent can send.
#[derive(Clone, Copy, Debug, PartialEq, Eq)]
pub enum CommandKind {
    SetTool,
    DrawLine,
    DrawCircle,
    DrawRect,
    DrawDoubleLine,
    OffsetEntity,
    DeleteEntity,
    DrawPolyline,
}

pub open spec fn kind_of_action(action: Seq<char>) -> Option<CommandKind> {
    if action == "set_tool"@ {
        Some(CommandKind::SetTool)
    } else if action == "draw_line"@ {
        Some(CommandKind::DrawLine)
    } else if action == "draw_circle"@ {
        Some(CommandKind::DrawCircle)
    } else if action == "draw_rect"@ {
        Some(CommandKind::DrawRect)
    } else if action == "draw_double_line"@ {
        Some(CommandKind::DrawDoubleLine)
    } else if action == "offset_entity"@ {
        Some(CommandKind::OffsetEntity)
    } else if action == "delete_entity"@ {
        Some(CommandKind::DeleteEntity)
    } else if action == "draw_polyline"@ {
        Some(CommandKind::DrawPolyline)
    } else {
        None
    }
}

/// The command named by an action.
pub fn command_kind(action: &str) -> (r: Option<CommandKind>)
    ensures
        r == kind_of_action(action@),
{
    let a = action.to_owned();
    if a == "set_tool".to_owned() {
        Some(CommandKind::SetTool)
    } else if a == "draw_line".to_owned() {
        Some(CommandKind::DrawLine)
    } else if a == "draw_circle".to_owned() {
        Some(CommandKind::DrawCircle)
    } else if a == "draw_rect".to_owned() {
        Some(CommandKind::DrawRect)
    } else if a == "draw_double_line".to_owned() {
        Some(CommandKind::DrawDoubleLine)
    } else if a == "offset_entity".to_owned() {
        Some(CommandKind::OffsetEntity)
    } else if a == "delete_entity".to_owned() {
        Some(CommandKind::DeleteEntity)
    } else if a == "draw_polyline".to_owned() {
        Some(CommandKind::DrawPolyline)
    } else {
        None
    }
}

/// The keys of the two points of the drawing commands that take two.
pub open spec fn two_point_keys(kind: CommandKind) -> (Seq<char>, Seq<char>) {
    if kind == CommandKind::DrawRect {
        ("p1"@, "p2"@)
    } else {
        ("start"@, "end"@)
    }
}

/// The entity index that the `id` argument names.
pub open spec fn id_arg<S: Copy>(args: ArgValue<S>) -> Option<usize> {
    match args.field("id"@) {
        Some(v) => match v.unsigned() {
            Some(u) => Some(u as usize),
            None => None,
        },
        None => None,
    }
}

/// The point that the `direction` argument gives, if it is a pair.
pub open spec fn direction_arg<S: Copy>(args: ArgValue<S>) -> Option<Point<S>> {
    match pair_of(args.field("direction"@)) {
        Some(d) => Some(pair_point(d)),
        None => None,
    }
}

/// The command would reach for a coordinate that is no number: the
/// application stops there (the server panics) rather than run it.
pub open spec fn command_panics<S: Copy>(
    action: Seq<char>,
    args: ArgValue<S>,
    store: GeometryStore<S>,
) -> bool {
    match kind_of_action(action) {
        Some(CommandKind::DrawLine) | Some(CommandKind::DrawRect) | Some(CommandKind::DrawDoubleLine) => {
            let keys = two_point_keys(kind_of_action(action)->0);
            &&& pair_of(args.field(keys.0)) is Some
            &&& pair_of(args.field(keys.1)) is Some
            &&& !(is_numeric_pair(pair_of(args.field(keys.0))->0) && is_numeric_pair(
                pair_of(args.field(keys.1))->0,
            ))
        },
        Some(CommandKind::DrawCircle) => {
            &&& pair_of(args.field("center"@)) is Some
            &&& match args.field("radius"@) {
                Some(r) => r.number() is Some,
                None => false,
            }
            &&& !is_numeric_pair(pair_of(args.field("center"@))->0)
        },
        Some(CommandKind::OffsetEntity) => {
            &&& id_arg(args) is Some
            &&& line_at(store, id_arg(args)->0) is Some
            &&& pair_of(args.field("direction"@)) is Some
            &&& !is_numeric_pair(pair_of(args.field("direction"@))->0)
        },
        _ => false,
    }
}

/// The command changes nothing and answers that it is unknown (the answer
/// to an unknown action, and to a known one whose arguments do not fit).
pub open spec fn declined<S, U>(
    store: GeometryStore<S>,
    tools: ToolManager<S, U>,
    next_store: GeometryStore<S>,
    next_tools: ToolManager<S, U>,
    out: CommandOutcome,
) -> bool {
    &&& store.same_as(next_store)
    &&& next_tools == tools
    &&& replied(out.response, "error"@, "Unknown command"@)
    &&& out.notice is None
}

/// The command appended `added` to the drawing and answers `ok` with
/// `message`.
pub open spec fn added<S, U>(
    store: GeometryStore<S>,
    tools: ToolManager<S, U>,
    added: Seq<Entity<S>>,
    message: Seq<char>,
    next_store: GeometryStore<S>,
    next_tools: ToolManager<S, U>,
    out: CommandOutcome,
) -> bool {
    &&& next_store.entities@ =~= store.entities@ + added
    &&& next_store.temp_entities@ =~= store.temp_entities@
    &&& next_tools == tools
    &&& replied(out.response, "ok"@, message)
    &&& out.notice is None
}

/// What an agent command does to the drawing and the tools, and what it
/// answers.
pub open spec fn command_post<S: Copy, U: Tool<S>, D, B>(
    action: Seq<char>,
    args: ArgValue<S>,
    store: GeometryStore<S>,
    tools: ToolManager<S, U>,
    defaults: CommandDefaults<S>,
    parallel: D,
    offset_by: B,
    next_store: GeometryStore<S>,
    next_tools: ToolManager<S, U>,
    out: CommandOutcome,
) -> bool where
    D: Fn(Point<S>, Point<S>, S) -> (Segment<S>, Segment<S>),
    B: Fn(Point<S>, Point<S>, S, Option<Point<S>>) -> Segment<S>,
 {
    match kind_of_action(action) {
        Some(CommandKind::SetTool) => match args.field("name"@) {
            Some(ArgValue::Text(t)) => {
                &&& tools.set_tool_post(t@, next_tools)
                &&& store.same_as(next_store)
                &&& replied(out.response, "ok"@, "Tool set to "@ + t@)
                &&& match out.notice {
                    Some(n) => kind_of_name(t@) is None && n@ == "Unknown tool: "@ + t@,
                    None => kind_of_name(t@) is Some,
                }
            },
            _ => declined(store, tools, next_store, next_tools, out),
        },
        Some(CommandKind::DrawLine) => match (pair_of(args.field("start"@)), pair_of(args.field("end"@))) {
            (Some(a), Some(b)) => added(
                store,
                tools,
                seq![line(pair_point(a), pair_point(b))],
                "Line added"@,
                next_store,
                next_tools,
                out,
            ),
            _ => declined(store, tools, next_store, next_tools, out),
        },
        Some(CommandKind::DrawCircle) => {
            let center = pair_of(args.field("center"@));
            let radius = match args.field("radius"@) {
                Some(r) => r.number(),
                None => None,
            };
            if center is Some && radius is Some {
                added(
                    store,
                    tools,
                    seq![Entity::Circle { center: pair_point(center->0), radius: radius->0 }],
                    "Circle added"@,
                    next_store,
                    next_tools,
                    out,
                )
            } else {
                declined(store, tools, next_store, next_tools, out)
            }
        },
        Some(CommandKind::DrawRect) => match (pair_of(args.field("p1"@)), pair_of(args.field("p2"@))) {
            (Some(a), Some(b)) => added(
                store,
                tools,
                seq![Entity::Rect { p1: pair_point(a), p2: pair_point(b) }],
                "Rect added"@,
                next_store,
                next_tools,
                out,
            ),
            _ => declined(store, tools, next_store, next_tools, out),
        },
        Some(CommandKind::DrawDoubleLine) => match (
            pair_of(args.field("start"@)),
            pair_of(args.field("end"@)),
        ) {
            (Some(a), Some(b)) => exists|sides: (Segment<S>, Segment<S>)|
                #[trigger] call_ensures(
                    parallel,
                    (pair_point(a), pair_point(b), number_or(args.field("width"@), defaults.width)),
                    sides,
                ) && added(store, tools, band_lines(sides), "Double Line added"@, next_store, next_tools, out),
            _ => declined(store, tools, next_store, next_tools, out),
        },
        Some(CommandKind::OffsetEntity) => if id_arg(args) is Some && line_at(store, id_arg(args)->0) is Some {
            {
                let (start, end) = line_at(store, id_arg(args)->0)->0;
                let direction = direction_arg(args);
                exists|seg: Segment<S>|
                    #[trigger] call_ensures(
                        offset_by,
                        (start, end, number_or(args.field("distance"@), defaults.distance), direction),
                        seg,
                    ) && added(
                        store,
                        tools,
                        seq![line(seg.0, seg.1)],
                        "Entity offset"@,
                        next_store,
                        next_tools,
                        out,
                    )
            }
        } else {
            declined(store, tools, next_store, next_tools, out)
        },
        Some(CommandKind::DeleteEntity) => match id_arg(args) {
            Some(i) => if i < store.entities@.len() {
                &&& next_store.entities@ =~= store.entities@.remove(i as int)
                &&& next_store.temp_entities@ =~= store.temp_entities@
                &&& next_tools == tools
                &&& replied(out.response, "ok"@, "Entity deleted"@)
                &&& out.notice is None
            } else {
                &&& store.same_as(next_store)
                &&& next_tools == tools
                &&& replied(out.response, "error"@, "Index out of bounds"@)
                &&& out.notice is None
            },
            None => declined(store, tools, next_store, next_tools, out),
        },
        Some(CommandKind::DrawPolyline) => match args.field("points"@) {
            Some(ArgValue::Array(pts)) => if polyline_points(pts@, defaults.coordinate).len() >= 2 {
                &&& next_store.entities@.len() == store.entities@.len() + 1
                &&& next_store.entities@.take(store.entities@.len() as int) =~= store.entities@
                &&& is_polyline_of(next_store.entities@.last(), polyline_points(pts@, defaults.coordinate))
                &&& next_store.temp_entities@ =~= store.temp_entities@
                &&& next_tools == tools
                &&& replied(out.response, "ok"@, "Polyline added"@)
                &&& out.notice is None
            } else {
                declined(store, tools, next_store, next_tools, out)
            },
            _ => declined(store, tools, next_store, next_tools, out),
        },
        None => declined(store, tools, next_store, next_tools, out),
    }
}

/// The argument `key` when it is an array of two elements.
fn pair_arg<'a, S: Copy>(args: &'a ArgValue<S>, key: &str) -> (r: Option<&'a Vec<ArgValue<S>>>)
    ensures
        match r {
            Some(a) => pair_of(args.field(key@)) == Some(a@),
            None => pair_of(args.field(key@)) is None,
        },
{
    match args.get(key) {
        Some(v) => match v.as_array() {
            Some(a) => if a.len() == 2 {
                Some(a)
            } else {
                None
            },
            None => None,
        },
        None => None,
    }
}

/// The point of a numeric pair.
fn read_point<S: Copy>(pair: &Vec<ArgValue<S>>) -> (p: Point<S>)
    requires
        pair@.len() == 2,
        is_numeric_pair(pair@),
    ensures
        p == pair_point(pair@),
{
    Point::new(pair[0].as_number().unwrap(), pair[1].as_number().unwrap())
}

/// The number argument `key`, or `default`.
fn number_arg<S: Copy>(args: &ArgValue<S>, key: &str, default: S) -> (r: S)
    ensures
        r == number_or(args.field(key@), default),
{
    match args.get(key) {
        Some(v) => match v.as_number() {
            Some(n) => n,
            None => default,
        },
        None => default,
    }
}

/// The entity index of the `id` argument.
fn read_id<S: Copy>(args: &ArgValue<S>) -> (r: Option<usize>)
    ensures
        r == id_arg(*args),
{
    match args.get("id") {
        Some(v) => match v.as_u64() {
            Some(u) => Some(#[verifier::truncate] (u as usize)),
            None => None,
        },
        None => None,
    }
}

/// The vertices of a polyline argument.
fn read_polyline_points<S: Copy>(pts: &Vec<ArgValue<S>>, default: S) -> (r: Vec<Point<S>>)
    ensures
        r@ == polyline_points(pts@, default),
{
    let mut r: Vec<Point<S>> = Vec::new();
    let n = pts.len();
    assert(pts@.take(0) =~= Seq::<ArgValue<S>>::empty());
    for i in 0..n
        invariant
            n == pts@.len(),
            r@ == polyline_points(pts@.take(i as int), default),
    {
        assert(pts@.take(i + 1).drop_last() =~= pts@.take(i as int));
        assert(pts@.take(i + 1).last() == pts@[i as int]);
        if let Some(arr) = pts[i].as_array() {
            if arr.len() == 2 {
                let x = match arr[0].as_number() {
                    Some(v) => v,
                    None => default,
                };
                let y = match arr[1].as_number() {
                    Some(v) => v,
                    None => default,
                };
                r.push(Point::new(x, y));
            }
        }
    }
    assert(pts@.take(n as int) =~= pts@);
    r
}

/// Whether running the command would reach for a coordinate that is no
/// number (the application stops there instead of running it).
pub fn command_would_panic<S: Copy>(action: &str, args: &ArgValue<S>, store: &GeometryStore<S>) -> (r:
    bool)
    ensures
        r == command_panics(action@, *args, *store),
{
    match command_kind(action) {
        Some(CommandKind::DrawLine) | Some(CommandKind::DrawDoubleLine) => two_points_panic(args, "start", "end"),
        Some(CommandKind::DrawRect) => two_points_panic(args, "p1", "p2"),
        Some(CommandKind::DrawCircle) => {
            match (pair_arg(args, "center"), args.get("radius")) {
                (Some(c), Some(r)) => r.as_number().is_some() && !numeric_pair(c),
                _ => false,
            }
        },
        Some(CommandKind::OffsetEntity) => {
            match read_id(args) {
                Some(i) => {
                    if crate::tools::get_line(store, i).is_some() {
                        match pair_arg(args, "direction") {
                            Some(d) => !numeric_pair(d),
                            None => false,
                        }
                    } else {
                        false
                    }
                },
                None => false,
            }
        },
        _ => false,
    }
}

fn numeric_pair<S: Copy>(pair: &Vec<ArgValue<S>>) -> (r: bool)
    requires
        pair@.len() == 2,
    ensures
        r == is_numeric_pair(pair@),
{
    pair[0].as_number().is_some() && pair[1].as_number().is_some()
}

fn two_points_panic<S: Copy>(args: &ArgValue<S>, k1: &str, k2: &str) -> (r: bool)
    ensures
        r == (pair_of(args.field(k1@)) is Some && pair_of(args.field(k2@)) is Some && !(is_numeric_pair(
            pair_of(args.field(k1@))->0,
        ) && is_numeric_pair(pair_of(args.field(k2@))->0))),
{
    match (pair_arg(args, k1), pair_arg(args, k2)) {
        (Some(a), Some(b)) => !(numeric_pair(a) && numeric_pair(b)),
        _ => false,
    }
}

fn ok_outcome(message: String) -> (out: CommandOutcome)
    ensures
        replied(out.response, "ok"@, message@),
        out.notice is None,
{
    CommandOutcome {
        response: CommandResponse { status: "ok".to_owned(), message },
        notice: None,
    }
}

/// Runs an agent command on the drawing and the tools. The coordinates come
/// as numbers of the arguments; `parallel` gives the two sides of a band
/// around a segment, and `offset_by` moves a segment along its normal by a
/// distance (toward a point, when one is given).
pub fn handle_command<S: Copy, U: Tool<S>, D, B>(
    action: &str,
    args: &ArgValue<S>,
    store: &mut GeometryStore<S>,
    tools: &mut ToolManager<S, U>,
    defaults: CommandDefaults<S>,
    parallel: &D,
    offset_by: &B,
) -> (out: CommandOutcome) where
    D: Fn(Point<S>, Point<S>, S) -> (Segment<S>, Segment<S>),
    B: Fn(Point<S>, Point<S>, S, Option<Point<S>>) -> Segment<S>,

    requires
        !command_panics(action@, *args, *old(store)),
        forall|a: Point<S>, b: Point<S>, w: S| parallel.requires((a, b, w)),
        forall|a: Point<S>, b: Point<S>, d: S, t: Option<Point<S>>| offset_by.requires((a, b, d, t)),
    ensures
        command_post(
            action@,
            *args,
            *old(store),
            *old(tools),
            defaults,
            *parallel,
            *offset_by,
            *final(store),
            *final(tools),
            out,
        ),
{
    match command_kind(action) {
        Some(CommandKind::SetTool) => {
            if let Some(v) = args.get("name") {
                if let Some(t) = v.as_str() {
                    let known = tools.set_active_tool(t.as_str());
                    let mut message = "Tool set to ".to_owned();
                    message.append(t.as_str());
                    let notice = if known {
                        None
                    } else {
                        let mut n = "Unknown tool: ".to_owned();
                        n.append(t.as_str());
                        Some(n)
                    };
                    return CommandOutcome {
                        response: CommandResponse { status: "ok".to_owned(), message },
                        notice,
                    };
                }
            }
        },
        Some(CommandKind::DrawLine) => {
            if let (Some(a), Some(b)) = (pair_arg(args, "start"), pair_arg(args, "end")) {
                let start = read_point(a);
                let end = read_point(b);
                store.add_line(start, end);
                return ok_outcome("Line added".to_owned());
            }
        },
        Some(CommandKind::DrawCircle) => {
            if let (Some(c), Some(r)) = (pair_arg(args, "center"), args.get("radius")) {
                if let Some(radius) = r.as_number() {
                    let center = read_point(c);
                    store.entities.push(Entity::Circle { center, radius });
                    return ok_outcome("Circle added".to_owned());
                }
            }
        },
        Some(CommandKind::DrawRect) => {
            if let (Some(a), Some(b)) = (pair_arg(args, "p1"), pair_arg(args, "p2")) {
                let p1 = read_point(a);
                let p2 = read_point(b);
                store.entities.push(Entity::Rect { p1, p2 });
                return ok_outcome("Rect added".to_owned());
            }
        },
        Some(CommandKind::DrawDoubleLine) => {
            let width = number_arg(args, "width", defaults.width);
            if let (Some(a), Some(b)) = (pair_arg(args, "start"), pair_arg(args, "end")) {
                let start = read_point(a);
                let end = read_point(b);
                let sides = parallel(start, end, width);
                store.entities.push(Entity::Line { start: sides.0.0, end: sides.0.1 });
                store.entities.push(Entity::Line { start: sides.1.0, end: sides.1.1 });
                assert(store.entities@ =~= old(store).entities@ + band_lines(sides));
                return ok_outcome("Double Line added".to_owned());
            }
        },
        Some(CommandKind::OffsetEntity) => {
            let distance = number_arg(args, "distance", defaults.distance);
            if let Some(idx) = read_id(args) {
                if let Some((start, end)) = crate::tools::get_line(store, idx) {
                    let direction = match pair_arg(args, "direction") {
                        Some(d) => Some(read_point(d)),
                        None => None,
                    };
                    let seg = offset_by(start, end, distance, direction);
                    store.entities.push(Entity::Line { start: seg.0, end: seg.1 });
                    return ok_outcome("Entity offset".to_owned());
                }
            }
        },
        Some(CommandKind::DeleteEntity) => {
            if let Some(idx) = read_id(args) {
                if idx < store.entities.len() {
                    store.entities.remove(idx);
                    return ok_outcome("Entity deleted".to_owned());
                } else {
                    return CommandOutcome { response: reply("error", "Index out of bounds"), notice: None };
                }
            }
        },
        Some(CommandKind::DrawPolyline) => {
            if let Some(v) = args.get("points") {
                if let Some(pts) = v.as_array() {
                    let points = read_polyline_points(pts, defaults.coordinate);
                    if points.len() >= 2 {
                        store.entities.push(Entity::Polyline { points });
                        assert(store.entities@.take(old(store).entities@.len() as int) =~= old(store).entities@);
                        return ok_outcome("Polyline added".to_owned());
                    }
                }
            }
        },
        None => {},
    }
    CommandOutcome { response: reply("error", "Unknown command"), notice: None }
}

/// A command answered with an error changes neither the drawing nor the
/// tools.
pub proof fn lemma_refused_command_changes_nothing<S: Copy, U: Tool<S>, D, B>(
    action: Seq<char>,
    args: ArgValue<S>,
    store: GeometryStore<S>,
    tools: ToolManager<S, U>,
    defaults: CommandDefaults<S>,
    parallel: D,
    offset_by: B,
    next_store: GeometryStore<S>,
    next_tools: ToolManager<S, U>,
    out: CommandOutcome,
) where
    D: Fn(Point<S>, Point<S>, S) -> (Segment<S>, Segment<S>),
    B: Fn(Point<S>, Point<S>, S, Option<Point<S>>) -> Segment<S>,

    requires
        command_post(action, args, store, tools, defaults, parallel, offset_by, next_store, next_tools, out),
        out.response.status@ == "error"@,
    ensures
        store.same_as(next_store),
        next_tools == tools,
{
    reveal_strlit("ok");
    reveal_strlit("error");
    assert("ok"@.len() == 2 && "error"@.len() == 5);
}

// --- The framework's agent interface: requests become commands for the app ---

/// A command that the agent sends to the application's main loop.
#[derive(Debug, PartialEq)]
pub enum AgentCommand<S> {
    SelectTool(String),
    DrawLine { x1: S, y1: S, x2: S, y2: S },
    Undo,
    Redo,
}

/// `r` is the command that a request names, if it names one: `undo`,
/// `redo`, `select_tool` with the tool's name from the `name` argument (the
/// empty name when there is none), and `draw_line`, which draws the fixed
/// test line `test_line` for now.
pub open spec fn answers_request<S: Copy>(
    command: Seq<char>,
    args: Option<&ArgValue<S>>,
    test_line: (S, S, S, S),
    r: Option<AgentCommand<S>>,
) -> bool {
    if command == "undo"@ {
        r == Some(AgentCommand::<S>::Undo)
    } else if command == "redo"@ {
        r == Some(AgentCommand::<S>::Redo)
    } else if command == "select_tool"@ {
        r matches Some(AgentCommand::SelectTool(name)) && name@ == requested_tool_name(args)
    } else if command == "draw_line"@ {
        r == Some(AgentCommand::DrawLine { x1: test_line.0, y1: test_line.1, x2: test_line.2, y2: test_line.3 })
    } else {
        r is None
    }
}

/// The tool name that a `select_tool` request carries.
pub open spec fn requested_tool_name<S: Copy>(args: Option<&ArgValue<S>>) -> Seq<char> {
    match args {
        Some(a) => match a.field("name"@) {
            Some(ArgValue::Text(t)) => t@,
            _ => Seq::empty(),
        },
        None => Seq::empty(),
    }
}

/// Turns an agent request into the command for the main loop; `None` when
/// the request names no command.
pub fn agent_command_for<S: Copy>(
    command: &str,
    args: Option<&ArgValue<S>>,
    test_line: (S, S, S, S),
) -> (r: Option<AgentCommand<S>>)
    ensures
        answers_request(command@, args, test_line, r),
{
    let c = command.to_owned();
    if c == "undo".to_owned() {
        Some(AgentCommand::Undo)
    } else if c == "redo".to_owned() {
        Some(AgentCommand::Redo)
    } else if c == "select_tool".to_owned() {
        let mut name = String::new();
        if let Some(a) = args {
            if let Some(v) = a.get("name") {
                if let Some(t) = v.as_str() {
                    name = t.clone();
                }
            }
        }
        Some(AgentCommand::SelectTool(name))
    } else if c == "draw_line".to_owned() {
        Some(AgentCommand::DrawLine { x1: test_line.0, y1: test_line.1, x2: test_line.2, y2: test_line.3 })
    } else {
        None
    }
}

/// `delete_entity` with an id in range (as an index) removes exactly the
/// entity at that index: the entities before it stay where they were, those after it move
/// down by one, and the command answers `ok` / `Entity deleted`.
pub proof fn lemma_delete_entity_removes_given_id<S: Copy, U: Tool<S>, D, B>(
    action: Seq<char>,
    args: ArgValue<S>,
    store: GeometryStore<S>,
    tools: ToolManager<S, U>,
    defaults: CommandDefaults<S>,
    parallel: D,
    offset_by: B,
    next_store: GeometryStore<S>,
    next_tools: ToolManager<S, U>,
    out: CommandOutcome,
    id: ArgValue<S>,
    i: u64,
) where
    D: Fn(Point<S>, Point<S>, S) -> (Segment<S>, Segment<S>),
    B: Fn(Point<S>, Point<S>, S, Option<Point<S>>) -> Segment<S>,

    requires
        kind_of_action(action) == Some(CommandKind::DeleteEntity),
        args.field("id"@) == Some(id),
        id.unsigned() == Some(i),
        (i as usize) < store.entities@.len(),
        command_post(action, args, store, tools, defaults, parallel, offset_by, next_store, next_tools, out),
    ensures
        next_store.entities@.len() + 1 == store.entities@.len(),
        forall|j: int| 0 <= j < i as usize ==> #[trigger] next_store.entities@[j] == store.entities@[j],
        forall|j: int|
            i as usize <= j < next_store.entities@.len() ==> #[trigger] next_store.entities@[j] == store.entities@[j
                + 1],
        next_tools == tools,
        out.response.status@ == "ok"@,
        out.response.message@ == "Entity deleted"@,
{
    assert(id_arg(args) == Some(i as usize));
}

/// `offset_entity` with the id of a line adds, at the end of the drawing, a
/// copy of exactly that line as `offset_by` moves it (by the `distance`
/// argument, toward the `direction` point when one is given); the drawing
/// keeps everything it had.
pub proof fn lemma_offset_entity_moves_given_line<S: Copy, U: Tool<S>, D, B>(
    action: Seq<char>,
    args: ArgValue<S>,
    store: GeometryStore<S>,
    tools: ToolManager<S, U>,
    defaults: CommandDefaults<S>,
    parallel: D,
    offset_by: B,
    next_store: GeometryStore<S>,
    next_tools: ToolManager<S, U>,
    out: CommandOutcome,
    id: ArgValue<S>,
    i: u64,
    start: Point<S>,
    end: Point<S>,
) where
    D: Fn(Point<S>, Point<S>, S) -> (Segment<S>, Segment<S>),
    B: Fn(Point<S>, Point<S>, S, Option<Point<S>>) -> Segment<S>,

    requires
        kind_of_action(action) == Some(CommandKind::OffsetEntity),
        args.field("id"@) == Some(id),
        id.unsigned() == Some(i),
        (i as usize) < store.entities@.len(),
        store.entities@[(i as usize) as int] == (Entity::Line { start, end }),
        command_post(action, args, store, tools, defaults, parallel, offset_by, next_store, next_tools, out),
    ensures
        exists|seg: Segment<S>|
            #[trigger] call_ensures(
                offset_by,
                (start, end, number_or(args.field("distance"@), defaults.distance), direction_arg(args)),
                seg,
            ) && next_store.entities@ == store.entities@.push(Entity::Line { start: seg.0, end: seg.1 }),
        next_tools == tools,
{
    assert(id_arg(args) == Some(i as usize));
    let seg = choose|seg: Segment<S>|
        #[trigger] call_ensures(
            offset_by,
            (start, end, number_or(args.field("distance"@), defaults.distance), direction_arg(args)),
            seg,
        ) && added(store, tools, seq![line(seg.0, seg.1)], "Entity offset"@, next_store, next_tools, out);
    assert(next_store.entities@ =~= store.entities@.push(Entity::Line { start: seg.0, end: seg.1 }));
}

} // verus!
