use rust_cad_framework::agent::{
    agent_command_for, command_kind, command_would_panic, handle_command, AgentCommand, ArgValue, CommandDefaults,
    CommandKind, CommandOutcome,
};
use rust_cad_framework::geometry::{Entity, GeometryStore, Point, Segment};
use rust_cad_framework::tools::{ActiveTool, ToolManager, ToolSettings};

type P = Point<f32>;

fn p(x: f32, y: f32) -> P {
    Point::new(x, y)
}

fn num(v: f32) -> ArgValue<f32> {
    ArgValue::Number { value: v, unsigned: None }
}

fn integer(v: u64) -> ArgValue<f32> {
    ArgValue::Number { value: v as f32, unsigned: Some(v) }
}

fn pair(x: f32, y: f32) -> ArgValue<f32> {
    ArgValue::Array(vec![num(x), num(y)])
}

fn obj(fields: Vec<(&str, ArgValue<f32>)>) -> ArgValue<f32> {
    ArgValue::Object(fields.into_iter().map(|(k, v)| (k.to_string(), v)).collect())
}

fn normal_unit(a: P, b: P) -> P {
    let (dx, dy) = (b.x - a.x, b.y - a.y);
    let (nx, ny) = (-dy, dx);
    let l = (nx * nx + ny * ny).sqrt();
    if l == 0.0 { p(0.0, 0.0) } else { p(nx / l, ny / l) }
}

fn parallel(s: P, e: P, w: f32) -> (Segment<f32>, Segment<f32>) {
    let n = normal_unit(s, e);
    let (ox, oy) = (n.x * w / 2.0, n.y * w / 2.0);
    ((p(s.x + ox, s.y + oy), p(e.x + ox, e.y + oy)), (p(s.x - ox, s.y - oy), p(e.x - ox, e.y - oy)))
}

fn offset_by(s: P, e: P, d: f32, toward: Option<P>) -> Segment<f32> {
    let n = normal_unit(s, e);
    let sign = match toward {
        Some(q) => {
            if (q.x - s.x) * n.x + (q.y - s.y) * n.y > 0.0 { 1.0 } else { -1.0 }
        }
        None => 1.0,
    };
    let (ox, oy) = (n.x * d * sign, n.y * d * sign);
    (p(s.x + ox, s.y + oy), p(e.x + ox, e.y + oy))
}

fn defaults() -> CommandDefaults<f32> {
    CommandDefaults { width: 20.0, distance: 20.0, coordinate: 0.0 }
}

fn run(action: &str, args: ArgValue<f32>, store: &mut GeometryStore<f32>, tools: &mut ToolManager<f32>) -> CommandOutcome {
    assert!(!command_would_panic(action, &args, store));
    handle_command(action, &args, store, tools, defaults(), &parallel, &offset_by)
}

fn fresh() -> (GeometryStore<f32>, ToolManager<f32>) {
    (
        GeometryStore::new(),
        ToolManager::new(ToolSettings { double_line_width: 20.0, pick_radius_key: 0, close_radius_key: 0 }),
    )
}

fn answer(out: &CommandOutcome) -> (String, String) {
    (out.response.status.clone(), out.response.message.clone())
}

#[test]
fn command_kinds_by_name() {
    assert_eq!(command_kind("draw_line"), Some(CommandKind::DrawLine));
    assert_eq!(command_kind("draw_polyline"), Some(CommandKind::DrawPolyline));
    assert_eq!(command_kind("fly"), None);
}

#[test]
fn draw_line_command_adds_line() {
    let (mut store, mut tools) = fresh();
    let out = run("draw_line", obj(vec![("start", pair(0.0, 0.0)), ("end", pair(500.0, 500.0))]), &mut store, &mut tools);
    assert_eq!(answer(&out), ("ok".to_string(), "Line added".to_string()));
    assert_eq!(store.entities, vec![Entity::Line { start: p(0.0, 0.0), end: p(500.0, 500.0) }]);
}

#[test]
fn draw_line_with_short_array_is_unknown() {
    let (mut store, mut tools) = fresh();
    let out = run(
        "draw_line",
        obj(vec![("start", ArgValue::Array(vec![num(1.0)])), ("end", pair(5.0, 5.0))]),
        &mut store,
        &mut tools,
    );
    assert_eq!(answer(&out), ("error".to_string(), "Unknown command".to_string()));
    assert!(store.entities.is_empty());
}

#[test]
fn non_numeric_coordinate_would_panic() {
    let (store, _) = fresh();
    let args = obj(vec![("start", ArgValue::Array(vec![ArgValue::Text("a".to_string()), num(1.0)])), ("end", pair(5.0, 5.0))]);
    assert!(command_would_panic("draw_line", &args, &store));
    assert!(!command_would_panic("draw_polyline", &args, &store));
}

#[test]
fn draw_circle_and_rect_commands() {
    let (mut store, mut tools) = fresh();
    let out = run("draw_circle", obj(vec![("center", pair(1.0, 2.0)), ("radius", num(3.0))]), &mut store, &mut tools);
    assert_eq!(out.response.message, "Circle added");
    let out = run("draw_rect", obj(vec![("p1", pair(0.0, 0.0)), ("p2", pair(4.0, 3.0))]), &mut store, &mut tools);
    assert_eq!(out.response.message, "Rect added");
    assert_eq!(
        store.entities,
        vec![
            Entity::Circle { center: p(1.0, 2.0), radius: 3.0 },
            Entity::Rect { p1: p(0.0, 0.0), p2: p(4.0, 3.0) },
        ]
    );
    let out = run("draw_circle", obj(vec![("center", pair(1.0, 2.0))]), &mut store, &mut tools);
    assert_eq!(answer(&out), ("error".to_string(), "Unknown command".to_string()));
}

#[test]
fn draw_double_line_uses_default_width() {
    let (mut store, mut tools) = fresh();
    let out = run("draw_double_line", obj(vec![("start", pair(0.0, 0.0)), ("end", pair(10.0, 0.0))]), &mut store, &mut tools);
    assert_eq!(out.response.message, "Double Line added");
    assert_eq!(
        store.entities,
        vec![
            Entity::Line { start: p(0.0, 10.0), end: p(10.0, 10.0) },
            Entity::Line { start: p(0.0, -10.0), end: p(10.0, -10.0) },
        ]
    );
    let out = run(
        "draw_double_line",
        obj(vec![("start", pair(0.0, 0.0)), ("end", pair(10.0, 0.0)), ("width", num(4.0))]),
        &mut store,
        &mut tools,
    );
    assert_eq!(out.response.status, "ok");
    assert_eq!(store.entities[2], Entity::Line { start: p(0.0, 2.0), end: p(10.0, 2.0) });
}

#[test]
fn offset_entity_toward_direction() {
    let (mut store, mut tools) = fresh();
    store.add_line(p(0.0, 0.0), p(10.0, 0.0));
    let out = run(
        "offset_entity",
        obj(vec![("id", integer(0)), ("distance", num(5.0)), ("direction", pair(3.0, -8.0))]),
        &mut store,
        &mut tools,
    );
    assert_eq!(answer(&out), ("ok".to_string(), "Entity offset".to_string()));
    assert_eq!(store.entities[1], Entity::Line { start: p(0.0, -5.0), end: p(10.0, -5.0) });
    let out = run("offset_entity", obj(vec![("id", integer(0))]), &mut store, &mut tools);
    assert_eq!(out.response.status, "ok");
    assert_eq!(store.entities[2], Entity::Line { start: p(0.0, 20.0), end: p(10.0, 20.0) });
    let out = run("offset_entity", obj(vec![("id", integer(7))]), &mut store, &mut tools);
    assert_eq!(answer(&out), ("error".to_string(), "Unknown command".to_string()));
    assert_eq!(store.entities.len(), 3);
}

#[test]
fn delete_entity_in_and_out_of_bounds() {
    let (mut store, mut tools) = fresh();
    store.add_line(p(0.0, 0.0), p(1.0, 0.0));
    store.add_line(p(0.0, 1.0), p(1.0, 1.0));
    let out = run("delete_entity", obj(vec![("id", integer(5))]), &mut store, &mut tools);
    assert_eq!(answer(&out), ("error".to_string(), "Index out of bounds".to_string()));
    assert_eq!(store.entities.len(), 2);
    let out = run("delete_entity", obj(vec![("id", integer(0))]), &mut store, &mut tools);
    assert_eq!(answer(&out), ("ok".to_string(), "Entity deleted".to_string()));
    assert_eq!(store.entities, vec![Entity::Line { start: p(0.0, 1.0), end: p(1.0, 1.0) }]);
    let out = run("delete_entity", obj(vec![("id", num(0.5))]), &mut store, &mut tools);
    assert_eq!(answer(&out), ("error".to_string(), "Unknown command".to_string()));
}

#[test]
fn draw_polyline_skips_bad_points() {
    let (mut store, mut tools) = fresh();
    let pts = ArgValue::Array(vec![
        pair(0.0, 0.0),
        ArgValue::Array(vec![num(1.0)]),
        ArgValue::Array(vec![ArgValue::Null, num(2.0)]),
        ArgValue::Bool(true),
    ]);
    let out = run("draw_polyline", obj(vec![("points", pts)]), &mut store, &mut tools);
    assert_eq!(answer(&out), ("ok".to_string(), "Polyline added".to_string()));
    assert_eq!(store.entities, vec![Entity::Polyline { points: vec![p(0.0, 0.0), p(0.0, 2.0)] }]);
    let out = run("draw_polyline", obj(vec![("points", ArgValue::Array(vec![pair(1.0, 1.0)]))]), &mut store, &mut tools);
    assert_eq!(answer(&out), ("error".to_string(), "Unknown command".to_string()));
}

#[test]
fn set_tool_command_switches_tool() {
    let (mut store, mut tools) = fresh();
    let out = run("set_tool", obj(vec![("name", ArgValue::Text("rect".to_string()))]), &mut store, &mut tools);
    assert_eq!(answer(&out), ("ok".to_string(), "Tool set to rect".to_string()));
    assert_eq!(out.notice, None);
    assert!(matches!(tools.active_tool, ActiveTool::Rect(_)));
    let out = run("set_tool", obj(vec![("name", ArgValue::Text("brush".to_string()))]), &mut store, &mut tools);
    assert_eq!(answer(&out), ("ok".to_string(), "Tool set to brush".to_string()));
    assert_eq!(out.notice, Some("Unknown tool: brush".to_string()));
    assert!(matches!(tools.active_tool, ActiveTool::Rect(_)));
    let out = run("set_tool", obj(vec![]), &mut store, &mut tools);
    assert_eq!(answer(&out), ("error".to_string(), "Unknown command".to_string()));
}

#[test]
fn unknown_action_is_an_error() {
    let (mut store, mut tools) = fresh();
    let out = run("explode", ArgValue::Null, &mut store, &mut tools);
    assert_eq!(answer(&out), ("error".to_string(), "Unknown command".to_string()));
    assert!(store.entities.is_empty());
}

#[test]
fn agent_requests_become_commands() {
    let line = (0.0f32, 0.0f32, 100.0f32, 100.0f32);
    assert_eq!(agent_command_for::<f32>("undo", None, line), Some(AgentCommand::Undo));
    assert_eq!(agent_command_for::<f32>("redo", None, line), Some(AgentCommand::Redo));
    assert_eq!(
        agent_command_for::<f32>("draw_line", None, line),
        Some(AgentCommand::DrawLine { x1: 0.0, y1: 0.0, x2: 100.0, y2: 100.0 })
    );
    let args = obj(vec![("name", ArgValue::Text("Circle".to_string()))]);
    assert_eq!(agent_command_for("select_tool", Some(&args), line), Some(AgentCommand::SelectTool("Circle".to_string())));
    assert_eq!(agent_command_for::<f32>("select_tool", None, line), Some(AgentCommand::SelectTool(String::new())));
    assert_eq!(agent_command_for::<f32>("jump", None, line), None);
}

#[test]
fn first_field_of_a_name_wins() {
    let args = obj(vec![("id", integer(1)), ("id", integer(2))]);
    assert_eq!(args.get("id").and_then(|v| v.as_u64()), Some(1));
    assert!(args.get("missing").is_none());
    assert!(ArgValue::<f32>::Null.get("id").is_none());
}
