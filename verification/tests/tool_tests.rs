use rust_cad_framework::canvas::{Camera, CanvasEvent, MouseButton};
use rust_cad_framework::geometry::{Entity, GeometryStore, Point, Segment};
use rust_cad_framework::tools::{
    ActiveTool, CircleTool, DeleteTool, DoubleLineTool, LineTool, OffsetTool, PlaneOps, PolylineTool,
    RectTool, Tool, ToolManager, ToolSettings,
};

type P = Point<f32>;

fn p(x: f32, y: f32) -> P {
    Point::new(x, y)
}

fn sub(a: P, b: P) -> P {
    p(a.x - b.x, a.y - b.y)
}

fn add(a: P, b: P) -> P {
    p(a.x + b.x, a.y + b.y)
}

fn scale(a: P, f: f32) -> P {
    p(a.x * f, a.y * f)
}

fn len(a: P) -> f32 {
    (a.x * a.x + a.y * a.y).sqrt()
}

fn normalize(a: P) -> P {
    let l = len(a);
    if l == 0.0 {
        p(0.0, 0.0)
    } else {
        scale(a, 1.0 / l)
    }
}

fn normal(a: P) -> P {
    p(-a.y, a.x)
}

fn ops() -> PlaneOps<
    impl Fn(P, P) -> f32,
    impl Fn(P, P, f32) -> (Segment<f32>, Segment<f32>),
    impl Fn(P, P, P) -> Segment<f32>,
    impl Fn(P, P) -> u32,
> {
    PlaneOps {
        radius: |c: P, q: P| ((q.x - c.x).powi(2) + (q.y - c.y).powi(2)).sqrt(),
        parallel: |s: P, e: P, w: f32| {
            let off = scale(normalize(normal(sub(e, s))), w / 2.0);
            ((add(s, off), add(e, off)), (sub(s, off), sub(e, off)))
        },
        offset_through: |s: P, e: P, q: P| {
            let n = normalize(normal(sub(e, s)));
            let ap = sub(q, s);
            let off = scale(n, ap.x * n.x + ap.y * n.y);
            (add(s, off), add(e, off))
        },
        distance_key: |a: P, b: P| len(sub(a, b)).to_bits(),
    }
}

fn settings() -> ToolSettings<f32> {
    ToolSettings { double_line_width: 20.0, pick_radius_key: 20.0f32.to_bits(), close_radius_key: 5.0f32.to_bits() }
}

fn keys(store: &GeometryStore<f32>, pos: P) -> Vec<u32> {
    store
        .entities
        .iter()
        .map(|e| match e {
            Entity::Line { start, end } => {
                let ab = sub(*end, *start);
                let ap = sub(pos, *start);
                let t = ((ap.x * ab.x + ap.y * ab.y) / (ab.x * ab.x + ab.y * ab.y)).max(0.0).min(1.0);
                len(sub(pos, add(*start, scale(ab, t)))).to_bits()
            }
            _ => f32::MAX.to_bits(),
        })
        .collect()
}

fn manager_with(name: &str) -> ToolManager<f32> {
    let mut m = ToolManager::new(settings());
    assert!(m.set_active_tool(name));
    m
}

#[test]
fn line_tool_press_release_commits_line() {
    let mut store = GeometryStore::new();
    let mut t = LineTool::new();
    t.on_mouse_down(p(0.0, 0.0), &mut store);
    assert!(store.entities.is_empty());
    t.on_mouse_up(p(50.0, 0.0), &mut store);
    assert_eq!(store.entities, vec![Entity::Line { start: p(0.0, 0.0), end: p(50.0, 0.0) }]);
    assert!(store.temp_entities.is_empty());
    assert!(!t.is_dragging);
    assert_eq!(t.name(), "line");
}

#[test]
fn moving_shows_preview_without_committing() {
    let mut store = GeometryStore::new();
    let mut t = LineTool::new();
    t.on_mouse_move(p(1.0, 1.0), &mut store);
    assert!(store.temp_entities.is_empty());
    t.on_mouse_down(p(0.0, 0.0), &mut store);
    t.on_mouse_move(p(3.0, 4.0), &mut store);
    t.on_mouse_move(p(5.0, 6.0), &mut store);
    assert_eq!(store.temp_entities, vec![Entity::Line { start: p(0.0, 0.0), end: p(5.0, 6.0) }]);
    assert!(store.entities.is_empty());
}

#[test]
fn release_without_press_does_nothing() {
    let mut store = GeometryStore::new();
    let mut t = RectTool::new();
    t.on_mouse_up(p(1.0, 1.0), &mut store);
    assert!(store.entities.is_empty());
    assert_eq!(t.name(), "rect");
}

#[test]
fn circle_tool_radius_from_center_to_release() {
    let mut store = GeometryStore::new();
    let mut t = CircleTool::new();
    let o = ops();
    t.on_mouse_down(p(1.0, 1.0), &mut store);
    t.on_mouse_move(p(4.0, 5.0), &mut store, &o.radius);
    assert_eq!(store.temp_entities, vec![Entity::Circle { center: p(1.0, 1.0), radius: 5.0 }]);
    t.on_mouse_up(p(1.0, 11.0), &mut store, &o.radius);
    assert_eq!(store.entities, vec![Entity::Circle { center: p(1.0, 1.0), radius: 10.0 }]);
    assert!(store.temp_entities.is_empty());
    assert_eq!(t.name(), "circle");
}

#[test]
fn rect_tool_commits_corners() {
    let mut store = GeometryStore::new();
    let mut t = RectTool::new();
    t.on_mouse_down(p(0.0, 0.0), &mut store);
    t.on_mouse_move(p(2.0, 2.0), &mut store);
    assert_eq!(store.temp_entities, vec![Entity::Rect { p1: p(0.0, 0.0), p2: p(2.0, 2.0) }]);
    t.on_mouse_up(p(3.0, 4.0), &mut store);
    assert_eq!(store.entities, vec![Entity::Rect { p1: p(0.0, 0.0), p2: p(3.0, 4.0) }]);
}

#[test]
fn double_line_tool_commits_band_of_width() {
    let mut store = GeometryStore::new();
    let mut t = DoubleLineTool::new(20.0);
    let o = ops();
    t.on_mouse_down(p(0.0, 0.0), &mut store);
    t.on_mouse_move(p(10.0, 0.0), &mut store, &o.parallel);
    assert_eq!(store.temp_entities.len(), 2);
    t.on_mouse_up(p(10.0, 0.0), &mut store, &o.parallel);
    assert_eq!(
        store.entities,
        vec![
            Entity::Line { start: p(0.0, 10.0), end: p(10.0, 10.0) },
            Entity::Line { start: p(0.0, -10.0), end: p(10.0, -10.0) },
        ]
    );
    assert!(store.temp_entities.is_empty());
    assert_eq!(t.name(), "double_line");
}

#[test]
fn offset_tool_copies_picked_line_through_release() {
    let mut store = GeometryStore::new();
    store.add_line(p(0.0, 0.0), p(100.0, 0.0));
    let mut t = OffsetTool::new();
    let o = ops();
    let press = p(50.0, 5.0);
    t.on_mouse_down(&store, &keys(&store, press), 20.0f32.to_bits());
    assert_eq!(t.selected_idx, Some(0));
    t.on_mouse_move(p(50.0, 30.0), &mut store, &o.offset_through);
    assert_eq!(store.temp_entities, vec![Entity::Line { start: p(0.0, 30.0), end: p(100.0, 30.0) }]);
    t.on_mouse_up(p(50.0, 30.0), &mut store, &o.offset_through);
    assert_eq!(store.entities.len(), 2);
    assert_eq!(store.entities[1], Entity::Line { start: p(0.0, 30.0), end: p(100.0, 30.0) });
    assert!(store.temp_entities.is_empty());
    assert!(!t.is_dragging);
    assert_eq!(t.name(), "offset");
}

#[test]
fn offset_tool_press_far_away_picks_nothing() {
    let mut store = GeometryStore::new();
    store.add_line(p(0.0, 0.0), p(100.0, 0.0));
    let mut t = OffsetTool::new();
    let o = ops();
    let press = p(50.0, 50.0);
    t.on_mouse_down(&store, &keys(&store, press), 20.0f32.to_bits());
    assert_eq!(t.selected_idx, None);
    t.on_mouse_up(p(50.0, 60.0), &mut store, &o.offset_through);
    assert_eq!(store.entities.len(), 1);
}

#[test]
fn delete_tool_removes_nearest_entity() {
    let mut store = GeometryStore::new();
    store.add_line(p(0.0, 0.0), p(100.0, 0.0));
    store.add_line(p(0.0, 50.0), p(100.0, 50.0));
    store.add_line(p(0.0, 100.0), p(100.0, 100.0));
    let mut t = DeleteTool::new();
    t.on_mouse_down(&store, &keys(&store, p(10.0, 48.0)), 20.0f32.to_bits());
    assert_eq!(t.target_idx, Some(1));
    t.on_mouse_move(&mut store);
    assert_eq!(t.on_mouse_up(&mut store), Some(1));
    assert_eq!(
        store.entities,
        vec![
            Entity::Line { start: p(0.0, 0.0), end: p(100.0, 0.0) },
            Entity::Line { start: p(0.0, 100.0), end: p(100.0, 100.0) },
        ]
    );
    assert_eq!(t.target_idx, None);
    assert_eq!(t.name(), "delete");
}

#[test]
fn delete_tool_press_far_away_removes_nothing() {
    let mut store = GeometryStore::new();
    store.add_line(p(0.0, 0.0), p(100.0, 0.0));
    let mut t = DeleteTool::new();
    t.on_mouse_down(&store, &keys(&store, p(10.0, 48.0)), 20.0f32.to_bits());
    assert_eq!(t.on_mouse_up(&mut store), None);
    assert_eq!(store.entities.len(), 1);
}

#[test]
fn polyline_closes_on_last_vertex() {
    let mut store = GeometryStore::new();
    let mut t = PolylineTool::new();
    let o = ops();
    let close = 5.0f32.to_bits();
    t.on_mouse_down(p(0.0, 0.0), &mut store, &o.distance_key, close);
    t.on_mouse_down(p(10.0, 0.0), &mut store, &o.distance_key, close);
    t.on_mouse_move(p(15.0, 5.0), &mut store);
    assert_eq!(store.temp_entities, vec![Entity::Polyline { points: vec![p(0.0, 0.0), p(10.0, 0.0), p(15.0, 5.0)] }]);
    t.on_mouse_down(p(20.0, 0.0), &mut store, &o.distance_key, close);
    t.on_mouse_up(&mut store);
    assert!(store.entities.is_empty());
    t.on_mouse_down(p(21.0, 1.0), &mut store, &o.distance_key, close);
    assert_eq!(store.entities, vec![Entity::Polyline { points: vec![p(0.0, 0.0), p(10.0, 0.0), p(20.0, 0.0)] }]);
    assert!(store.temp_entities.is_empty());
    assert!(t.points.is_empty());
    assert_eq!(t.name(), "polyline");
}

#[test]
fn polyline_with_one_vertex_is_dropped() {
    let mut store = GeometryStore::new();
    let mut t = PolylineTool::new();
    let o = ops();
    let close = 5.0f32.to_bits();
    t.on_mouse_down(p(0.0, 0.0), &mut store, &o.distance_key, close);
    t.on_mouse_down(p(1.0, 0.0), &mut store, &o.distance_key, close);
    assert!(store.entities.is_empty());
    assert!(t.points.is_empty());
}

#[test]
fn set_active_tool_by_name() {
    let mut m = ToolManager::new(settings());
    assert!(matches!(m.active_tool, ActiveTool::Line(_)));
    assert!(m.set_active_tool("circle"));
    assert!(matches!(m.active_tool, ActiveTool::Circle(_)));
    assert!(m.set_active_tool("double_line"));
    match &m.active_tool {
        ActiveTool::DoubleLine(t) => assert_eq!(t.width, 20.0),
        _ => panic!("expected the double line tool"),
    }
    assert!(!m.set_active_tool("spline"));
    assert!(matches!(m.active_tool, ActiveTool::DoubleLine(_)));
    for name in ["line", "rect", "offset", "delete", "polyline"] {
        assert!(m.set_active_tool(name));
    }
    assert!(matches!(m.active_tool, ActiveTool::Polyline(_)));
}

#[test]
fn manager_dispatches_to_active_tool() {
    let o = ops();
    let mut store = GeometryStore::new();
    let mut m = manager_with("rect");
    let k = keys(&store, p(0.0, 0.0));
    m.on_mouse_down(p(0.0, 0.0), &mut store, &k, &o);
    m.on_mouse_move(p(5.0, 5.0), &mut store, &o);
    m.on_mouse_up(p(6.0, 7.0), &mut store, &o);
    assert_eq!(store.entities, vec![Entity::Rect { p1: p(0.0, 0.0), p2: p(6.0, 7.0) }]);

    let mut m = manager_with("delete");
    let k = keys(&store, p(0.0, 0.0));
    m.on_mouse_down(p(0.0, 0.0), &mut store, &k, &o);
    assert_eq!(m.on_mouse_up(p(0.0, 0.0), &mut store, &o), None);
    assert_eq!(store.entities.len(), 1);

    let mut m = manager_with("circle");
    let k = keys(&store, p(0.0, 0.0));
    m.on_mouse_down(p(0.0, 0.0), &mut store, &k, &o);
    m.on_mouse_up(p(0.0, 2.0), &mut store, &o);
    assert_eq!(store.entities[1], Entity::Circle { center: p(0.0, 0.0), radius: 2.0 });
}

#[test]
fn release_ends_every_gesture() {
    let o = ops();
    for name in ["line", "circle", "rect", "double_line", "offset", "delete"] {
        let mut store = GeometryStore::new();
        store.add_line(p(0.0, 0.0), p(10.0, 0.0));
        let mut m = manager_with(name);
        let k = keys(&store, p(5.0, 1.0));
        m.on_mouse_down(p(5.0, 1.0), &mut store, &k, &o);
        m.on_mouse_up(p(5.0, 3.0), &mut store, &o);
        let at_rest = match &m.active_tool {
            ActiveTool::Line(t) => t.start_pos.is_none() && !t.is_dragging,
            ActiveTool::Circle(t) => t.center.is_none() && !t.is_dragging,
            ActiveTool::Rect(t) => t.start_pos.is_none() && !t.is_dragging,
            ActiveTool::DoubleLine(t) => t.start_pos.is_none() && !t.is_dragging,
            ActiveTool::Offset(t) => t.selected_idx.is_none() && !t.is_dragging,
            ActiveTool::Delete(t) => t.target_idx.is_none(),
            ActiveTool::Polyline(_) => true,
            ActiveTool::Custom(_) => false,
        };
        assert!(at_rest, "{} is still in a gesture", name);
    }
}

fn to_world(camera_pos: P, zoom: f32, grid: f32, screen: (f64, f64)) -> P {
    let wx = screen.0 as f32 / zoom + camera_pos.x;
    let wy = screen.1 as f32 / zoom + camera_pos.y;
    p((wx / grid).round() * grid, (wy / grid).round() * grid)
}

#[test]
fn window_events_drive_the_tool() {
    let o = ops();
    let mut store = GeometryStore::new();
    let mut m = ToolManager::new(settings());
    let mut camera: Camera<f32, (f64, f64)> = Camera::new(800.0, 600.0, p(0.0, 0.0), 1.0);
    let tw = |cp: P, z: f32, g: f32, s: (f64, f64)| to_world(cp, z, g, s);
    let ek = |e: &Entity<f32>, q: P| keys(&GeometryStore { entities: vec![e.clone()], temp_entities: vec![] }, q)[0];
    let press = CanvasEvent::<(f64, f64), f32>::MouseInput { button: MouseButton::Left, pressed: true };
    // A press before the pointer was ever seen does nothing.
    m.handle_event(&press, &mut store, &camera, 50.0, &tw, &ek, &o);
    assert!(matches!(&m.active_tool, ActiveTool::Line(t) if !t.is_dragging));
    camera.last_mouse_pos = Some((60.0, 40.0));
    m.handle_event(&press, &mut store, &camera, 50.0, &tw, &ek, &o);
    let moved = CanvasEvent::<(f64, f64), f32>::CursorMoved((140.0, 110.0));
    m.handle_event(&moved, &mut store, &camera, 50.0, &tw, &ek, &o);
    assert_eq!(store.temp_entities, vec![Entity::Line { start: p(50.0, 50.0), end: p(150.0, 100.0) }]);
    camera.last_mouse_pos = Some((140.0, 110.0));
    let release = CanvasEvent::<(f64, f64), f32>::MouseInput { button: MouseButton::Left, pressed: false };
    m.handle_event(&release, &mut store, &camera, 50.0, &tw, &ek, &o);
    assert_eq!(store.entities, vec![Entity::Line { start: p(50.0, 50.0), end: p(150.0, 100.0) }]);
    let middle = CanvasEvent::<(f64, f64), f32>::MouseInput { button: MouseButton::Middle, pressed: true };
    m.handle_event(&middle, &mut store, &camera, 50.0, &tw, &ek, &o);
    assert_eq!(store.entities.len(), 1);
}

#[test]
fn delete_release_reports_removed_index() {
    let l0 = Entity::Line { start: p(0.0, 0.0), end: p(10.0, 0.0) };
    let l1 = Entity::Line { start: p(0.0, 100.0), end: p(10.0, 100.0) };
    let c = Entity::Circle { center: p(5.0, 99.0), radius: 1.0 };
    let mut store = GeometryStore { entities: vec![l0.clone(), l1, c.clone()], temp_entities: vec![] };
    let mut t = DeleteTool::new();
    let press = p(5.0, 99.0);
    t.on_mouse_down(&store, &keys(&store, press), 20.0f32.to_bits());
    assert_eq!(t.on_mouse_up(&mut store), Some(1));
    assert_eq!(store.entities, vec![l0, c]);
}

#[test]
fn manager_reports_deleted_index() {
    let o = ops();
    let mut store = GeometryStore::new();
    store.add_line(p(0.0, 0.0), p(100.0, 0.0));
    store.add_line(p(0.0, 50.0), p(100.0, 50.0));
    let mut m = manager_with("delete");
    let k = keys(&store, p(30.0, 52.0));
    m.on_mouse_down(p(30.0, 52.0), &mut store, &k, &o);
    assert_eq!(m.on_mouse_up(p(30.0, 52.0), &mut store, &o), Some(1));
    assert_eq!(store.entities, vec![Entity::Line { start: p(0.0, 0.0), end: p(100.0, 0.0) }]);
    let k = keys(&store, p(30.0, 52.0));
    m.on_mouse_down(p(30.0, 52.0), &mut store, &k, &o);
    assert_eq!(m.on_mouse_up(p(30.0, 52.0), &mut store, &o), None);
}

/// A tool of the application's own: every press stamps a point-sized line.
struct StampTool {
    stamps: usize,
}

impl Tool<f32> for StampTool {
    fn name(&self) -> &'static str {
        "stamp"
    }

    fn on_mouse_down<R, D, O, K>(
        &mut self,
        pos: P,
        store: &mut GeometryStore<f32>,
        _distance_keys: &Vec<u32>,
        _settings: &ToolSettings<f32>,
        _ops: &PlaneOps<R, D, O, K>,
    ) where
        R: Fn(P, P) -> f32,
        D: Fn(P, P, f32) -> (Segment<f32>, Segment<f32>),
        O: Fn(P, P, P) -> Segment<f32>,
        K: Fn(P, P) -> u32,
    {
        store.entities.push(Entity::Line { start: pos, end: pos });
        self.stamps += 1;
    }

    fn on_mouse_move<R, D, O, K>(&mut self, _pos: P, _store: &mut GeometryStore<f32>, _ops: &PlaneOps<R, D, O, K>)
    where
        R: Fn(P, P) -> f32,
        D: Fn(P, P, f32) -> (Segment<f32>, Segment<f32>),
        O: Fn(P, P, P) -> Segment<f32>,
        K: Fn(P, P) -> u32,
    {
    }

    fn on_mouse_up<R, D, O, K>(&mut self, _pos: P, _store: &mut GeometryStore<f32>, _ops: &PlaneOps<R, D, O, K>) -> Option<usize>
    where
        R: Fn(P, P) -> f32,
        D: Fn(P, P, f32) -> (Segment<f32>, Segment<f32>),
        O: Fn(P, P, P) -> Segment<f32>,
        K: Fn(P, P) -> u32,
    {
        None
    }
}

#[test]
fn manager_drives_an_application_tool() {
    let o = ops();
    let mut store = GeometryStore::new();
    let mut m = ToolManager::with_tool(settings(), StampTool { stamps: 0 });
    assert_eq!(m.active_tool.name(), "stamp");
    let k = keys(&store, p(1.0, 2.0));
    m.on_mouse_down(p(1.0, 2.0), &mut store, &k, &o);
    m.on_mouse_move(p(3.0, 4.0), &mut store, &o);
    assert_eq!(m.on_mouse_up(p(3.0, 4.0), &mut store, &o), None);
    assert_eq!(store.entities, vec![Entity::Line { start: p(1.0, 2.0), end: p(1.0, 2.0) }]);
    assert!(matches!(&m.active_tool, ActiveTool::Custom(t) if t.stamps == 1));
    assert!(m.set_active_tool("rect"));
    assert_eq!(m.active_tool.name(), "rect");
    m.set_custom_tool(StampTool { stamps: 5 });
    assert!(matches!(&m.active_tool, ActiveTool::Custom(t) if t.stamps == 5));
}

#[test]
fn library_tools_answer_through_the_tool_interface() {
    let o = ops();
    let s = settings();
    let mut store = GeometryStore::new();
    let mut t = LineTool::new();
    Tool::on_mouse_down(&mut t, p(0.0, 0.0), &mut store, &vec![], &s, &o);
    Tool::on_mouse_move(&mut t, p(2.0, 0.0), &mut store, &o);
    assert_eq!(store.temp_entities, vec![Entity::Line { start: p(0.0, 0.0), end: p(2.0, 0.0) }]);
    assert_eq!(Tool::on_mouse_up(&mut t, p(4.0, 0.0), &mut store, &o), None);
    assert_eq!(store.entities, vec![Entity::Line { start: p(0.0, 0.0), end: p(4.0, 0.0) }]);
    assert_eq!(Tool::<f32>::name(&t), "line");
    let mut d = DeleteTool::new();
    let k = keys(&store, p(1.0, 1.0));
    Tool::on_mouse_down(&mut d, p(1.0, 1.0), &mut store, &k, &s, &o);
    assert_eq!(Tool::on_mouse_up(&mut d, p(1.0, 1.0), &mut store, &o), Some(0));
    assert!(store.entities.is_empty());
}
