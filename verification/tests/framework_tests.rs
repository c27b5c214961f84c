use rust_cad_framework::cad_core::{all_snap_points, find_closest_snap_point, Document, Entity, SnapPoint, SnapType};
use rust_cad_framework::cad_io::{IOError, JSONSerializer};
use rust_cad_framework::cad_tools::{AddEntityCommand, LineTool, Tool, ToolAction};
use rust_cad_framework::geometry::{Point, Snapper};
use rust_cad_framework::agent::AgentCommand;
use rust_cad_framework::session::{Session, SessionAction, SessionEvent};
use rust_cad_framework::ui::ToolPalette;

type P = Point<f32>;

fn p(x: f32, y: f32) -> P {
    Point::new(x, y)
}

fn midpoint(a: P, b: P) -> P {
    p((a.x + b.x) / 2.0, (a.y + b.y) / 2.0)
}

fn dist_sq_key(a: P, b: P) -> u32 {
    ((a.x - b.x).powi(2) + (a.y - b.y).powi(2)).to_bits()
}

#[test]
fn snap_points_of_line_and_circle() {
    let line: Entity<f32> = Entity::Line { p1: p(0.0, 0.0), p2: p(4.0, 2.0) };
    assert_eq!(
        line.get_snap_points(&midpoint),
        vec![
            SnapPoint { point: p(0.0, 0.0), snap_type: SnapType::Endpoint },
            SnapPoint { point: p(4.0, 2.0), snap_type: SnapType::Endpoint },
            SnapPoint { point: p(2.0, 1.0), snap_type: SnapType::Midpoint },
        ]
    );
    let circle: Entity<f32> = Entity::Circle { center: p(7.0, 7.0), radius: 3.0 };
    assert_eq!(circle.get_snap_points(&midpoint), vec![SnapPoint { point: p(7.0, 7.0), snap_type: SnapType::Center }]);
    assert_eq!(all_snap_points(&[line, circle], &midpoint).len(), 4);
}

#[test]
fn closest_snap_point_within_threshold() {
    let entities = vec![
        Entity::Line { p1: p(0.0, 0.0), p2: p(100.0, 0.0) },
        Entity::Circle { center: p(52.0, 0.0), radius: 10.0 },
    ];
    let thr = 10.0f32 * 10.0f32;
    let cursor = p(51.5, 3.0);
    let snap = find_closest_snap_point(&entities, cursor, thr.to_bits(), &midpoint, &dist_sq_key);
    assert_eq!(snap, Some(SnapPoint { point: p(52.0, 0.0), snap_type: SnapType::Center }));
    let far = find_closest_snap_point(&entities, p(30.0, 30.0), thr.to_bits(), &midpoint, &dist_sq_key);
    assert_eq!(far, None);
}

#[test]
fn closest_snap_point_first_of_equals() {
    let entities = vec![
        Entity::Line { p1: p(0.0, 0.0), p2: p(10.0, 0.0) },
        Entity::Circle { center: p(0.0, 0.0), radius: 1.0 },
    ];
    let snap = find_closest_snap_point(&entities, p(0.0, 1.0), 100.0f32.to_bits(), &midpoint, &dist_sq_key);
    assert_eq!(snap, Some(SnapPoint { point: p(0.0, 0.0), snap_type: SnapType::Endpoint }));
}

#[test]
fn document_starts_with_one_active_layer() {
    let doc: Document<f32> = Document::new();
    assert_eq!(doc.layers.len(), 1);
    assert_eq!(doc.active_layer_index, 0);
    assert!(doc.layers[0].entities.is_empty());
}

#[test]
fn add_entity_command_execute_undo_redo() {
    let mut doc: Document<f32> = Document::new();
    let first = Entity::Circle { center: p(1.0, 1.0), radius: 2.0 };
    doc.add_entity(first.clone());
    let line = Entity::Line { p1: p(0.0, 0.0), p2: p(3.0, 4.0) };
    let mut cmd = AddEntityCommand::new(line.clone());
    cmd.execute(&mut doc);
    assert_eq!(doc.layers[0].entities, vec![first.clone(), line.clone()]);
    assert!(cmd.entity.is_none());
    cmd.execute(&mut doc);
    assert_eq!(doc.layers[0].entities.len(), 2);
    cmd.undo(&mut doc);
    assert_eq!(doc.layers[0].entities, vec![first.clone()]);
    assert_eq!(cmd.entity, Some(line.clone()));
    cmd.execute(&mut doc);
    assert_eq!(doc.layers[0].entities, vec![first, line]);
}

#[test]
fn commands_without_active_layer_change_nothing() {
    let mut doc: Document<f32> = Document::new();
    doc.active_layer_index = 3;
    let mut cmd = AddEntityCommand::new(Entity::Line { p1: p(0.0, 0.0), p2: p(1.0, 0.0) });
    cmd.execute(&mut doc);
    assert!(doc.layers[0].entities.is_empty());
    cmd.undo(&mut doc);
    assert!(cmd.entity.is_none());
}

#[test]
fn line_tool_two_clicks() {
    let mut t: LineTool<f32> = LineTool::new();
    assert_eq!(t.name(), "Line");
    assert!(!t.active());
    assert_eq!(t.get_preview(), None);
    assert_eq!(t.mouse_move(p(9.0, 9.0)), Some(ToolAction::NoAction));
    assert_eq!(t.mouse_down(p(1.0, 1.0)), Some(ToolAction::NoAction));
    assert!(t.active());
    assert_eq!(t.get_preview(), Some(Entity::Line { p1: p(1.0, 1.0), p2: p(1.0, 1.0) }));
    t.mouse_move(p(5.0, 1.0));
    assert_eq!(t.get_preview(), Some(Entity::Line { p1: p(1.0, 1.0), p2: p(5.0, 1.0) }));
    assert_eq!(t.mouse_up(p(5.0, 1.0)), None);
    assert_eq!(t.mouse_down(p(6.0, 2.0)), Some(ToolAction::Commit(Entity::Line { p1: p(1.0, 1.0), p2: p(6.0, 2.0) })));
    assert!(!t.active());
    assert_eq!(t.get_preview(), None);
}

#[test]
fn tool_palette_starts_on_line() {
    assert_eq!(ToolPalette::new().selected_tool, "Line");
}

#[test]
fn io_error_and_markers_exist() {
    let e = IOError::Serialization("bad".to_string());
    assert!(matches!(e, IOError::Serialization(ref s) if s == "bad"));
    let _ = JSONSerializer;
    let _ = Snapper;
}

fn added_entity(action: SessionAction<f32>) -> Option<Entity<f32>> {
    match action {
        SessionAction::Execute(c) => c.entity,
        _ => None,
    }
}

#[test]
fn session_presses_draw_line_at_snap_points() {
    let mut s: Session<f32> = Session::new();
    assert_eq!(s.palette.selected_tool, "Line");
    let a = s.step(SessionEvent::PointerMoved { point: p(1.0, 1.0), snap: Some(p(0.0, 0.0)), panning: false });
    assert!(matches!(a, SessionAction::Redraw));
    assert_eq!(s.active_snap_point, Some(p(0.0, 0.0)));
    let a = s.step(SessionEvent::LeftPressed { point: p(1.0, 1.0) });
    assert!(matches!(a, SessionAction::Redraw));
    assert_eq!(s.tool.start, Some(p(0.0, 0.0)));
    let a = s.step(SessionEvent::PointerMoved { point: p(7.0, 8.0), snap: None, panning: false });
    assert!(matches!(a, SessionAction::Redraw));
    assert_eq!(s.tool.current, Some(p(7.0, 8.0)));
    let a = s.step(SessionEvent::LeftPressed { point: p(7.0, 8.0) });
    assert_eq!(added_entity(a), Some(Entity::Line { p1: p(0.0, 0.0), p2: p(7.0, 8.0) }));
    assert_eq!(s.tool.start, None);
    let a = s.step(SessionEvent::PointerMoved { point: p(9.0, 9.0), snap: None, panning: true });
    assert!(matches!(a, SessionAction::Nothing));
    assert_eq!(s.tool.current, Some(p(7.0, 8.0)));
}

#[test]
fn session_runs_agent_commands() {
    let mut s: Session<f32> = Session::new();
    assert!(matches!(s.step(SessionEvent::Agent(AgentCommand::Undo)), SessionAction::Undo));
    assert!(matches!(s.step(SessionEvent::Agent(AgentCommand::Redo)), SessionAction::Redo));
    let a = s.step(SessionEvent::Agent(AgentCommand::DrawLine { x1: 1.0, y1: 2.0, x2: 3.0, y2: 4.0 }));
    assert_eq!(added_entity(a), Some(Entity::Line { p1: p(1.0, 2.0), p2: p(3.0, 4.0) }));
    s.step(SessionEvent::LeftPressed { point: p(5.0, 5.0) });
    assert!(s.tool.start.is_some());
    let a = s.step(SessionEvent::Agent(AgentCommand::SelectTool("Circle".to_string())));
    assert!(matches!(a, SessionAction::Nothing));
    assert_eq!(s.palette.selected_tool, "Circle");
    assert!(s.tool.start.is_some());
    s.step(SessionEvent::Agent(AgentCommand::SelectTool("Spline".to_string())));
    assert_eq!(s.palette.selected_tool, "Circle");
    s.step(SessionEvent::Agent(AgentCommand::SelectTool("Line".to_string())));
    assert_eq!(s.palette.selected_tool, "Line");
    assert_eq!(s.tool.start, None);
}
