use vstd::prelude::*;

use crate::agent::AgentCommand;
use crate::cad_core::Entity;
use crate::cad_tools::{AddEntityCommand, LineTool, Tool, ToolAction};
use crate::geometry::Point;
use crate::ui::ToolPalette;

verus! {

/// An event of the framework application's loop, as the loop hands it on:
/// pointer positions already turned into drawing positions. Events over the
/// user interface are not handed on.
pub enum SessionEvent<S> {
    /// The pointer moved to `point`; `snap` is the snap point found near it,
    /// if any, and `panning` tells whether the view is being panned.
    PointerMoved { point: Point<S>, snap: Option<Point<S>>, panning: bool },
    /// The left button went down at `point`.
    LeftPressed { point: Point<S> },
    /// A command from the agent.
    Agent(AgentCommand<S>),
}

/// What the loop is to do after an event.
pub enum SessionAction<S> {
    /// Run the command through the undo history, then redraw.
    Execute(AddEntityCommand<S>),
    /// Undo the last command of the history, then redraw.
    Undo,
    /// Redo the last command undone, then redraw.
    Redo,
    /// Redraw the document with the tool's preview and the snap marker.
    Redraw,
    Nothing,
}

/// What the framework application keeps between events: its drawing tool,
/// its tool palette and the snap point under the pointer.
pub struct Session<S> {
    pub tool: LineTool<S>,
    pub palette: ToolPalette,
    pub active_snap_point: Option<Point<S>>,
}

/// `action` runs a command that adds `e` to the document.
pub open spec fn adds<S>(action: SessionAction<S>, e: Entity<S>) -> bool {
    action matches SessionAction::Execute(c) && c.entity == Some(e)
}

impl<S: Copy> Session<S> {
    /// A session with a fresh line tool, the line tool selected in the
    /// palette, and no snap point.
    pub fn new() -> (s: Self)
        ensures
            s.tool.start is None,
            s.tool.wf(),
            s.palette.selected_tool@ == "Line"@,
            s.active_snap_point is None,
    {
        Session { tool: LineTool::new(), palette: ToolPalette::new(), active_snap_point: None }
    }

    /// What an event does. A pointer move remembers the snap point and,
    /// unless the view is being panned, moves the tool to the snapped
    /// position and asks for a redraw. A press of the left button goes to
    /// the tool at the snap point, if there is one, else at the pointer: a
    /// committed entity is added through an undoable command, and anything
    /// else asks for a redraw. The agent's undo and redo go to the history,
    /// `draw_line` adds its line, and selecting `Line` puts in a fresh line
    /// tool and selects it in the palette; `Circle` is only selected in the
    /// palette, and any other name changes nothing.
    pub open spec fn step_post(self, event: SessionEvent<S>, next: Self, action: SessionAction<S>) -> bool {
        match event {
            SessionEvent::PointerMoved { point, snap, panning } => {
                let p = match snap {
                    Some(s) => s,
                    None => point,
                };
                &&& next.active_snap_point == snap
                &&& next.palette.selected_tool@ == self.palette.selected_tool@
                &&& if panning {
                    next.tool == self.tool && action is Nothing
                } else {
                    next.tool == (LineTool { start: self.tool.start, current: Some(p) }) && action is Redraw
                }
            },
            SessionEvent::LeftPressed { point } => {
                let p = match self.active_snap_point {
                    Some(s) => s,
                    None => point,
                };
                &&& next.active_snap_point == self.active_snap_point
                &&& next.palette.selected_tool@ == self.palette.selected_tool@
                &&& match self.tool.start {
                    Some(start) => {
                        &&& next.tool == (LineTool { start: None, current: self.tool.current })
                        &&& adds(action, Entity::Line { p1: start, p2: p })
                    },
                    None => {
                        &&& next.tool == (LineTool { start: Some(p), current: Some(p) })
                        &&& action is Redraw
                    },
                }
            },
            SessionEvent::Agent(cmd) => {
                &&& next.active_snap_point == self.active_snap_point
                &&& match cmd {
                    AgentCommand::Undo => {
                        &&& next.tool == self.tool
                        &&& next.palette.selected_tool@ == self.palette.selected_tool@
                        &&& action is Undo
                    },
                    AgentCommand::Redo => {
                        &&& next.tool == self.tool
                        &&& next.palette.selected_tool@ == self.palette.selected_tool@
                        &&& action is Redo
                    },
                    AgentCommand::SelectTool(name) => {
                        &&& action is Nothing
                        &&& if name@ == "Line"@ {
                            &&& next.tool == (LineTool::<S> { start: None, current: None })
                            &&& next.palette.selected_tool@ == "Line"@
                        } else if name@ == "Circle"@ {
                            &&& next.tool == self.tool
                            &&& next.palette.selected_tool@ == "Circle"@
                        } else {
                            &&& next.tool == self.tool
                            &&& next.palette.selected_tool@ == self.palette.selected_tool@
                        }
                    },
                    AgentCommand::DrawLine { x1, y1, x2, y2 } => {
                        &&& next.tool == self.tool
                        &&& next.palette.selected_tool@ == self.palette.selected_tool@
                        &&& adds(action, Entity::Line { p1: Point { x: x1, y: y1 }, p2: Point { x: x2, y: y2 } })
                    },
                }
            },
        }
    }

    /// Handles one event of the loop (see `step_post`) and answers what the
    /// loop is to do next.
    pub fn step(&mut self, event: SessionEvent<S>) -> (action: SessionAction<S>)
        requires
            old(self).tool.wf(),
        ensures
            old(self).step_post(event, *final(self), action),
            final(self).tool.wf(),
    {
        match event {
            SessionEvent::PointerMoved { point, snap, panning } => {
                let p = match snap {
                    Some(s) => s,
                    None => point,
                };
                self.active_snap_point = snap;
                if panning {
                    SessionAction::Nothing
                } else {
                    let _ = self.tool.mouse_move(p);
                    SessionAction::Redraw
                }
            },
            SessionEvent::LeftPressed { point } => {
                let p = match self.active_snap_point {
                    Some(s) => s,
                    None => point,
                };
                match self.tool.mouse_down(p) {
                    Some(ToolAction::Commit(entity)) => SessionAction::Execute(AddEntityCommand::new(entity)),
                    _ => SessionAction::Redraw,
                }
            },
            SessionEvent::Agent(cmd) => match cmd {
                AgentCommand::Undo => SessionAction::Undo,
                AgentCommand::Redo => SessionAction::Redo,
                AgentCommand::SelectTool(name) => {
                    if name == "Line".to_owned() {
                        self.tool = LineTool { start: None, current: None };
                        self.palette.selected_tool = "Line".to_string();
                    } else if name == "Circle".to_owned() {
                        self.palette.selected_tool = "Circle".to_string();
                    }
                    SessionAction::Nothing
                },
                AgentCommand::DrawLine { x1, y1, x2, y2 } => {
                    let line = Entity::Line { p1: Point::new(x1, y1), p2: Point::new(x2, y2) };
                    SessionAction::Execute(AddEntityCommand::new(line))
                },
            },
        }
    }
}

/// Two presses draw a line: the first places the start, the second adds
/// the line from the start to the second press through an undoable command
/// (each press taken at the snap point when there is one).
pub proof fn lemma_two_presses_add_line<S: Copy>(
    s0: Session<S>,
    s1: Session<S>,
    s2: Session<S>,
    a: Point<S>,
    b: Point<S>,
    act1: SessionAction<S>,
    act2: SessionAction<S>,
)
    requires
        s0.tool.start is None,
        s0.active_snap_point is None,
        s0.step_post(SessionEvent::LeftPressed { point: a }, s1, act1),
        s1.step_post(SessionEvent::LeftPressed { point: b }, s2, act2),
    ensures
        act1 is Redraw,
        adds(act2, Entity::Line { p1: a, p2: b }),
        s2.tool.start is None,
{
}

/// Every press of the left button is taken at the active snap point when
/// there is one, whatever the tool's state: a first press places the start
/// there, and a second press adds the line from the start to the snap point.
pub proof fn lemma_press_takes_snap_point<S: Copy>(
    s: Session<S>,
    next: Session<S>,
    point: Point<S>,
    snap: Point<S>,
    action: SessionAction<S>,
)
    requires
        s.active_snap_point == Some(snap),
        s.step_post(SessionEvent::LeftPressed { point }, next, action),
    ensures
        match s.tool.start {
            Some(start) => adds(action, Entity::Line { p1: start, p2: snap }),
            None => next.tool.start == Some(snap),
        },
        next.active_snap_point == Some(snap),
{
}

/// With a snap point found before the second press, two presses draw the
/// line from the first press to the snap point.
pub proof fn lemma_two_presses_snap_to_point<S: Copy>(
    s0: Session<S>,
    s1: Session<S>,
    s2: Session<S>,
    s3: Session<S>,
    a: Point<S>,
    moved_to: Point<S>,
    snap: Point<S>,
    b: Point<S>,
    act1: SessionAction<S>,
    act2: SessionAction<S>,
    act3: SessionAction<S>,
)
    requires
        s0.tool.start is None,
        s0.active_snap_point is None,
        s0.step_post(SessionEvent::LeftPressed { point: a }, s1, act1),
        s1.step_post(SessionEvent::PointerMoved { point: moved_to, snap: Some(snap), panning: false }, s2, act2),
        s2.step_post(SessionEvent::LeftPressed { point: b }, s3, act3),
    ensures
        adds(act3, Entity::Line { p1: a, p2: snap }),
        s3.tool.start is None,
{
}

} // verus!
