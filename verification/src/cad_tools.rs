use vstd::prelude::*;

use crate::cad_core::{Document, Entity};
use crate::geometry::Point;

verus! {

/// What a tool asks the application to do after an event.
#[derive(Clone, Debug, PartialEq)]
pub enum ToolAction<S> {
    /// Add this entity to the document (through an undoable command).
    Commit(Entity<S>),
    Cancel,
    /// Nothing to do but to redraw.
    NoAction,
}

/// A drawing tool of the framework: it reacts to pointer events and may show
/// a preview of the entity it is drawing.
pub trait Tool<S> {
    fn name(&self) -> &str;

    fn active(&self) -> bool;

    fn mouse_down(&mut self, pos: Point<S>) -> Option<ToolAction<S>>;

    fn mouse_move(&mut self, pos: Point<S>) -> Option<ToolAction<S>>;

    fn mouse_up(&mut self, pos: Point<S>) -> Option<ToolAction<S>>;

    fn get_preview(&self) -> Option<Entity<S>>;
}

/// Draws a line with two clicks: the first places the start, the second
/// commits the line to the second point.
pub struct LineTool<S> {
    pub start: Option<Point<S>>,
    /// The last pointer position since the start was placed.
    pub current: Option<Point<S>>,
}

impl<S: Copy> LineTool<S> {
    /// A line tool waiting for its first click.
    pub fn new() -> (t: Self)
        ensures
            t.start is None,
            t.wf(),
    {
        LineTool { start: None, current: None }
    }

    /// Once a start is placed, the tool knows where the pointer is.
    pub open spec fn wf(self) -> bool {
        self.start is Some ==> self.current is Some
    }

    /// What a click does: the first places the start, the second commits
    /// the line from the start to the click and puts the tool back to
    /// waiting.
    pub open spec fn down_post(self, pos: Point<S>, next: Self, r: Option<ToolAction<S>>) -> bool {
        match self.start {
            Some(start) => {
                &&& r == Some(ToolAction::Commit(Entity::Line { p1: start, p2: pos }))
                &&& next == (LineTool { start: None, current: self.current })
            },
            None => {
                &&& r == Some(ToolAction::<S>::NoAction)
                &&& next == (LineTool { start: Some(pos), current: Some(pos) })
            },
        }
    }

    /// The preview: the line from the start to the pointer, while a start is
    /// placed.
    pub open spec fn preview(self) -> Option<Entity<S>> {
        match (self.start, self.current) {
            (Some(start), Some(current)) => Some(Entity::Line { p1: start, p2: current }),
            _ => None,
        }
    }
}

impl<S: Copy> Tool<S> for LineTool<S> {
    fn name(&self) -> (r: &str)
        ensures
            r@ == "Line"@,
    {
        "Line"
    }

    fn active(&self) -> (r: bool)
        ensures
            r == self.start is Some,
    {
        self.start.is_some()
    }

    /// The first click places the start; the second commits the line from
    /// the start to the click and puts the tool back to waiting.
    fn mouse_down(&mut self, pos: Point<S>) -> (r: Option<ToolAction<S>>)
        ensures
            old(self).down_post(pos, *final(self), r),
    {
        if let Some(start) = self.start {
            let entity = Entity::Line { p1: start, p2: pos };
            self.start = None;
            Some(ToolAction::Commit(entity))
        } else {
            self.start = Some(pos);
            self.current = Some(pos);
            Some(ToolAction::NoAction)
        }
    }

    fn mouse_move(&mut self, pos: Point<S>) -> (r: Option<ToolAction<S>>)
        ensures
            r == Some(ToolAction::<S>::NoAction),
            final(self).start == old(self).start,
            final(self).current == Some(pos),
            final(self).wf(),
    {
        self.current = Some(pos);
        Some(ToolAction::NoAction)
    }

    fn mouse_up(&mut self, pos: Point<S>) -> (r: Option<ToolAction<S>>)
        ensures
            r is None,
            *final(self) == *old(self),
    {
        None
    }

    /// While a start is placed, the preview is the line from the start to
    /// the pointer.
    fn get_preview(&self) -> (r: Option<Entity<S>>)
        ensures
            r == self.preview(),
    {
        match (self.start, self.current) {
            (Some(start), Some(current)) => Some(Entity::Line { p1: start, p2: current }),
            _ => None,
        }
    }
}

/// An undoable command that adds one entity to the active layer.
pub struct AddEntityCommand<S> {
    /// The entity to add; it is held here while the command is undone.
    pub entity: Option<Entity<S>>,
}

impl<S> AddEntityCommand<S> {
    pub fn new(entity: Entity<S>) -> (c: Self)
        ensures
            c.entity == Some(entity),
    {
        AddEntityCommand { entity: Some(entity) }
    }

    /// What `execute` does: the held entity goes to the end of the active
    /// layer, and the command gives it up.
    pub open spec fn execute_post(self, doc: Document<S>, next: Self, next_doc: Document<S>) -> bool {
        &&& next.entity is None
        &&& match self.entity {
            Some(e) => if doc.has_active_layer() {
                doc.with_active_entities(doc.layer_entities(doc.active_layer_index as int).push(e), next_doc)
            } else {
                doc.same_as(next_doc)
            },
            None => doc.same_as(next_doc),
        }
    }

    /// What `undo` does: the last entity of the active layer comes back into
    /// the command.
    pub open spec fn undo_post(self, doc: Document<S>, next: Self, next_doc: Document<S>) -> bool {
        if doc.has_active_layer() && doc.layer_entities(doc.active_layer_index as int).len() > 0 {
            let es = doc.layer_entities(doc.active_layer_index as int);
            &&& next.entity == Some(es.last())
            &&& doc.with_active_entities(es.drop_last(), next_doc)
        } else {
            &&& next.entity == self.entity
            &&& doc.same_as(next_doc)
        }
    }

    /// Adds the held entity to the active layer and gives it up; a command
    /// that holds no entity does nothing.
    pub fn execute(&mut self, doc: &mut Document<S>)
        ensures
            old(self).execute_post(*old(doc), *final(self), *final(doc)),
    {
        if let Some(entity) = self.entity.take() {
            doc.add_entity(entity);
        }
    }

    /// Takes the last entity of the active layer back into the command; the
    /// entity added by `execute` is that last one while nothing else has
    /// been added since.
    pub fn undo(&mut self, doc: &mut Document<S>)
        ensures
            old(self).undo_post(*old(doc), *final(self), *final(doc)),
    {
        let i = doc.active_layer_index;
        if i < doc.layers.len() {
            let popped = doc.layers[i].entities.pop();
            if let Some(entity) = popped {
                self.entity = Some(entity);
            }
        }
    }
}

/// Undoing an executed command gives back the document as it was before, and
/// the command holds its entity again, ready to be redone.
pub proof fn lemma_undo_after_execute<S>(
    cmd: AddEntityCommand<S>,
    executed: AddEntityCommand<S>,
    undone: AddEntityCommand<S>,
    doc: Document<S>,
    after_execute: Document<S>,
    after_undo: Document<S>,
)
    requires
        cmd.entity is Some,
        doc.has_active_layer(),
        cmd.execute_post(doc, executed, after_execute),
        executed.undo_post(after_execute, undone, after_undo),
    ensures
        doc.same_as(after_undo),
        undone.entity == cmd.entity,
{
    let a = doc.active_layer_index as int;
    let e = cmd.entity->0;
    assert(after_execute.layer_entities(a) =~= doc.layer_entities(a).push(e));
    assert(after_execute.layer_entities(a).drop_last() =~= doc.layer_entities(a));
    assert forall|i: int| 0 <= i < doc.layers@.len() implies #[trigger] doc.layer_entities(i)
        =~= after_undo.layer_entities(i) by {
        if i != a {
            assert(after_execute.layer_entities(i) =~= doc.layer_entities(i));
        }
    }
}

/// Executing a command again after undoing it adds its entity again: the
/// document is as after the first execution.
pub proof fn lemma_redo_after_undo<S>(
    cmd: AddEntityCommand<S>,
    executed: AddEntityCommand<S>,
    undone: AddEntityCommand<S>,
    redone: AddEntityCommand<S>,
    doc: Document<S>,
    after_execute: Document<S>,
    after_undo: Document<S>,
    after_redo: Document<S>,
)
    requires
        cmd.entity is Some,
        doc.has_active_layer(),
        cmd.execute_post(doc, executed, after_execute),
        executed.undo_post(after_execute, undone, after_undo),
        undone.execute_post(after_undo, redone, after_redo),
    ensures
        after_execute.same_as(after_redo),
        redone.entity is None,
{
    lemma_undo_after_execute(cmd, executed, undone, doc, after_execute, after_undo);
    let a = doc.active_layer_index as int;
    assert(after_undo.layer_entities(a) =~= doc.layer_entities(a));
    assert(after_redo.layer_entities(a) =~= after_execute.layer_entities(a));
    assert forall|i: int| 0 <= i < doc.layers@.len() implies #[trigger] after_execute.layer_entities(i)
        =~= after_redo.layer_entities(i) by {
        if i != a {
            assert(after_execute.layer_entities(i) =~= doc.layer_entities(i));
            assert(after_undo.layer_entities(i) =~= doc.layer_entities(i));
        }
    }
}

/// With the line tool, a first click at `a`, any pointer moves, and a second
/// click at `b` commit the line from `a` to `b`, and the tool waits again.
pub proof fn lemma_two_clicks_commit_line<S: Copy>(
    tool: LineTool<S>,
    first: LineTool<S>,
    moved: LineTool<S>,
    second: LineTool<S>,
    a: Point<S>,
    b: Point<S>,
    r1: Option<ToolAction<S>>,
    r2: Option<ToolAction<S>>,
)
    requires
        tool.start is None,
        tool.down_post(a, first, r1),
        moved.start == first.start,
        moved.down_post(b, second, r2),
    ensures
        r1 == Some(ToolAction::<S>::NoAction),
        r2 == Some(ToolAction::Commit(Entity::Line { p1: a, p2: b })),
        second.start is None,
{
}

/// A well-formed line tool shows a preview exactly while it is active, and
/// clicks keep it well-formed.
pub proof fn lemma_preview_while_active<S: Copy>(
    tool: LineTool<S>,
    pos: Point<S>,
    next: LineTool<S>,
    r: Option<ToolAction<S>>,
)
    requires
        tool.wf(),
        tool.down_post(pos, next, r),
    ensures
        tool.preview() is Some <==> tool.start is Some,
        next.wf(),
{
}

} // verus!
