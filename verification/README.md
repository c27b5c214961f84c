# rust_cad_framework

A 2D CAD framework: a drawing (lines, circles, rectangles, polylines), drawing
tools driven by pointer events, a pannable and zoomable camera, an HTTP
interface through which agents draw and switch tools, and the pieces of a
document/command framework (snap points, undoable commands, a click-to-click
line tool).

## Layout

- `src/` is the library, verified with Verus.
  - `geometry`: points, entities, the drawing store, and the search for the
    nearest line within a pick radius (only lines are picked).
  - `tools`: the `Tool` trait; the line, circle, rectangle, double line,
    offset, delete and polyline tools that implement it; and the tool manager
    that switches them by name (or activates a tool of the application's
    own) and feeds them window events.
  - `canvas`: the camera and its event handling (pan with the middle button
    or the space bar held, zoom with the wheel or a pinch).
  - `state`: the shared application state and its window event handling
    (camera first, then the active tool).
  - `renderer`: the line segments that draw each entity.
  - `agent`: the commands that agents send (their argument values, what each
    command does and answers).
  - `session`: the framework application's loop decisions: snapping the
    click-to-click line tool, adding committed entities through undoable
    commands, and running the agent's commands.
  - `cad_core`, `cad_tools`, `cad_io`, `ui`: the document framework: snap
    points, documents with layers, undoable commands, the click-to-click line
    tool, storage errors, the tool palette.
- `app/` is the program: window, GPU rendering, the HTTP server (started
  with `--agent`), JSON and file storage.
- `tests/` exercises the library on `f32` coordinates.

## Coordinates

Coordinates are `f32` in the program. The library is generic over the
coordinate type and never computes with coordinates: the vector arithmetic
(distances, normals, offsets, rounding to the grid, rim points of circles)
is done by the program and handed to the library as closures, whose results
the library places in the drawing. Distances are compared through order keys
(the bit pattern of a non-negative `f32`, which orders as its value does), so
that the searches for the nearest entity or snap point are integer code that
Verus checks.
