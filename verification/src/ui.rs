use vstd::prelude::*;

verus! {

/// The palette of drawing tools shown beside the canvas; it remembers the
/// name of the tool the user picked last.
pub struct ToolPalette {
    pub selected_tool: String,
}

impl ToolPalette {
    /// A palette with the line tool selected.
    pub fn new() -> (palette: Self)
        ensures
            palette.selected_tool@ == "Line"@,
    {
        ToolPalette { selected_tool: "Line".to_string() }
    }
}

} // verus!
