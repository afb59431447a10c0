use vstd::prelude::*;

verus! {

/// A position in the source: line and column (both starting at 1) and byte offset.
#[derive(Clone, Copy, Debug, PartialEq, Eq, Structural)]
pub struct Location {
    pub line: u32,
    pub column: u32,
    pub offset: u32,
}

impl Location {
    /// The location at `line`, `column` and byte `offset`.
    pub fn new(line: u32, column: u32, offset: u32) -> (r: Location)
        ensures
            r.line == line,
            r.column == column,
            r.offset == offset,
    {
        Location { line, column, offset }
    }
}

impl Default for Location {
    fn default() -> (r: Location)
        ensures
            r.line == 1 && r.column == 1 && r.offset == 0,
    {
        Location { line: 1, column: 1, offset: 0 }
    }
}

} // verus!
