use vstd::prelude::*;

verus! {

/// One row of a commit graph: a column for each line of descent crossing it.
#[allow(dead_code)]
struct GraphRow {
    columns: Vec<GraphColumn>,
}

/// The state of the commit graph drawn beside the history list.
#[allow(dead_code)]
pub struct Graph {
    row: GraphRow,
    parents: GraphRow,
    prev_row: GraphRow,
    next_row: GraphRow,
    position: usize,
    prev_position: usize,
    expanded: usize,
    id: String,
    has_parents: bool,
    is_boundary: bool,
}

/// What one cell of the graph shows, as a set of flags.
#[allow(dead_code)]
pub struct GraphSymbol {
    commit: bool,
    boundary: bool,
    initial: bool,
    merge: bool,
    continued_down: bool,
    continued_up: bool,
    continued_right: bool,
    continued_left: bool,
    continued_up_left: bool,
    parent_down: bool,
    parent_right: bool,
    below_commit: bool,
    flanked: bool,
    next_right: bool,
    matches_commit: bool,
    shift_left: bool,
    continue_shift: bool,
    below_shift: bool,
    new_column: bool,
    empty: bool,
}

/// A column of a graph row: its symbol and the id of the parent it leads to.
#[allow(dead_code)]
pub struct GraphColumn {
    symbol: GraphSymbol,
    id: String,
}

} // verus!
