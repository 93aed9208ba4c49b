//! The table of a resource listing.
use vstd::prelude::*;

verus! {

/// A column definition for the resource table
#[derive(Debug, Clone)]
pub struct TableColumn {
    pub name: String,
    pub min_width: u32,
}

impl TableColumn {
    pub fn new(name: &str, min_width: u32) -> (c: Self)
        ensures
            c.name@ == name@,
            c.min_width == min_width,
    {
        TableColumn { name: name.to_owned(), min_width }
    }
}

/// A single row of data in the resource table
#[derive(Debug, Clone)]
pub struct TableRow {
    pub cells: Vec<String>,
}

/// Table data model — holds columns and rows for a resource listing
#[derive(Debug, Clone)]
pub struct TableData {
    pub columns: Vec<TableColumn>,
    pub rows: Vec<TableRow>,
}

impl TableData {
    /// Create an empty table (used as initial state)
    pub fn empty() -> (t: Self)
        ensures
            t.columns@.len() == 0,
            t.rows@.len() == 0,
    {
        TableData { columns: Vec::new(), rows: Vec::new() }
    }
}

/// The cells of a row, as character sequences.
pub open spec fn row_cells(r: TableRow) -> Seq<Seq<char>> {
    r.cells@.map_values(|c: String| c@)
}

/// The names and widths of a table's columns.
pub open spec fn column_specs(cols: Seq<TableColumn>) -> Seq<(Seq<char>, u32)> {
    cols.map_values(|c: TableColumn| (c.name@, c.min_width))
}

} // verus!
