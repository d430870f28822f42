use vstd::prelude::*;

verus! {

/// The cells of one sheet of a workbook, row by row.
#[derive(Debug, PartialEq, Eq, Clone)]
pub struct SheetData {
    pub sheet_name: String,
    pub sheet_values: Vec<Vec<String>>,
}

} // verus!
