use vstd::prelude::*;

verus! {

/// Why an assignment could not be exported.
#[derive(Debug, PartialEq, Eq, Clone)]
pub enum ExportAssignmentError {
    CreateDirectories { path: String },
    CreateFile { file: String },
    WriteFile { file: String },
}

} // verus!
