use vstd::prelude::*;

verus! {

/// Why a file could not be handed to the system's default program.
#[derive(Debug, PartialEq, Eq, Clone, Copy, Structural)]
pub enum OpenFileError {
    Io,
    Internal,
    Status(Option<i32>),
}

} // verus!
