use super::types::Examinee;
use vstd::prelude::*;

verus! {

/// Something examinees can be read from once it has been opened with a
/// password.
pub trait DataSource {
    fn open_from(path: &str, password: &str) -> Self where Self: Sized;

    fn get_examinees(&self) -> Vec<&Examinee>;
}

} // verus!
