use vstd::prelude::*;

verus! {

/// An examinee as a data source hands it out.
#[derive(Debug, PartialEq, Eq, Clone)]
pub struct Examinee {
    pub id: Option<i32>,
    pub name: String,
    pub surenames: String,
    pub origin: ExamineeOrigin,
    pub court: i16,
}

/// The studies an examinee comes from.
#[derive(Debug, PartialEq, Eq, Clone)]
pub enum ExamineeOrigin {
    Baccalaureate,
    VocationalTraining,
    Other(String),
}

} // verus!
