use super::EntityId;
use vstd::prelude::*;

verus! {

/// A school that examinees come from.
#[derive(Debug, PartialEq, Eq, Clone)]
pub struct AcademicCentre {
    pub id: EntityId,
    pub name: String,
}

/// What is needed to add an academic centre.
#[derive(Debug, PartialEq, Eq, Clone)]
pub struct AcademicCentreForCreate {
    pub name: String,
}

} // verus!
