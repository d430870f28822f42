use super::EntityId;
use vstd::prelude::*;

verus! {

/// A room that exams are held in.
#[derive(Debug, Clone)]
pub struct Classroom {
    pub id: EntityId,
    pub code: String,
    pub location_code: String,
    pub total_capacity: u32,
    pub exam_capacity: u32,
    pub priority: u32,
    pub court_location: Option<i16>,
    pub kind: String,
    pub notes: Vec<String>,
}

} // verus!
