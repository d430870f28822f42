//! The records a document is made of.

use vstd::prelude::*;

pub mod academic_centre;
pub mod assignation;
pub mod classroom;
pub mod examinee;
pub mod subject;
pub mod vigilant;

use academic_centre::AcademicCentre;
use assignation::AllExamConfiguration;
use classroom::Classroom;
use examinee::Examinee;
use subject::Subject;
use vigilant::Vigilant;

verus! {

/// Identifier of a record within its collection.
#[derive(Debug, PartialEq, Eq, Clone, Copy, Hash, Structural)]
pub struct EntityId(pub i32);

/// The whole document: every collection, and the counters that identifiers
/// are drawn from.
#[derive(Debug)]
pub struct AppValues {
    pub examinees: Vec<Examinee>,
    pub academic_centres: Vec<AcademicCentre>,
    pub subjects: Vec<Subject>,
    pub vigilants: Vec<Vigilant>,
    pub classrooms: Vec<Classroom>,
    pub assignation: Option<AllExamConfiguration>,
    pub ids: Ids,
}

/// The last identifier handed out in each collection.
#[derive(Debug)]
pub struct Ids {
    pub examinees: EntityId,
    pub academic_centres: EntityId,
    pub subjects: EntityId,
    pub vigilants: EntityId,
    pub classrooms: EntityId,
}

} // verus!
