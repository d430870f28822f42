use super::EntityId;
use vstd::prelude::*;

verus! {

/// A person who sits exams.
#[derive(Debug, PartialEq, Eq, Clone)]
pub struct Examinee {
    pub id: EntityId,
    pub nif: String,
    pub name: String,
    pub surenames: String,
    pub origin: String,
    pub court: i16,
    pub academic_centre_id: Option<EntityId>,
    /// The subjects the examinee sits, each listed once.
    pub subjects_ids: Vec<EntityId>,
}

impl Examinee {
    /// No subject is listed twice.
    pub open spec fn wf(&self) -> bool {
        forall|i: int, j: int|
            0 <= i < j < self.subjects_ids@.len() ==> self.subjects_ids@[i] != self.subjects_ids@[j]
    }
}

/// An examinee as a spreadsheet describes it, before it has an identifier.
#[derive(Debug, PartialEq, Eq, Clone)]
pub struct ImportedExaminee {
    pub nif: String,
    pub name: String,
    pub surenames: String,
    pub origin: String,
    pub court: i16,
    pub subjects: Vec<String>,
    pub academic_centre: Option<String>,
}

/// What is needed to add an examinee.
#[derive(Debug, PartialEq, Eq, Clone)]
pub struct ExamineeForCreate {
    pub nif: String,
    pub name: String,
    pub surenames: String,
    pub origin: String,
    pub court: i16,
    pub academic_centre_id: Option<EntityId>,
}

/// What an `ExamineeForCreate` holds, as plain text.
pub struct ExamineeForCreateView {
    pub nif: Seq<char>,
    pub name: Seq<char>,
    pub surenames: Seq<char>,
    pub origin: Seq<char>,
    pub court: i16,
    pub academic_centre_id: Option<EntityId>,
}

impl View for ExamineeForCreate {
    type V = ExamineeForCreateView;

    open spec fn view(&self) -> ExamineeForCreateView {
        ExamineeForCreateView {
            nif: self.nif@,
            name: self.name@,
            surenames: self.surenames@,
            origin: self.origin@,
            court: self.court,
            academic_centre_id: self.academic_centre_id,
        }
    }
}

} // verus!
