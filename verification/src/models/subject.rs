use super::EntityId;
use crate::ipc::text::same_text;
use vstd::prelude::*;
use vstd::std_specs::convert::FromSpecImpl;

verus! {

/// Whether a subject is compulsory.
#[derive(Debug, PartialEq, Eq, Clone, Copy, Structural)]
pub enum SubjectKind {
    OBLIGATORY,
    VOLUNTARY,
    UNKNOWN,
}

/// The kind that a text names: `OBLIGATORY` and `VOLUNTARY` name
/// themselves, every other text names `UNKNOWN`.
pub open spec fn subject_kind_named(text: Seq<char>) -> SubjectKind {
    if text == "OBLIGATORY"@ {
        SubjectKind::OBLIGATORY
    } else if text == "VOLUNTARY"@ {
        SubjectKind::VOLUNTARY
    } else {
        SubjectKind::UNKNOWN
    }
}

impl From<&str> for SubjectKind {
    fn from(value: &str) -> (kind: Self) {
        if same_text(value, "OBLIGATORY") {
            SubjectKind::OBLIGATORY
        } else if same_text(value, "VOLUNTARY") {
            SubjectKind::VOLUNTARY
        } else {
            SubjectKind::UNKNOWN
        }
    }
}

impl FromSpecImpl<&str> for SubjectKind {
    open spec fn obeys_from_spec() -> bool {
        true
    }

    open spec fn from_spec(value: &str) -> Self {
        subject_kind_named(value@)
    }
}

/// A subject that is examined.
#[derive(Debug, Clone)]
pub struct Subject {
    pub id: EntityId,
    pub name: String,
    pub kind: SubjectKind,
    pub exam_date: Option<String>,
    pub exam_duration: Option<String>,
}

/// A subject as a spreadsheet describes it.
#[derive(Debug, PartialEq, Eq, Clone)]
pub struct ImportedSubject {
    pub name: String,
    pub kind: SubjectKind,
}

/// What is needed to add a subject.
#[derive(Debug, PartialEq, Eq, Clone)]
pub struct SubjectForCreate {
    pub name: String,
    pub kind: SubjectKind,
}

} // verus!
