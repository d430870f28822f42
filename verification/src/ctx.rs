//! The state of a running application: the open document's collections
//! and whether they have been saved.

use crate::ipc::text::{lemma_position_is, position, same_text};
use crate::models::academic_centre::AcademicCentre;
use crate::models::examinee::Examinee;
use crate::models::subject::Subject;
use vstd::prelude::*;

verus! {

/// The collections of the open document.
pub struct ApplicationState {
    is_saved: bool,
    examinees: Vec<Examinee>,
    academic_centres: Vec<AcademicCentre>,
    subjects: Vec<Subject>,
}

/// The names of academic centres, in their order.
pub open spec fn centre_names(centres: Seq<AcademicCentre>) -> Seq<Seq<char>> {
    Seq::new(centres.len(), |i: int| centres[i].name@)
}

impl ApplicationState {
    /// Whether the state is marked as saved.
    pub closed spec fn is_saved(&self) -> bool {
        self.is_saved
    }

    /// The examinees, in the order they were added.
    pub closed spec fn examinees(&self) -> Seq<Examinee> {
        self.examinees@
    }

    /// The academic centres, in the order they were added.
    pub closed spec fn academic_centres(&self) -> Seq<AcademicCentre> {
        self.academic_centres@
    }

    /// The subjects, in the order they were added.
    pub closed spec fn subjects(&self) -> Seq<Subject> {
        self.subjects@
    }

    /// The state of an application that has just started: nothing is held
    /// and nothing is waiting to be saved.
    pub fn new() -> (state: Self)
        ensures
            state.is_saved(),
            state.examinees() == Seq::<Examinee>::empty(),
            state.academic_centres() == Seq::<AcademicCentre>::empty(),
            state.subjects() == Seq::<Subject>::empty(),
    {
        ApplicationState {
            is_saved: true,
            examinees: Vec::new(),
            academic_centres: Vec::new(),
            subjects: Vec::new(),
        }
    }

    /// The state of an application that has just opened a document with
    /// the given collections.
    pub fn from_collections(
        examinees: Vec<Examinee>,
        academic_centres: Vec<AcademicCentre>,
        subjects: Vec<Subject>,
    ) -> (state: Self)
        ensures
            state.is_saved(),
            state.examinees() == examinees@,
            state.academic_centres() == academic_centres@,
            state.subjects() == subjects@,
    {
        ApplicationState { is_saved: true, examinees, academic_centres, subjects }
    }

    /// The examinees held.
    pub fn get_examinees(&self) -> (examinees: &Vec<Examinee>)
        ensures
            examinees@ == self.examinees(),
    {
        &self.examinees
    }

    /// The academic centres held.
    pub fn get_academic_centres(&self) -> (academic_centres: &Vec<AcademicCentre>)
        ensures
            academic_centres@ == self.academic_centres(),
    {
        &self.academic_centres
    }

    /// The subjects held.
    pub fn get_subjects(&self) -> (subjects: &Vec<Subject>)
        ensures
            subjects@ == self.subjects(),
    {
        &self.subjects
    }

    /// The first academic centre called `name`.
    pub fn get_academic_centre_by_name(&self, name: &str) -> (found: Option<&AcademicCentre>)
        ensures
            ({
                let at = position(centre_names(self.academic_centres()), name@);
                if at < self.academic_centres().len() {
                    found == Some(&self.academic_centres()[at])
                } else {
                    found is None
                }
            }),
    {
        let ghost names = centre_names(self.academic_centres@);
        let mut i: usize = 0;
        while i < self.academic_centres.len()
            invariant
                i <= self.academic_centres.len(),
                names == centre_names(self.academic_centres@),
                forall|k: int| 0 <= k < i ==> names[k] != name@,
            decreases self.academic_centres.len() - i,
        {
            if same_text(self.academic_centres[i].name.as_str(), name) {
                proof {
                    lemma_position_is(names, name@, i as int);
                }
                return Some(&self.academic_centres[i]);
            }
            i = i + 1;
        }
        proof {
            lemma_position_is(names, name@, i as int);
        }
        None
    }

    /// Sets the saved mark and leaves the collections as they are.
    pub fn modified_state(&mut self)
        ensures
            final(self).is_saved(),
            final(self).examinees() == old(self).examinees(),
            final(self).academic_centres() == old(self).academic_centres(),
            final(self).subjects() == old(self).subjects(),
    {
        self.is_saved = true;
    }
}

} // verus!
