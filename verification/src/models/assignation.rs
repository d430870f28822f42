use super::EntityId;
use vstd::prelude::*;

verus! {

/// Every exam that has been configured.
#[derive(Debug, PartialEq, Eq, Clone)]
pub struct AllExamConfiguration(pub Vec<ExamConfiguration>);

/// One exam, or several exams that are held at the same time and share
/// classrooms and vigilants.
#[derive(Debug, PartialEq, Eq, Clone)]
pub enum ExamConfiguration {
    IndividualExam(IndividualExam),
    CollidingExams { exams: Vec<IndividualExam>, classrooms: Vec<EntityId>, vigilants: Vec<EntityId> },
}

/// The exam of one subject.
#[derive(Debug, PartialEq, Eq, Clone)]
pub struct IndividualExam {
    pub subject: EntityId,
    pub examinees: Vec<EntityId>,
    pub classrooms: Vec<EntityId>,
    pub vigilants: Vec<EntityId>,
    pub distribution: Option<ExamDistribution>,
}

/// How the examinees of an exam are spread over classrooms.
#[derive(Debug, PartialEq, Eq, Clone)]
pub struct ExamDistribution {
    pub subject: EntityId,
    pub specialists: Vec<EntityId>,
    pub distribution: Vec<ExamClassroomDistribution>,
}

/// Who sits and who watches in one classroom.
#[derive(Debug, PartialEq, Eq, Clone)]
pub struct ExamClassroomDistribution {
    pub classroom: EntityId,
    pub examinees: Vec<EntityId>,
    pub vigilants: Vec<EntityId>,
}

} // verus!
