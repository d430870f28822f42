use super::EntityId;
use vstd::prelude::*;

verus! {

/// The part a vigilant plays in a court.
#[derive(Debug, PartialEq, Eq, Clone, Copy, Structural)]
pub enum VigilantRole {
    PRESIDENT,
    SECRETARY,
    MEMBER,
}

/// A person who watches over exams.
#[derive(Debug, Clone)]
pub struct Vigilant {
    pub id: EntityId,
    pub name: String,
    pub surenames: String,
    pub role: VigilantRole,
    pub specialties_ids: Vec<EntityId>,
    pub academic_centre_id: Option<EntityId>,
    pub main_court: i16,
}

} // verus!
