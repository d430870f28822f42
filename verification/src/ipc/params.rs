use crate::models::EntityId;
use vstd::prelude::*;

verus! {

/// Arguments of a command that adds a record.
pub struct CreateParams<D> {
    pub data: D,
}

/// Arguments of a command that changes a record.
pub struct UpdateParams<D> {
    pub id: EntityId,
    pub data: D,
}

/// Arguments of a command that reads a record.
pub struct GetParams {
    pub id: EntityId,
}

/// Arguments of a command that removes a record.
pub struct DeleteParams {
    pub id: EntityId,
}

} // verus!
