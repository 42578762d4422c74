//! Why a lookup found nothing.

use vstd::prelude::*;

verus! {

#[derive(Clone, Copy, Debug, PartialEq, Eq)]
pub enum LookupError {
    /// The entity has no component with the tag.
    ComponentNotFound,
    /// The component with the tag is not of the payload type asked for.
    DowncastMismatch,
    /// No entity has the id, or no slot the index.
    EntityNotFound,
}

impl LookupError {
    pub fn message(&self) -> (text: &'static str)
        ensures
            text@ == match *self {
                LookupError::ComponentNotFound => "Component not in entity"@,
                LookupError::DowncastMismatch => "Error downcasting component result"@,
                LookupError::EntityNotFound => "Entity not found"@,
            },
    {
        match self {
            LookupError::ComponentNotFound => "Component not in entity",
            LookupError::DowncastMismatch => "Error downcasting component result",
            LookupError::EntityNotFound => "Entity not found",
        }
    }
}

} // verus!
