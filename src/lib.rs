//! Bounded registry of named states with current/previous tracking and an
//! optional transition guard, for environments without dynamic growth.
mod governor;
mod laws;
pub mod state;

pub use governor::{
    has_id, ids_unique, lemma_state_with_id, state_with_id, Governor, GovernorError, GovernorView,
};
