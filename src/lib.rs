//! Account creation gated by a session-bound proof-of-work challenge, with a
//! username admissibility pipeline in front of a credential store.
pub mod errors;
pub mod pow;
pub mod filters;
pub mod users;

