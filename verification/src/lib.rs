//! A posts service: the entity model, an in-process posts store,
//! the repository that is the only gateway to it, and the mapping of
//! repository outcomes to protocol-level responses.

pub mod api;
pub mod error;
pub mod laws;
pub mod model;
pub mod repository;
pub mod store;
