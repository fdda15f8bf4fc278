//! Persistence core of a question-and-answer service: entity records, the
//! storage-level and request-level error taxonomies with their translation
//! rules, data-access capability traits, and an in-memory store that
//! implements them.

pub mod answers_dao;
pub mod digits;
pub mod errors;
pub mod handlers;
pub mod ids;
pub mod laws;
pub mod models;
pub mod questions_dao;
pub mod store;
