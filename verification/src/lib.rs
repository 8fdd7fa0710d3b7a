//! The logic of a story and comment service: reading its forms, deciding the
//! SQL statements that each request runs, and proving what they do to the
//! database.
pub mod decode_laws;
pub mod endpoint;
pub mod form;
pub mod handler;
pub mod json;
pub mod laws;
pub mod model;
pub mod number;
pub mod plan;
pub mod service_laws;
pub mod statement;
