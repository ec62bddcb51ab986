//! Client core for a learning-management web-service API: session
//! construction, request-parameter building, response validation, and the
//! typed domain entities (courses, assignments, submissions, users).
//!
//! Everything here is pure: the caller performs the HTTP exchange and hands
//! the decoded response values back to the validating functions.

pub mod error;
pub mod model;
pub mod session;
pub mod text;
pub mod wire;
