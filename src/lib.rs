//! A small user service: the `User` entity, an in-memory users table with
//! serial identifiers, and the decisions that turn storage outcomes into
//! HTTP responses.

pub mod model;
pub mod table;
pub mod service;
