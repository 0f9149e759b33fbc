//! Request validation, error taxonomy and bearer-token authentication for the
//! Hess social backend.

pub mod auth;
pub mod commands;
pub mod enum_validators;
pub mod identity;
pub mod json;
pub mod jwt;
pub mod models;
pub mod outcomes;
pub mod raw;
pub mod responder;
pub mod response;
pub mod validator;
