//! Authentication and session lifecycle for a job-board backend: salted
//! password digests, signed access and refresh tokens, the single stored
//! refresh token of each user, and the bearer check that guards protected
//! routes.

pub mod auth;
pub mod db;
pub mod error;
pub mod handler;
pub mod models;
pub mod text;
pub mod utils;
