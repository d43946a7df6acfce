//! Organization management core: error mapping, input validation, token
//! handling, an in-memory repository with transactional add operations, and
//! the use cases that run on top of it.

pub mod response;
pub mod error;
pub mod ids;
pub mod validator;
pub mod dto;
pub mod text;
pub mod store;
pub mod token;
pub mod auth;
pub mod config;
pub mod cases;
pub mod pipeline;
