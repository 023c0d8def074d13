//! Bearer-token authentication and role gating for a small publishing service,
//! together with the input rules of its content endpoints.

pub mod claims;
pub mod clock;
pub mod comments;
pub mod config;
pub mod decimal;
pub mod dto;
pub mod error;
pub mod extract;
pub mod middleware;
pub mod password;
pub mod posts;
pub mod responses;
pub mod slug;
pub mod store;
pub mod text;
pub mod token;
pub mod users;
pub mod validation;
