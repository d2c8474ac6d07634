//! Verified core of the mensatt backend: configuration, authentication,
//! data records, data-loader grouping and the decisions behind every
//! GraphQL query and mutation. Database, HTTP and GraphQL plumbing live in
//! the companion application crate.

pub mod text;
pub mod config;
pub mod time;
pub mod models;
pub mod group;
pub mod ids;
pub mod error;
pub mod queries;
pub mod loaders;
pub mod auth;
pub mod password;
pub mod mutations;
pub mod image_service;
pub mod subscriptions;
