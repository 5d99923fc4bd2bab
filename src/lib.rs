//! Comments and ratings on videos: the claims carried by a bearer token, the
//! per-endpoint authorization policy, rating aggregation, and an in-memory
//! store with the same operations as the relational one.

pub mod auth;
pub mod connection;
pub mod error;
pub mod handler;
pub mod models;
pub mod policy;
pub mod rating;
pub mod repository;
