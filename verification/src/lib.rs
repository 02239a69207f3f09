//! A verified data-access layer for a small blog domain: users, posts
//! authored by users, and comments on posts, backed by a relational store
//! with auto-incrementing integer keys and declared foreign keys.
//!
//! `models` holds the row types and their insertable counterparts, `schema`
//! the store itself (tables, key assignment, foreign-key enforcement),
//! `queries` the operation surface (create and delete for each entity), and
//! `laws` the proved facts that relate the operations to one another.

pub mod laws;
pub mod queries;
pub mod models;
pub mod schema;
