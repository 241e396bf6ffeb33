//! Ownership-checked task-list domain logic over a relational store.
//!
//! `models` holds the persisted entities and their mathematical views,
//! `db` the row-level storage operations, and `logic` the domain layer
//! that adds existence and ownership checks on top of them.

pub mod db;
pub mod logic;
pub mod models;
