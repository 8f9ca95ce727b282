//! A vehicle registry: the domain model, its stored form, and the rules by
//! which vehicles are created, found and deleted in a wide-column store.

pub mod cache;
pub mod config;
pub mod cql;
pub mod error;
pub mod handlers;
pub mod memory;
pub mod name_map;
pub mod queries;
pub mod repository;
pub mod response;
pub mod row;
pub mod slot;
pub mod table;
pub mod text;
pub mod vehicle;
