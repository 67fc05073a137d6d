//! A todo/user backend: domain records, persistence contracts with an
//! in-memory store, use cases, and the request-level rules of the web layer.

pub mod id;
pub mod text;
pub mod model;
pub mod repository;
pub mod memory;
pub mod view;
pub mod password;
pub mod usecase;
pub mod json;
pub mod web;
pub mod validate;
pub mod config;
pub mod modules;
pub mod laws;
pub mod stored;
