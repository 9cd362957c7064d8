use vstd::prelude::*;

pub mod auth;
pub mod models;
pub mod operations;
pub mod repository;
pub mod service;
pub mod streaming;
pub mod util;
