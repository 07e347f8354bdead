//! A small OpenID Connect provider: the verified core of configuration
//! validation, authorization requests, token claims, credential checks,
//! short-lived authorization state and page rendering.

pub mod admin_console;
pub mod admins;
pub mod app;
pub mod auth;
pub mod bindings;
pub mod cli;
pub mod config;
pub mod console_pages;
pub mod crypto;
pub mod error;
pub mod frontend;
pub mod handlers;
pub mod json;
pub mod metadata;
pub mod order;
pub mod store;
pub mod text;
pub mod time;
pub mod token;
pub mod upstream;
pub mod users;

use vstd::prelude::*;

verus! {

} // verus!
