//! Core logic of a small single-page-application web server: route
//! classification, the health-check payload, and the fallback policy that
//! turns a missing entry document into an internal-server-error response.
//!
//! All request-level decisions live here and are verified; the surrounding
//! HTTP plumbing (listening, reading files, sending responses) is ordinary
//! unverified code that acts on the decisions this library returns.

pub mod config;
pub mod fallback;
pub mod health;
pub mod routes;
