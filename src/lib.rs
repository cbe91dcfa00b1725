//! A small JSON web backend: the replies of its two endpoints, the table that
//! routes requests to them, its configuration defaults, its cross-origin
//! policy and the sequence of steps that brings the server up.

pub mod text;
pub mod responses;
pub mod routes;
pub mod config;
pub mod cors;
pub mod startup;
