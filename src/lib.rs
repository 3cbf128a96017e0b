//! Session-authenticated content management: user accounts, administrator
//! rights and articles, with the decisions of every request handler stated
//! and proved over a model of the session and of the two tables.

pub mod models;
pub mod reply;
pub mod session;
pub mod store;
pub mod text;
pub mod repo;
pub mod access;
pub mod email;
pub mod routes;
