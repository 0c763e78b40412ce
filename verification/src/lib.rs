//! A link shortener service: the request logic (form and path validation,
//! account and login decisions, authorization, error replies and routing)
//! as verified functions over plain values.

pub mod status;
pub mod error;
pub mod db;
pub mod models;
pub mod structs;
pub mod jwt;
pub mod parser;
pub mod response;
pub mod routes;
pub mod laws;
