//! Request-pipeline logic of the shop server: the error model, backend
//! error-code classification, identifier parsing, session-cookie resolution,
//! multipart form decoding, registration steps and failure recovery.

pub mod text;
pub mod error;
pub mod ident;
pub mod session;
pub mod form;
pub mod register;
pub mod render;
pub mod sql;
pub mod config;
pub mod storage;
pub mod handler;
pub mod route;
