//! Verified core of a small set of web route handlers.
//!
//! The library holds the pure computation behind each route: decimal
//! parsing and printing, response-body formatting, form validation, and
//! trimming of padded upload buffers. Every function carries a contract
//! stated over sequence views of the strings involved, and the framework
//! plumbing around it (routing, cookies, request I/O) stays outside.

pub mod forms;
pub mod handlers;
pub mod numbers;
pub mod trim;
