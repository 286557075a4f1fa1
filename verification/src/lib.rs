//! A small web-search client library: a registry of search sources, a
//! dispatcher that builds one HTTP request per query, and a renderer that
//! turns an HTML response into plain terminal text.
//!
//! The HTTP transport itself and the command line live outside the library;
//! everything that decides or computes is here, with contracts.

pub mod textops;
pub mod registry;
pub mod failure;
pub mod dispatch;
pub mod render;
