//! GleanMark: a personal bookmark library with hybrid (semantic + keyword)
//! search. This crate holds the verified core: the data model, the payload
//! encoding of bookmarks, configuration overlays, session and gateway
//! decisions, pagination and the text handling that feeds the embedders.

pub mod api;
pub mod backend;
pub mod cli;
pub mod desktop;
pub mod embedding;
pub mod error;
pub mod facade;
pub mod http;
pub mod json;
pub mod mcp;
pub mod models;
pub mod pager;
pub mod payload;
pub mod qdrant;
pub mod search;
pub mod session;
pub mod text;
pub mod time;
pub mod waitlist;
