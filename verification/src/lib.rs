//! Verified core of the HaloPSA MCP server: input validation, ticket
//! chunking, OAuth/PKCE decisions, rate limiting, token encryption framing
//! and the workflow rules that decide what an agent may do next.

pub mod util;
pub mod text;
pub mod digest;
pub mod crypto;
pub mod chunking;
pub mod rate;
pub mod hex;
pub mod urlencoding;
pub mod oauth;
pub mod session;
pub mod types;
pub mod halopsa;
pub mod tools;
pub mod mcp;
pub mod config;
pub mod pipeline;
pub mod semantic;
pub mod json;
pub mod catalog;
pub mod schemas;
pub mod onetime;
pub mod requests;
