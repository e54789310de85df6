//! The dispatcher and the tool-protocol adapter.
pub mod mcp_service;
pub mod query_service;
pub mod rag_service;
