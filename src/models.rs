//! The data the gateway reads and writes.
pub mod query;
pub mod query_wire;
pub mod rag_config;
pub mod outbound;
pub mod central_query;
pub mod rag_mcp;
