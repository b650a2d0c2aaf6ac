//! The dispatch core of a small HTTP server: one handler, shared by every connection. Each
//! request the transport parsed is checked and handed to the handler, and what the handler
//! returns, or its failure, becomes exactly one response.
pub mod adapt;
pub mod handler;
pub mod iron;
pub mod message;
pub mod syntax;
pub mod wire;
