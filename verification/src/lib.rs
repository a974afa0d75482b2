//! Chat-channel bot core: frame decoding, command dispatch, search-response
//! formatting, and startup sequencing, with machine-checked contracts.
//!
//! The bot keeps one connection to a chat service, decodes each inbound text
//! frame into a typed event, recognizes a trigger command inside chat text,
//! and answers with a formatted search result. The connection itself, the
//! on-disk index, and all I/O live outside this crate; everything here is
//! plain computation from values to values.

pub mod codec;
pub mod dispatch;
pub mod search;
pub mod session;
pub mod startup;
