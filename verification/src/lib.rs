//! Flash stub catalog and loader.
//!
//! Supplies, for each supported hardware variant, a small bootstrap program
//! ("stub") as a descriptor of typed segments: an entry address, a text
//! segment and a data segment, each paired with its load address.  The
//! resources are embedded in the program image as textual records and the
//! payloads are carried in a transport encoding (base64); the descriptor
//! decodes them on demand.

pub mod b64;
pub mod catalog;
pub mod parser;
pub mod stub;

