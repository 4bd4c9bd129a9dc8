//! Client-side engine for the Valve server-query protocol family: packet
//! framing, split-response reassembly with integrity checks, and binary
//! parsing of server info, player and rule responses.

pub mod buffer;
pub mod engine;
pub mod errors;
pub mod packet;
pub mod parse;
pub mod settings;
pub mod split;
pub mod types;
