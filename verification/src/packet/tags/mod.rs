//! Parsers, one module for each kind of packet.

pub mod sig;
pub mod sig_grammar;
