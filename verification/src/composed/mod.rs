//! Operations on whole messages.

pub mod message;
