//! Tools that servers offer over the Model Context Protocol.

pub mod connection;
pub mod content;
pub mod naming;
pub mod tool;
