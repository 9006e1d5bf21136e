//! Command interpretation for a chat-driven cetkaik board: tokenizing raw
//! command lines, parsing coordinates and piece descriptors, and resolving an
//! under-specified drop from reserve into an exact piece.

pub mod bot;
pub mod command;
pub mod coord;
pub mod descriptor;
pub mod piece;
pub mod resolve;
pub mod tokens;
