//! Verified command-and-control core of a small satellite on-board computer (OBC):
//! packet parsing, command validation, mode and fault management, the command
//! handler, the persistent storage record and the log-line format.

pub mod commands;
pub mod errors;
pub mod packet;
pub mod parser;
pub mod state;
pub mod modes;
pub mod actions;
pub mod faults;
pub mod post;
pub mod handler;
pub mod subsystems;
pub mod text;
pub mod storage;
pub mod logger;
pub mod console;
