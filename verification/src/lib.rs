//! The host side of a plugin runtime: the instruction protocol that host and
//! plugins speak over a local socket, and the rules by which the host finds,
//! starts, reads from and stops its plugins.

use vstd::prelude::*;

pub mod json;
pub mod schema;
pub mod codec;
pub mod envelope;
pub mod payload;
pub mod core_instruction_handler;
pub mod plugin_instruction_handler;
pub mod socket;
pub mod process;
pub mod ui;
pub mod manager;
pub mod runtime;
pub mod host;
pub mod plugin_sdk;
