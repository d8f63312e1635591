//! Sans-I/O core of a skill-training monitor: the rotation of monitored
//! characters, the per-character update protocol, the change detection and
//! the texts sent to the chat platform, each with a machine-checked contract.

pub mod discord;
pub mod esi;
pub mod monitor;
pub mod text;
