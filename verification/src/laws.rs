//! What holds of the decisions, for all inputs.
//!
//! Each function here states one law of a module of the same name: what follows
//! each event or answer, what a sequence of them leads to, and what changes
//! nothing.

pub mod text;
pub mod status;
pub mod workspace;
pub mod resolve;
pub mod launch;
pub mod ready;
pub mod kill;
pub mod state;
pub mod watchdog;
pub mod update;
pub mod menu;
