//! The decisions of a desktop shell around a local web backend.
//!
//! The shell launches a backend process on a free loopback port, watches over
//! it, keeps one downloaded update ready to install, and answers the commands
//! of its window and menus. This crate holds what the shell decides; whoever
//! embeds it performs the effects (processes, sockets, windows, dialogs) and
//! reports their results back.

pub mod text;
pub mod tail;
pub mod workspace;
pub mod status;
pub mod resolve;
pub mod launch;
pub mod ready;
pub mod kill;
pub mod state;
pub mod watchdog;
pub mod update;
pub mod menu;
pub mod laws;
