//! A progress spinner for the shell: its style table, its command line, the
//! frames it draws and the slot that holds the one running spinner.

pub mod animation;
pub mod cli;
pub mod session;
pub mod styles;
pub mod text;
