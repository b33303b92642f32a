//! Terminal front-end logic for running `docker compose` lifecycle commands
//! on a remote host: the screen state machine, its selection cursor, the text
//! side of the profile store, and the `ssh` arguments for a remote action.
//!
//! The caller owns the terminal, the files and the processes. It hands each key
//! to [`event::handle_key`], carries out the [`model::Effect`] that comes back,
//! and hands the outcome to the matching method of [`state::App`].

pub mod cli;
pub mod cursor;
pub mod event;
pub mod model;
pub mod state;
pub mod store;
pub mod string_specs;
