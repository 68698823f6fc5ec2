//! Layered configuration for the tetrs game: every setting is resolved from
//! the compiled-in default, the environment, the configuration file and the
//! command line, and remembers which of them decided it.
//!
//! `command` holds the rule of the base layer, `config` the settings and the
//! base layer as the argument parser resolved it, `config::file` the file
//! layer, `config::report` the report of a run, and `config::laws` the laws
//! of precedence. `outside` lists what is taken from `std` and `clap` without
//! proof.

pub mod command;
pub mod config;
pub mod outside;
