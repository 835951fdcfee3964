//! The control plane of an always-on audio capture daemon.
//!
//! The crate holds the rules by which the daemon decides what to do: its
//! lifecycle and retry state, the scheduler of retries, the transactions that
//! start, stop, reload and recover capture, and the replies to its clients.
//! Devices, sockets, threads and files stay with the caller, which hands in
//! plain values and carries out what it is told.

pub mod apply;
pub mod attempt;
pub mod audio_laws;
pub mod bootstrap;
pub mod calibration;
pub mod capture_laws;
pub mod command_laws;
pub mod commands;
pub mod config;
pub mod control;
pub mod error;
pub mod health;
pub mod identity;
pub mod input_laws;
pub mod install;
pub mod label;
pub mod laws;
pub mod legacy;
pub mod lifecycle;
pub mod listener;
pub mod model;
pub mod operations;
pub mod persistence;
pub mod profile;
pub mod recovery;
pub mod request_laws;
pub mod requests;
pub mod scheduler;
pub mod session;
pub mod socket;
pub mod startup_laws;
pub mod status_laws;
pub mod text;
pub mod threshold;
pub mod threshold_laws;
pub mod value_laws;
