//! Verified logic of the Surface DTX daemons.
//!
//! The detachable clipboard of a Surface Book is held to its base by a
//! latch that the embedded controller opens on request. The system daemon
//! takes part in that handshake: it runs handler scripts before the latch
//! opens and after a base has been put on, and it publishes what happens on
//! the system bus, where the user daemon picks it up and notifies the user.
//!
//! This crate holds what the daemons decide. It reads and writes nothing
//! itself: it is handed the bytes and events that were read, and hands back
//! what is to be done.
//!
//! - [`types`], [`event`], [`device`]: the data model, the events and the
//!   wire format of the device.
//! - [`engine`], [`invariants`]: the detachment state engine and what holds
//!   of it.
//! - [`adapter`], [`process`], [`service`], [`taskq`]: the sinks of the
//!   engine's calls: the handler runner with its task queue and the bus
//!   publisher.
//! - [`arg`], [`signal`], [`text`]: how values and lifecycle signals are
//!   written on the bus and read back.
//! - [`userd`], [`notify`]: the decisions of the user daemon and its
//!   notifications.
//! - [`config`], [`error`], [`shutdown`], [`utils`]: configuration, errors,
//!   the end of the daemon, helpers.

pub mod error;
pub mod types;
pub mod text;
pub mod arg;
pub mod signal;
pub mod device;
pub mod event;
pub mod engine;
pub mod invariants;
pub mod adapter;
pub mod service;
pub mod config;
pub mod taskq;
pub mod shutdown;
pub mod process;
pub mod notify;
pub mod userd;
pub mod utils;
