//! Dual-mode watcher for a single chat channel's name.
//!
//! Two concurrent detectors — a fixed-interval REST poller and a persistent
//! gateway (streaming) client — reconcile their observations against one
//! shared "last known name" value and raise exactly one alert per confirmed
//! change. This crate holds the verified core: the shared-state reconcile
//! logic, the gateway frame codec, the connection state machine, and the
//! alert controller's bookkeeping. The surrounding process (network I/O,
//! timers, subprocess calls) drives these functions from outside.

pub mod gateway;
pub mod json;
pub mod models;
pub mod monitor;
pub mod notifier;
pub mod state;
