//! A panel applet model for showing CPU, memory and swap utilization.
//!
//! The crate holds the verified core of the applet: the persisted display
//! flags, the sampler's per-tick computations, the single-threaded state
//! machine that applies incoming events, and the presenter that turns the
//! current state into panel labels and popup checkboxes. The host shell,
//! the configuration store and the operating-system metrics provider are
//! external collaborators driven from an unverified shell around this crate.

pub mod config;
pub mod metrics;
pub mod state;
pub mod view;
