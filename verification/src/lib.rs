//! Presence link supervision for a small network node.
//!
//! The node keeps a wireless link and a broker session alive, announces its
//! presence once per session, and shows its state on a colour indicator. This
//! crate holds the decisions: what to validate, what to show, when to publish,
//! when to give up on a weak link and start over. Every function carries a
//! contract that Verus proves; the radio, the broker client and the light are
//! driven by the program around the crate, which hands in what it observed
//! and carries out what comes back.
//!
//! - [`config`]: the configuration and its validation.
//! - [`wifi`]: link settings, the steps of a connect attempt, transmit power.
//! - [`mqtt`]: the connectivity latch, the presence topic, session requests.
//! - [`indicator`]: palette and brightness of the light.
//! - [`signal`]: the verdict on one sample of the signal strength.
//! - [`supervisor`]: the state machine that ties these together.
//! - [`laws`]: what is proved of the state machine as a whole.
//! - [`text`], [`utils`]: string comparison, interpolation, clock seconds.

pub mod config;
pub mod indicator;
pub mod laws;
pub mod mqtt;
pub mod signal;
pub mod supervisor;
pub mod text;
pub mod utils;
pub mod wifi;
