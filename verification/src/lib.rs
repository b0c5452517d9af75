//! Verified core of a broker that runs reversible performance experiments.

pub mod args;
pub mod auth;
pub mod broker;
pub mod broker_laws;
pub mod connection;
pub mod contracts;
pub mod control_laws;
pub mod control_plane;
pub mod daemon_laws;
pub mod doctor;
pub mod evaluator;
pub mod frame;
pub mod gateway;
pub mod gateway_laws;
pub mod ipc;
pub mod journal;
pub mod journal_scan;
pub mod json;
pub mod lifecycle_laws;
pub mod mock;
pub mod model;
pub mod ownership;
pub mod paths;
pub mod provider;
pub mod reading;
pub mod recovery_laws;
pub mod runner;
pub mod runner_laws;
pub mod startup;
pub mod text;
pub mod transport;
pub mod trial_laws;
pub mod watchdog;
pub mod wire_laws;
