//! A multi-protocol load-generation library.
//!
//! The library holds the verified core of a benchmarking tool that drives
//! HTTP, raw TCP and Unix-domain-socket endpoints: configuration records,
//! the worker-pool accounting and stopping rules, the per-attempt protocol
//! decisions, the latency-statistics reducer, and the report assembly.
//! The unverifiable edges (sockets, clocks, terminal output) live outside,
//! in a thin shell that feeds this library plain values.

pub mod config;
pub mod engine;
pub mod error;
pub mod http;
pub mod report;
pub mod runner;
pub mod stats;
pub mod store;
pub mod tcp;
pub mod text;
pub mod ui;
