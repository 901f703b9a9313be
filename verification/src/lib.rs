//! The verified core of a small ecological simulation: organisms that produce
//! food of one kind and consume food of another, the bookkeeping they keep,
//! the settings they start from and the decisions they take while talking to
//! their peers.

pub mod text;
pub mod configuration;
pub mod ecosystem;
pub mod state;
pub mod observer;
pub mod organism;
pub mod retry;
pub mod server;
pub mod food_producer;
