//! The decision core of an automated trading engine.
//!
//! An [`engine::Engine`] is a single-owner state machine. It pulls market
//! events, account events and operator commands from one ordered feed, keeps a
//! portfolio up to date through injected capabilities, asks a strategy for
//! orders, and hands execution requests to an unbounded channel. Every
//! transition consumes the engine and returns its successor, so only the legal
//! sequences of operations can be written down.
//!
//! Each transition is specified twice over. The function that consults a
//! collaborator (the feed, the portfolio, the strategy, the execution channel)
//! promises that its result is the one its decision function gives for some
//! answer that the collaborator may give to what it was shown. The decision
//! function, which takes the answer as an argument, is specified exactly.
//! What holds of every transition, and so of every session, is proved in
//! [`engine::laws`].

pub mod engine;
pub mod event;
pub mod execution;
pub mod outside;
pub mod portfolio;
pub mod strategy;
