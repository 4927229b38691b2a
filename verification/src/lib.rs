//! Dispatch and scheduling engine of an online judge.
//!
//! Tasks wait in a queue. Judge servers report themselves with heartbeats
//! and are kept in a registry. Dispatch workers take the waiting tasks, one
//! at a time, to the first eligible server, and see each task through to
//! its result, or back into the queue where the dispatch failed.
//!
//! The library decides; its caller acts. Reading the clock, the task store,
//! the network and the judge servers is the caller's part: it hands the
//! library what it read, and performs the actions that the library returns.

/// Shapes of the requests that bring submissions to the engine.
pub mod controllers;
/// Errors of the services, with the answers that they are given.
pub mod errors;
/// The dispatch worker and what it needs of the judge servers.
pub mod judge_actor;
/// The data that the engine works on.
pub mod models;
/// The queue of the waiting tasks.
pub mod queue;
/// The registry of the judge servers.
pub mod registry;
/// What the services of the platform decide and compute.
pub mod services;
/// The engine as a whole, and what every step of it keeps true.
pub mod system;
/// Texts: comparison, copies, decimal notation.
pub mod text;
