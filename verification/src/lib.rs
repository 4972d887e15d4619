//! kronkeeper: the decision logic of a durable job scheduler, with its contracts.
pub mod text;
pub mod time;
pub mod job;
pub mod heap;
pub mod worker;
pub mod metrics;
pub mod recurring;
pub mod scheduler;
pub mod webhook;
pub mod api;
pub mod auth;
pub mod sandbox;
