//! Core logic of a multi-port TCP echo service: lifecycle events from
//! listeners, connection handlers and a keypress watcher are funneled into a
//! single aggregator, which renders them in delivery order until a shutdown
//! request arrives. Each component's decisions are pure step functions with
//! contracts; the surrounding threads, sockets and terminal calls live in the
//! binary around this library.

pub mod aggregator;
pub mod event;
pub mod handler;
pub mod keys;
pub mod listener;
pub mod term;
