//! A hit counter that stands in front of another handler.
//!
//! One invocation decodes the incoming event, asks the counter store to add
//! one to the hits of the event's path, hands the event's text to the
//! downstream handler and relays what that handler answers. The two remote
//! calls are made by the caller of this library; every decision between them
//! is taken here.

pub mod config;
pub mod counter;
pub mod error;
pub mod event;
pub mod handler;
pub mod json;
pub mod laws;
