//! Stack-rooted pins for a tracing garbage collector.
//!
//! Native call frames sometimes hold values that the collector's normal
//! heap traversal cannot see.  This crate keeps a per-thread registry of
//! such values: each pinned value is linked to the front of a strictly
//! nested (LIFO) chain for exactly the span of its owning frame, and the
//! collector visits every live pinned value, newest first, through the
//! registry's traversal entry point.
//!
//! The crate has three layers:
//! - [`untraced`]: conversions that move a value out of the traced object
//!   graph so it can be held in a pinned cell;
//! - [`registry`]: the chain of pinned cells and its lifecycle
//!   (initialization and traversal), with the laws the chain obeys;
//! - [`pin`]: the one-shot, frame-scoped handle through which callers
//!   create a pinned cell and read the pinned value.

pub mod pin;
pub mod registry;
pub mod untraced;
