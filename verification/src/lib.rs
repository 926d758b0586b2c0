//! Lazy, exactly-once-initialized singleton access to service actors.
//!
//! A service is an actor type that has at most one live instance per
//! registry scope. Two independent stores provide that guarantee: a
//! [`shared::SharedRegistry`], of which a process holds one behind a lock,
//! and a [`confined::ConfinedRegistry`], of which each execution context
//! holds its own. Both perform type-keyed lookup-or-create and hand every
//! caller a clone of the one handle registered for the requested type. The
//! shared store registers a new entry before the instance starts, under its
//! lock; the confined store mints the handle first and registers it only
//! once the instance has started, so a failed start caches nothing.

pub mod confined;
pub mod counter;
pub mod entry_map;
pub mod handle;
pub mod laws;
pub mod registry;
pub mod service;
pub mod shared;
