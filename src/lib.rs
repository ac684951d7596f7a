//! Instrumentation for bounded symbolic verification of small code
//! fragments: symbolic values drawn from an injected backend, path
//! constraints and assertions, a borrow-counter automaton with deliberate
//! rollover, and linked lists whose last link may be a symbolic address.

pub mod borrow;
pub mod list;
pub mod partial;
pub mod path;
pub mod scenarios;
