//! Remaps CapsLock to a momentary Control modifier and, while a Control
//! modifier is logically active, the letters H/J/K/L to the arrow keys.
//!
//! The decision core lives here: given a raw key transition and the live
//! physical Control key states, it decides whether the original event is
//! suppressed and which synthetic events are injected in its place. The
//! platform hook that feeds it raw transitions and the injector that
//! submits the synthetic events are kept outside the library.

pub mod keys;
pub mod state_machine;
pub mod trace;
