//! The facade of a readiness-based poller: one poll instance per platform
//! selector, with which resources register under a token and an interest,
//! and on which a caller waits for them to become ready.
//!
//! The crate holds what can be decided without the operating system: which
//! interests may be registered, which poll instance a resource belongs to,
//! and what a wait leaves in the caller's buffer. The selector itself stays
//! outside. Whoever drives it hands its answers in as plain values: the
//! handle of a selector that was created, and the notifications or the
//! error code that a wait came back with.

mod bits;
pub mod error;
pub mod event;
pub mod evented;
pub mod poll;
pub mod poll_opt;
pub mod ready;
pub mod selector;
pub mod selector_id;
pub mod token;

pub use error::Error;
pub use event::{Event, Events};
pub use evented::Evented;
pub use poll::Poll;
pub use poll_opt::{PollOpt, Trigger};
pub use ready::{Readiness, Ready};
pub use selector::SelectorHandle;
pub use selector_id::SelectorId;
pub use token::Token;
