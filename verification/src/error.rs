use vstd::prelude::*;

verus! {

/// Why an operation of the poller failed. Every failure is handed to the
/// caller; none is retried or swallowed.
#[derive(Clone, Copy, Debug, PartialEq, Eq, Structural)]
pub enum Error {
    /// The platform could not create a selector. Carries the platform's
    /// error code as it was reported.
    SelectorCreation(i32),
    /// The interest set names neither readable nor writable.
    InvalidInterest,
    /// The resource is bound to another poll instance.
    AlreadyRegistered,
    /// A failure reported by the platform selector or by a resource while it
    /// carried out a request. Carries the error code as it was reported.
    Delegate(i32),
}

} // verus!
