use vstd::prelude::*;

verus! {

/// What the platform hands out for a selector it has created: the number by
/// which the selector is told apart from the others that are alive, and the
/// descriptor under which the operating system knows it.
///
/// The poller only carries these two values. Creating the selector, waiting
/// on it and releasing it are the platform's work.
#[derive(Clone, Copy, Debug, PartialEq, Eq, Structural)]
pub struct SelectorHandle {
    pub id: usize,
    pub fd: i32,
}

} // verus!
