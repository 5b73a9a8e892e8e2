use vstd::prelude::*;

verus! {

/// A caller-chosen key attached to a registration. The poller never reads
/// or checks it; it comes back unchanged with each readiness event of that
/// registration.
#[derive(Clone, Copy, Debug, PartialEq, Eq, Hash, Structural)]
pub struct Token(pub usize);

} // verus!
