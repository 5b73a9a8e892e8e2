use vstd::prelude::*;
use crate::error::Error;
use crate::poll::Poll;
use crate::poll_opt::PollOpt;
use crate::ready::Ready;
use crate::token::Token;

verus! {

/// What a resource implements so that a poll instance can watch it.
///
/// An implementation is expected to bind the resource's `SelectorId` to the
/// poll instance before it registers the resource with the platform.
///
/// Each operation comes with a predicate over the resource before the call,
/// the arguments, the resource after the call and the answer. An
/// implementation states in it what its operation does; one that states
/// nothing keeps the default, which admits every outcome. The poll
/// instance's own operations hand the statement on to their callers.
pub trait Evented {
    /// What `register` may make of the resource and answer.
    open spec fn register_ensures(
        &self,
        poll: &Poll,
        token: Token,
        interest: Ready,
        opts: PollOpt,
        after: &Self,
        outcome: Result<(), Error>,
    ) -> bool {
        true
    }

    /// What `reregister` may make of the resource and answer.
    open spec fn reregister_ensures(
        &self,
        poll: &Poll,
        token: Token,
        interest: Ready,
        opts: PollOpt,
        after: &Self,
        outcome: Result<(), Error>,
    ) -> bool {
        true
    }

    /// What `deregister` may make of the resource and answer.
    open spec fn deregister_ensures(&self, poll: &Poll, after: &Self, outcome: Result<(), Error>) -> bool {
        true
    }

    /// Starts watching the resource for `interest` on behalf of `poll`.
    fn register(&mut self, poll: &Poll, token: Token, interest: Ready, opts: PollOpt) -> (outcome: Result<(), Error>)
        ensures
            old(self).register_ensures(poll, token, interest, opts, final(self), outcome),
    ;

    /// Replaces the token, interest and options of a registration.
    fn reregister(&mut self, poll: &Poll, token: Token, interest: Ready, opts: PollOpt) -> (outcome: Result<(), Error>)
        ensures
            old(self).reregister_ensures(poll, token, interest, opts, final(self), outcome),
    ;

    /// Stops watching the resource.
    fn deregister(&mut self, poll: &Poll) -> (outcome: Result<(), Error>)
        ensures
            old(self).deregister_ensures(poll, final(self), outcome),
    ;
}

} // verus!
