use vstd::prelude::*;
use crate::error::Error;
use crate::event::{Event, Events};
use crate::evented::Evented;
use crate::poll_opt::PollOpt;
use crate::ready::{Readiness, Ready};
use crate::selector::SelectorHandle;
use crate::token::Token;

verus! {

/// One poll instance: the owner of one platform selector.
///
/// A `Poll` holds nothing that changes after it was made. It can be shared
/// between threads and called from several of them at once.
pub struct Poll {
    selector: SelectorHandle,
}

/// Whether `interest` may be registered: it has to name readable or
/// writable, whatever else it names.
pub open spec fn interest_is_valid(interest: Ready) -> bool {
    interest@.contains(Readiness::Readable) || interest@.contains(Readiness::Writable)
}

impl Poll {
    /// The selector that this instance owns.
    pub closed spec fn selector(&self) -> SelectorHandle {
        self.selector
    }

    /// The number that tells this instance apart from every other live one.
    pub open spec fn spec_id(&self) -> usize {
        self.selector().id
    }

    /// Takes charge of the selector that the platform created, or reports
    /// that the platform could not create one.
    pub fn new(created: Result<SelectorHandle, i32>) -> (made: Result<Poll, Error>)
        ensures
            match created {
                Ok(handle) => made is Ok && made->Ok_0.selector() == handle,
                Err(code) => made == Err::<Poll, Error>(Error::SelectorCreation(code)),
            },
    {
        is_send::<Poll>();
        is_sync::<Poll>();
        match created {
            Ok(selector) => Ok(Poll { selector }),
            Err(code) => Err(Error::SelectorCreation(code)),
        }
    }

    /// Takes in what one wait on the selector came back with: on success
    /// the notifications, which replace whatever `events` held, and on
    /// failure the platform's error code, which is handed on and leaves
    /// `events` empty. The count returned is the number of notifications
    /// that `events` holds afterwards.
    pub fn wait(&self, events: &mut Events, outcome: Result<Vec<Event>, i32>) -> (count: Result<usize, Error>)
        ensures
            match outcome {
                Ok(batch) => count == Ok::<usize, Error>(batch@.len() as usize) && final(events)@
                    == batch@,
                Err(code) => count == Err::<usize, Error>(Error::Delegate(code)) && final(events)@
                    == Seq::<Event>::empty(),
            },
            count is Ok ==> count->Ok_0 == final(events)@.len(),
    {
        match outcome {
            Ok(batch) => {
                events.replace(batch);
                Ok(events.len())
            },
            Err(code) => {
                events.clear();
                Err(Error::Delegate(code))
            },
        }
    }

    /// Asks `handle` to register itself with this instance, after checking
    /// the interest. With an interest that names neither readable nor
    /// writable the resource is not asked and stays as it was.
    pub fn register<E: Evented>(
        &self,
        handle: &mut E,
        token: Token,
        interest: Ready,
        opts: PollOpt,
    ) -> (outcome: Result<(), Error>)
        ensures
            !interest_is_valid(interest) ==> outcome == Err::<(), Error>(Error::InvalidInterest)
                && *final(handle) == *old(handle),
            interest_is_valid(interest) ==> old(handle).register_ensures(
                self,
                token,
                interest,
                opts,
                final(handle),
                outcome,
            ),
    {
        match validate_args(token, interest) {
            Ok(()) => handle.register(self, token, interest, opts),
            Err(refusal) => Err(refusal),
        }
    }

    /// Asks `handle` to replace its registration with this instance, after
    /// checking the interest. With an interest that names neither readable
    /// nor writable the resource is not asked and stays as it was.
    pub fn reregister<E: Evented>(
        &self,
        handle: &mut E,
        token: Token,
        interest: Ready,
        opts: PollOpt,
    ) -> (outcome: Result<(), Error>)
        ensures
            !interest_is_valid(interest) ==> outcome == Err::<(), Error>(Error::InvalidInterest)
                && *final(handle) == *old(handle),
            interest_is_valid(interest) ==> old(handle).reregister_ensures(
                self,
                token,
                interest,
                opts,
                final(handle),
                outcome,
            ),
    {
        match validate_args(token, interest) {
            Ok(()) => handle.reregister(self, token, interest, opts),
            Err(refusal) => Err(refusal),
        }
    }

    /// Asks `handle` to withdraw its registration with this instance.
    /// Nothing is checked first.
    pub fn deregister<E: Evented>(&self, handle: &mut E) -> (outcome: Result<(), Error>)
        ensures
            old(handle).deregister_ensures(self, final(handle), outcome),
    {
        handle.deregister(self)
    }

    /// The number that tells this instance apart from every other live one.
    /// It is compared for equality and for nothing else.
    #[verifier::when_used_as_spec(spec_id)]
    pub fn id(&self) -> (id: usize)
        ensures
            id == self.spec_id(),
    {
        self.selector.id
    }

    /// The descriptor of the selector, for callers that hand it to another
    /// event loop.
    pub fn as_raw_fd(&self) -> (fd: i32)
        ensures
            fd == self.selector().fd,
    {
        self.selector.fd
    }
}

/// Accepts an interest that names readable or writable and refuses every
/// other. The token is not looked at: any value is accepted.
pub fn validate_args(token: Token, interest: Ready) -> (verdict: Result<(), Error>)
    ensures
        interest_is_valid(interest) ==> verdict == Ok::<(), Error>(()),
        !interest_is_valid(interest) ==> verdict == Err::<(), Error>(Error::InvalidInterest),
{
    if !interest.is_readable() && !interest.is_writable() {
        return Err(Error::InvalidInterest);
    }
    Ok(())
}

/// Accepted for exactly the types that may be moved to another thread.
pub fn is_send<T: Send>() {
}

/// Accepted for exactly the types that may be shared between threads.
pub fn is_sync<T: Sync>() {
}

} // verus!
