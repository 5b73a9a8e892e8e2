use poller::poll::{is_send, is_sync, validate_args};
use poller::{
    Error, Event, Evented, Events, Poll, PollOpt, Ready, SelectorHandle, SelectorId, Token,
};

/// A resource that records every request it receives.
struct Spy {
    guard: SelectorId,
    registers: Vec<(usize, Token, Ready, PollOpt)>,
    reregisters: Vec<(usize, Token, Ready, PollOpt)>,
    deregisters: Vec<usize>,
    fail_with: Option<Error>,
}

impl Spy {
    fn new() -> Spy {
        Spy {
            guard: SelectorId::new(),
            registers: Vec::new(),
            reregisters: Vec::new(),
            deregisters: Vec::new(),
            fail_with: None,
        }
    }

    fn attempts(&self) -> usize {
        self.registers.len() + self.reregisters.len() + self.deregisters.len()
    }
}

impl Evented for Spy {
    fn register(&mut self, poll: &Poll, token: Token, interest: Ready, opts: PollOpt) -> Result<(), Error> {
        self.registers.push((poll.id(), token, interest, opts));
        self.guard.associate_selector(poll)?;
        match self.fail_with {
            Some(error) => Err(error),
            None => Ok(()),
        }
    }

    fn reregister(&mut self, poll: &Poll, token: Token, interest: Ready, opts: PollOpt) -> Result<(), Error> {
        self.reregisters.push((poll.id(), token, interest, opts));
        self.guard.associate_selector(poll)?;
        match self.fail_with {
            Some(error) => Err(error),
            None => Ok(()),
        }
    }

    fn deregister(&mut self, poll: &Poll) -> Result<(), Error> {
        self.deregisters.push(poll.id());
        match self.fail_with {
            Some(error) => Err(error),
            None => Ok(()),
        }
    }
}

fn poll_with_id(id: usize) -> Poll {
    Poll::new(Ok(SelectorHandle { id, fd: 3 })).unwrap()
}

#[test]
fn poll_is_send_and_sync() {
    is_send::<Poll>();
    is_sync::<Poll>();
}

#[test]
fn new_takes_over_the_selector() {
    let poll = Poll::new(Ok(SelectorHandle { id: 42, fd: 17 })).unwrap();
    assert_eq!(poll.id(), 42);
    assert_eq!(poll.as_raw_fd(), 17);
}

#[test]
fn new_reports_creation_failure() {
    assert_eq!(Poll::new(Err(24)).err(), Some(Error::SelectorCreation(24)));
    assert_eq!(Poll::new(Err(-1)).err(), Some(Error::SelectorCreation(-1)));
}

#[test]
fn validation_accepts_readable_or_writable() {
    assert_eq!(validate_args(Token(0), Ready::readable()), Ok(()));
    assert_eq!(validate_args(Token(0), Ready::writable()), Ok(()));
    assert_eq!(validate_args(Token(0), Ready::readable().union(Ready::writable())), Ok(()));
    assert_eq!(validate_args(Token(0), Ready::readable().union(Ready::error())), Ok(()));
    assert_eq!(validate_args(Token(0), Ready::writable().union(Ready::hup())), Ok(()));
    let all = Ready::readable().union(Ready::writable()).union(Ready::error()).union(Ready::hup());
    assert_eq!(validate_args(Token(0), all), Ok(()));
}

#[test]
fn validation_refuses_sets_without_readable_and_writable() {
    assert_eq!(validate_args(Token(0), Ready::empty()), Err(Error::InvalidInterest));
    assert_eq!(validate_args(Token(0), Ready::error()), Err(Error::InvalidInterest));
    assert_eq!(validate_args(Token(0), Ready::hup()), Err(Error::InvalidInterest));
    assert_eq!(validate_args(Token(0), Ready::error().union(Ready::hup())), Err(Error::InvalidInterest));
}

#[test]
fn validation_ignores_the_token() {
    for token in [0usize, 1, 77, usize::MAX] {
        assert_eq!(validate_args(Token(token), Ready::readable()), Ok(()));
        assert_eq!(validate_args(Token(token), Ready::error()), Err(Error::InvalidInterest));
    }
}

#[test]
fn register_then_wait_without_activity() {
    let poll = Poll::new(Ok(SelectorHandle { id: 1, fd: 3 })).unwrap();
    let mut resource = Spy::new();
    assert_eq!(poll.register(&mut resource, Token(0), Ready::readable(), PollOpt::level()), Ok(()));
    let mut events = Events::new();
    assert_eq!(poll.wait(&mut events, Ok(Vec::new())), Ok(0));
    assert_eq!(events.len(), 0);
    assert!(events.is_empty());
}

#[test]
fn register_twice_with_the_same_poll() {
    let poll = poll_with_id(3);
    let mut resource = Spy::new();
    assert_eq!(poll.register(&mut resource, Token(1), Ready::readable(), PollOpt::edge()), Ok(()));
    assert_eq!(poll.register(&mut resource, Token(1), Ready::readable(), PollOpt::edge()), Ok(()));
    assert_eq!(resource.registers.len(), 2);
    assert_eq!(resource.guard.id(), 3);
}

#[test]
fn register_with_a_second_poll_is_refused_by_the_guard() {
    let first = poll_with_id(5);
    let second = poll_with_id(7);
    let mut resource = Spy::new();
    assert_eq!(first.register(&mut resource, Token(1), Ready::writable(), PollOpt::level()), Ok(()));
    assert_eq!(
        second.register(&mut resource, Token(1), Ready::writable(), PollOpt::level()),
        Err(Error::AlreadyRegistered)
    );
    assert_eq!(resource.guard.id(), 5);
    assert_eq!(
        second.reregister(&mut resource, Token(1), Ready::writable(), PollOpt::level()),
        Err(Error::AlreadyRegistered)
    );
    assert_eq!(resource.guard.id(), 5);
}

#[test]
fn register_with_error_only_does_not_reach_the_resource() {
    let poll = poll_with_id(3);
    let mut resource = Spy::new();
    assert_eq!(
        poll.register(&mut resource, Token(0), Ready::error(), PollOpt::level()),
        Err(Error::InvalidInterest)
    );
    assert_eq!(resource.attempts(), 0);
    assert_eq!(resource.guard.id(), 0);
}

#[test]
fn reregister_with_invalid_interest_does_not_reach_the_resource() {
    let poll = poll_with_id(3);
    let mut resource = Spy::new();
    assert_eq!(
        poll.reregister(&mut resource, Token(0), Ready::empty(), PollOpt::edge()),
        Err(Error::InvalidInterest)
    );
    assert_eq!(
        poll.reregister(&mut resource, Token(0), Ready::hup().union(Ready::error()), PollOpt::edge()),
        Err(Error::InvalidInterest)
    );
    assert_eq!(resource.attempts(), 0);
    assert_eq!(resource.guard.id(), 0);
}

#[test]
fn register_hands_its_arguments_to_the_resource() {
    let poll = poll_with_id(9);
    let mut resource = Spy::new();
    let interest = Ready::readable().union(Ready::hup());
    let opts = PollOpt::edge().union(PollOpt::oneshot());
    assert_eq!(poll.register(&mut resource, Token(usize::MAX), interest, opts), Ok(()));
    assert_eq!(resource.registers, vec![(9, Token(usize::MAX), interest, opts)]);
    assert!(resource.reregisters.is_empty());
    assert!(resource.deregisters.is_empty());
}

#[test]
fn reregister_hands_its_arguments_to_the_resource() {
    let poll = poll_with_id(9);
    let mut resource = Spy::new();
    assert_eq!(poll.reregister(&mut resource, Token(6), Ready::writable(), PollOpt::level()), Ok(()));
    assert_eq!(resource.reregisters, vec![(9, Token(6), Ready::writable(), PollOpt::level())]);
    assert!(resource.registers.is_empty());
    assert!(resource.deregisters.is_empty());
}

#[test]
fn deregister_reaches_the_resource_unconditionally() {
    let poll = poll_with_id(9);
    let mut resource = Spy::new();
    assert_eq!(poll.deregister(&mut resource), Ok(()));
    assert_eq!(resource.deregisters, vec![9]);
    assert_eq!(resource.attempts(), 1);
}

#[test]
fn failures_of_the_resource_come_back_unchanged() {
    let poll = poll_with_id(9);
    let mut resource = Spy::new();
    resource.fail_with = Some(Error::Delegate(13));
    assert_eq!(
        poll.register(&mut resource, Token(0), Ready::readable(), PollOpt::level()),
        Err(Error::Delegate(13))
    );
    assert_eq!(
        poll.reregister(&mut resource, Token(0), Ready::readable(), PollOpt::level()),
        Err(Error::Delegate(13))
    );
    assert_eq!(poll.deregister(&mut resource), Err(Error::Delegate(13)));
    assert_eq!(resource.attempts(), 3);
}

#[test]
fn wait_reports_as_many_as_the_buffer_holds() {
    let poll = poll_with_id(1);
    let mut events = Events::new();
    let batch = vec![
        Event { readiness: Ready::readable(), token: Token(4) },
        Event { readiness: Ready::writable().union(Ready::hup()), token: Token(2) },
        Event { readiness: Ready::error(), token: Token(4) },
    ];
    assert_eq!(poll.wait(&mut events, Ok(batch.clone())), Ok(3));
    assert_eq!(events.len(), 3);
    assert!(!events.is_empty());
    assert_eq!(events.get(0), Some(batch[0]));
    assert_eq!(events.get(1), Some(batch[1]));
    assert_eq!(events.get(2), Some(batch[2]));
    assert_eq!(events.get(3), None);
}

#[test]
fn wait_drops_what_the_previous_wait_reported() {
    let poll = poll_with_id(1);
    let mut events = Events::new();
    let first = vec![
        Event { readiness: Ready::readable(), token: Token(1) },
        Event { readiness: Ready::readable(), token: Token(2) },
    ];
    let second = vec![Event { readiness: Ready::writable(), token: Token(3) }];
    assert_eq!(poll.wait(&mut events, Ok(first)), Ok(2));
    assert_eq!(poll.wait(&mut events, Ok(second.clone())), Ok(1));
    assert_eq!(events.len(), 1);
    assert_eq!(events.get(0), Some(second[0]));
    assert_eq!(events.get(1), None);
    assert_eq!(poll.wait(&mut events, Ok(Vec::new())), Ok(0));
    assert_eq!(events.len(), 0);
}

#[test]
fn wait_hands_on_the_selector_failure() {
    let poll = poll_with_id(1);
    let mut events = Events::new();
    let stale = vec![Event { readiness: Ready::readable(), token: Token(1) }];
    assert_eq!(poll.wait(&mut events, Ok(stale)), Ok(1));
    assert_eq!(poll.wait(&mut events, Err(4)), Err(Error::Delegate(4)));
    assert_eq!(events.len(), 0);
    assert_eq!(events.get(0), None);
}
