use vstd::prelude::*;
use crate::ready::Ready;
use crate::token::Token;

verus! {

/// One readiness notification: what a resource became ready for, and the
/// token under which it was registered.
#[derive(Clone, Copy, Debug, PartialEq, Eq, Structural)]
pub struct Event {
    pub readiness: Ready,
    pub token: Token,
}

/// The buffer that a wait fills. The caller makes it once and hands it to
/// one wait after another; what it holds is what the latest wait reported.
#[derive(Debug)]
pub struct Events {
    inner: Vec<Event>,
}

impl View for Events {
    type V = Seq<Event>;

    /// The notifications of the latest wait, in the order in which the
    /// selector reported them.
    closed spec fn view(&self) -> Seq<Event> {
        self.inner@
    }
}

impl Events {
    /// A buffer that holds no notification.
    pub fn new() -> (events: Events)
        ensures
            events@ == Seq::<Event>::empty(),
    {
        Events { inner: Vec::new() }
    }

    /// How many notifications the buffer holds.
    pub fn len(&self) -> (len: usize)
        ensures
            len == self@.len(),
    {
        self.inner.len()
    }

    /// Whether the buffer holds no notification.
    pub fn is_empty(&self) -> (empty: bool)
        ensures
            empty == (self@.len() == 0),
    {
        self.inner.len() == 0
    }

    /// The notification at `index`, if the buffer holds that many.
    pub fn get(&self, index: usize) -> (event: Option<Event>)
        ensures
            event == if index < self@.len() {
                Some(self@[index as int])
            } else {
                None
            },
    {
        if index < self.inner.len() {
            Some(self.inner[index])
        } else {
            None
        }
    }

    /// Puts `batch` in the place of whatever the buffer held.
    pub(crate) fn replace(&mut self, batch: Vec<Event>)
        ensures
            final(self)@ == batch@,
    {
        self.inner = batch;
    }

    /// Drops whatever the buffer held.
    pub(crate) fn clear(&mut self)
        ensures
            final(self)@ == Seq::<Event>::empty(),
    {
        self.inner.clear();
    }
}

} // verus!
