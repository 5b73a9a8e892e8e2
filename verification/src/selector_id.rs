use vstd::prelude::*;
use crate::error::Error;
use crate::poll::Poll;

verus! {

/// The guard that each pollable resource carries: it records which poll
/// instance the resource is bound to, so that the resource is never
/// registered with two instances at once.
///
/// The guard holds 0 while the resource is bound to no instance, and the
/// instance's id otherwise. Changing the guard takes exclusive access to it,
/// so the check and the update of one attempt cannot interleave with those
/// of another.
#[derive(Debug)]
pub struct SelectorId {
    id: usize,
}

/// Whether a guard that holds `current` lets the poll instance `poll_id`
/// take the resource: it does while it is bound to none, or to that very
/// instance.
pub open spec fn may_associate(current: usize, poll_id: usize) -> bool {
    current == 0 || current == poll_id
}

/// What a guard that held `current` holds after the poll instance `poll_id`
/// has tried to take the resource.
pub open spec fn associated(current: usize, poll_id: usize) -> usize {
    if may_associate(current, poll_id) {
        poll_id
    } else {
        current
    }
}

impl View for SelectorId {
    type V = usize;

    /// The id of the poll instance that the resource is bound to, or 0.
    closed spec fn view(&self) -> usize {
        self.id
    }
}

impl SelectorId {
    /// A guard for a resource that is bound to no poll instance.
    pub fn new() -> (guard: SelectorId)
        ensures
            guard@ == 0,
    {
        SelectorId { id: 0 }
    }

    /// Binds the resource to `poll`, or confirms that it is bound to it.
    /// Fails, and leaves the guard as it was, when the resource is bound to
    /// another instance.
    pub fn associate_selector(&mut self, poll: &Poll) -> (outcome: Result<(), Error>)
        ensures
            may_associate(old(self)@, poll.id()) ==> outcome == Ok::<(), Error>(()),
            !may_associate(old(self)@, poll.id()) ==> outcome == Err::<(), Error>(
                Error::AlreadyRegistered,
            ),
            final(self)@ == associated(old(self)@, poll.id()),
    {
        let selector_id: usize = self.id;
        let poll_id: usize = poll.id();
        if selector_id != 0 && selector_id != poll_id {
            Err(Error::AlreadyRegistered)
        } else {
            self.id = poll_id;
            Ok(())
        }
    }

    /// The id of the poll instance that the resource is bound to, or 0 when
    /// it is bound to none.
    pub fn id(&self) -> (id: usize)
        ensures
            id == self@,
    {
        self.id
    }
}

impl Clone for SelectorId {
    /// A guard of its own for a copy of the resource. It starts from what
    /// this guard holds now and shares nothing with it afterwards.
    fn clone(&self) -> (copy: SelectorId)
        ensures
            copy@ == self@,
    {
        SelectorId { id: self.id }
    }
}

/// What a guard that held `current` holds after the poll instances
/// `poll_ids` have tried, one after the other, to take the resource.
pub open spec fn associated_in_turn(current: usize, poll_ids: Seq<usize>) -> usize
    decreases poll_ids.len(),
{
    if poll_ids.len() == 0 {
        current
    } else {
        associated_in_turn(associated(current, poll_ids[0]), poll_ids.drop_first())
    }
}

/// A guard that is bound to no instance lets any instance take the
/// resource, and is bound to that instance afterwards.
pub proof fn lemma_fresh_guard_accepts(fresh: SelectorId, poll_id: usize)
    requires
        fresh@ == 0,
    ensures
        may_associate(fresh@, poll_id),
        associated(fresh@, poll_id) == poll_id,
{
}

/// Once an instance has taken the resource, it may take it again as often
/// as it likes: after any number of further attempts of the same instance
/// the guard still holds what the first attempt left, and one more attempt
/// succeeds.
pub proof fn lemma_same_poll_again(guard: SelectorId, poll_id: usize, times: nat)
    requires
        may_associate(guard@, poll_id),
    ensures
        associated(guard@, poll_id) == poll_id,
        associated_in_turn(poll_id, Seq::new(times, |i: int| poll_id)) == poll_id,
        may_associate(associated_in_turn(poll_id, Seq::new(times, |i: int| poll_id)), poll_id),
    decreases times,
{
    if times > 0 {
        let attempts = Seq::new(times, |i: int| poll_id);
        let rest = Seq::new((times - 1) as nat, |i: int| poll_id);
        assert(attempts.drop_first() =~= rest);
        lemma_same_poll_again(guard, poll_id, (times - 1) as nat);
    }
}

/// A guard that is bound to one instance refuses every other and stays
/// bound to the one it had.
pub proof fn lemma_other_poll_refused(guard: SelectorId, poll_id: usize)
    requires
        guard@ != 0,
        guard@ != poll_id,
    ensures
        !may_associate(guard@, poll_id),
        associated(guard@, poll_id) == guard@,
{
}

/// A guard that is bound to an instance stays bound to it, whichever
/// instances try to take the resource and however many: no attempt moves
/// the resource from one instance to another.
pub proof fn lemma_binding_is_kept(guard: SelectorId, poll_ids: Seq<usize>)
    requires
        guard@ != 0,
    ensures
        associated_in_turn(guard@, poll_ids) == guard@,
    decreases poll_ids.len(),
{
    if poll_ids.len() > 0 {
        let next = SelectorId { id: associated(guard@, poll_ids[0]) };
        lemma_binding_is_kept(next, poll_ids.drop_first());
    }
}

/// A copy of a guard starts from what the guard held when the copy was
/// made, so it answers an attempt as the guard would have answered it then.
/// What the attempt leaves behind is fixed by what the copy held and by the
/// instance that tried, and by nothing that has happened to the guard
/// since; the same holds with the two exchanged.
pub proof fn lemma_clone_is_independent(guard: SelectorId, copy: SelectorId, poll_id: usize)
    requires
        copy@ == guard@,
    ensures
        may_associate(copy@, poll_id) == may_associate(guard@, poll_id),
        associated(copy@, poll_id) == associated(guard@, poll_id),
{
}

} // verus!
