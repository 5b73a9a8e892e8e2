use vstd::prelude::*;
use crate::bits::{lemma_or_bit, lemma_single_bits};

verus! {

/// One way in which readiness is delivered.
#[derive(Clone, Copy, Debug, PartialEq, Eq, Structural)]
pub enum Trigger {
    /// Reported once, when the resource becomes ready.
    Edge,
    /// Reported by every wait for as long as the resource stays ready.
    Level,
    /// Reported once, after which the registration is disarmed.
    OneShot,
}

/// The delivery options asked for with a registration, kept as one bit
/// each. The poller carries them to the resource and does not read them.
#[derive(Clone, Copy, Debug, PartialEq, Eq, Structural)]
pub struct PollOpt {
    bits: usize,
}

const EDGE: usize = 1;

const LEVEL: usize = 2;

const ONESHOT: usize = 4;

/// The bit that stands for `trigger`.
spec fn bit_of(trigger: Trigger) -> usize {
    match trigger {
        Trigger::Edge => EDGE,
        Trigger::Level => LEVEL,
        Trigger::OneShot => ONESHOT,
    }
}

impl View for PollOpt {
    type V = Set<Trigger>;

    /// The options that are switched on.
    closed spec fn view(&self) -> Set<Trigger> {
        Set::new(|trigger: Trigger| self.bits & bit_of(trigger) != 0)
    }
}

impl PollOpt {
    /// No option.
    pub fn empty() -> (opts: PollOpt)
        ensures
            opts@ == Set::<Trigger>::empty(),
    {
        proof {
            lemma_single_bits();
        }
        PollOpt { bits: 0 }
    }

    /// Edge-triggered delivery alone.
    pub fn edge() -> (opts: PollOpt)
        ensures
            opts@ == set![Trigger::Edge],
    {
        proof {
            lemma_single_bits();
        }
        PollOpt { bits: EDGE }
    }

    /// Level-triggered delivery alone.
    pub fn level() -> (opts: PollOpt)
        ensures
            opts@ == set![Trigger::Level],
    {
        proof {
            lemma_single_bits();
        }
        PollOpt { bits: LEVEL }
    }

    /// One-shot delivery alone.
    pub fn oneshot() -> (opts: PollOpt)
        ensures
            opts@ == set![Trigger::OneShot],
    {
        proof {
            lemma_single_bits();
        }
        PollOpt { bits: ONESHOT }
    }

    /// The options that are switched on in this value or in `other`.
    pub fn union(self, other: PollOpt) -> (opts: PollOpt)
        ensures
            opts@ == self@.union(other@),
    {
        proof {
            lemma_or_bit(self.bits, other.bits, EDGE);
            lemma_or_bit(self.bits, other.bits, LEVEL);
            lemma_or_bit(self.bits, other.bits, ONESHOT);
        }
        PollOpt { bits: self.bits | other.bits }
    }

    /// Whether edge-triggered delivery is switched on.
    pub fn is_edge(&self) -> (on: bool)
        ensures
            on == self@.contains(Trigger::Edge),
    {
        self.bits & EDGE != 0
    }

    /// Whether level-triggered delivery is switched on.
    pub fn is_level(&self) -> (on: bool)
        ensures
            on == self@.contains(Trigger::Level),
    {
        self.bits & LEVEL != 0
    }

    /// Whether one-shot delivery is switched on.
    pub fn is_oneshot(&self) -> (on: bool)
        ensures
            on == self@.contains(Trigger::OneShot),
    {
        self.bits & ONESHOT != 0
    }
}

} // verus!
