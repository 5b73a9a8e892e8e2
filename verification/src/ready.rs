use vstd::prelude::*;
use crate::bits::{lemma_or_bit, lemma_single_bits};

verus! {

/// One thing that a resource can be ready for.
#[derive(Clone, Copy, Debug, PartialEq, Eq, Structural)]
pub enum Readiness {
    Readable,
    Writable,
    Error,
    Hup,
}

/// A set of readiness kinds, kept as one bit each. It serves both as the
/// interest that a registration asks for and as what an event reports.
#[derive(Clone, Copy, Debug, PartialEq, Eq, Structural)]
pub struct Ready {
    bits: usize,
}

const READABLE: usize = 1;

const WRITABLE: usize = 2;

const ERROR: usize = 4;

const HUP: usize = 8;

/// The bit that stands for `kind`.
spec fn bit_of(kind: Readiness) -> usize {
    match kind {
        Readiness::Readable => READABLE,
        Readiness::Writable => WRITABLE,
        Readiness::Error => ERROR,
        Readiness::Hup => HUP,
    }
}

impl View for Ready {
    type V = Set<Readiness>;

    /// The kinds that the set holds.
    closed spec fn view(&self) -> Set<Readiness> {
        Set::new(|kind: Readiness| self.bits & bit_of(kind) != 0)
    }
}

impl Ready {
    /// The set that holds nothing.
    pub fn empty() -> (ready: Ready)
        ensures
            ready@ == Set::<Readiness>::empty(),
    {
        proof {
            lemma_single_bits();
        }
        Ready { bits: 0 }
    }

    /// The set that holds `Readable` alone.
    pub fn readable() -> (ready: Ready)
        ensures
            ready@ == set![Readiness::Readable],
    {
        proof {
            lemma_single_bits();
        }
        Ready { bits: READABLE }
    }

    /// The set that holds `Writable` alone.
    pub fn writable() -> (ready: Ready)
        ensures
            ready@ == set![Readiness::Writable],
    {
        proof {
            lemma_single_bits();
        }
        Ready { bits: WRITABLE }
    }

    /// The set that holds `Error` alone.
    pub fn error() -> (ready: Ready)
        ensures
            ready@ == set![Readiness::Error],
    {
        proof {
            lemma_single_bits();
        }
        Ready { bits: ERROR }
    }

    /// The set that holds `Hup` alone.
    pub fn hup() -> (ready: Ready)
        ensures
            ready@ == set![Readiness::Hup],
    {
        proof {
            lemma_single_bits();
        }
        Ready { bits: HUP }
    }

    /// The kinds that are in this set or in `other`.
    pub fn union(self, other: Ready) -> (ready: Ready)
        ensures
            ready@ == self@.union(other@),
    {
        proof {
            lemma_or_bit(self.bits, other.bits, READABLE);
            lemma_or_bit(self.bits, other.bits, WRITABLE);
            lemma_or_bit(self.bits, other.bits, ERROR);
            lemma_or_bit(self.bits, other.bits, HUP);
        }
        Ready { bits: self.bits | other.bits }
    }

    /// Whether the set holds `Readable`.
    pub fn is_readable(&self) -> (held: bool)
        ensures
            held == self@.contains(Readiness::Readable),
    {
        self.bits & READABLE != 0
    }

    /// Whether the set holds `Writable`.
    pub fn is_writable(&self) -> (held: bool)
        ensures
            held == self@.contains(Readiness::Writable),
    {
        self.bits & WRITABLE != 0
    }

    /// Whether the set holds `Error`.
    pub fn is_error(&self) -> (held: bool)
        ensures
            held == self@.contains(Readiness::Error),
    {
        self.bits & ERROR != 0
    }

    /// Whether the set holds `Hup`.
    pub fn is_hup(&self) -> (held: bool)
        ensures
            held == self@.contains(Readiness::Hup),
    {
        self.bits & HUP != 0
    }
}

} // verus!
