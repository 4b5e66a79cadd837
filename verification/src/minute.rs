use vstd::prelude::*;
use std::cmp::Ordering;
use vstd::std_specs::cmp::PartialOrdSpec;

verus! {

/// Minutes in a day.
pub const MINUTES_PER_DAY: u16 = 1440;

/// A minute of the day, `0..1440` (00:00 to 23:59).
#[derive(Clone, Copy, Debug, PartialEq, Eq, Ord, Hash)]
pub struct Minute(u16);

impl View for Minute {
    type V = nat;

    closed spec fn view(&self) -> nat {
        self.0 as nat
    }
}

impl Minute {
    #[verifier::type_invariant]
    spec fn inv(self) -> bool {
        self.0 < 1440
    }

    /// Midnight, 00:00.
    pub fn zero() -> (m: Minute)
        ensures
            m@ == 0,
    {
        Minute(0)
    }

    /// The last minute of the day, 23:59.
    pub fn last() -> (m: Minute)
        ensures
            m@ == 1439,
    {
        Minute(1439)
    }

    /// The minute `value` minutes after midnight, or `None` past 23:59.
    pub fn new(value: u16) -> (m: Option<Minute>)
        ensures
            m is Some <==> value < 1440,
            m matches Some(x) ==> x@ == value,
    {
        if value < MINUTES_PER_DAY {
            Some(Minute(value))
        } else {
            None
        }
    }

    /// Minutes since midnight.
    pub fn get(self) -> (v: u16)
        ensures
            v == self@,
            v < 1440,
    {
        proof {
            use_type_invariant(&self);
        }
        self.0
    }

    /// The hour, `0..24`.
    pub fn hour(self) -> (h: u16)
        ensures
            h == self@ / 60,
            h < 24,
    {
        self.get() / 60
    }

    /// The minute within the hour, `0..60`.
    pub fn minute_of_hour(self) -> (m: u16)
        ensures
            m == self@ % 60,
            m < 60,
    {
        self.get() % 60
    }
}

/// Minutes are ordered by their number of minutes since midnight.
impl PartialOrd for Minute {
    fn partial_cmp(&self, other: &Minute) -> (r: Option<Ordering>) {
        let a = self.get();
        let b = other.get();
        if a < b {
            Some(Ordering::Less)
        } else if a == b {
            Some(Ordering::Equal)
        } else {
            Some(Ordering::Greater)
        }
    }
}

impl vstd::std_specs::cmp::PartialOrdSpecImpl for Minute {
    open spec fn obeys_partial_cmp_spec() -> bool {
        true
    }

    open spec fn partial_cmp_spec(&self, other: &Minute) -> Option<Ordering> {
        if self@ < other@ {
            Some(Ordering::Less)
        } else if self@ == other@ {
            Some(Ordering::Equal)
        } else {
            Some(Ordering::Greater)
        }
    }
}

/// `<`, `==` and `>` on minutes are those of their numbers: `a < b` exactly
/// when `a.get() < b.get()`.
pub proof fn lemma_minute_order(a: Minute, b: Minute)
    ensures
        a.partial_cmp_spec(&b) == Some(Ordering::Less) <==> a@ < b@,
        a.partial_cmp_spec(&b) == Some(Ordering::Equal) <==> a == b,
        a.partial_cmp_spec(&b) == Some(Ordering::Greater) <==> a@ > b@,
{
}

/// A minute is its number of minutes since midnight: two minutes with the
/// same number are the same, so `Minute::new(m.get())` gives `m` back.
pub proof fn lemma_minute_is_its_number(a: Minute, b: Minute)
    ensures
        a@ == b@ ==> a == b,
{
}

} // verus!
