//! Monetary amounts in exact fixed-point form.

use vstd::prelude::*;

verus! {

/// Largest number of decimal places an amount can have.
pub const MAX_SCALE: u32 = 28;

/// Largest magnitude of an amount's digits: 96 bits, all set.
pub const MAX_MANTISSA: i128 = 79_228_162_514_264_337_593_543_950_335;

/// An exact decimal number: `digits / 10^places`.
///
/// The store keeps prices in this form. The same number may be written with
/// different numbers of places (`12.5` and `12.50`); an amount remembers
/// which one it was given, and two amounts are equal when both their digits
/// and their places agree.
#[derive(Clone, Copy, Debug, PartialEq, Eq)]
pub struct Amount {
    mantissa: i128,
    scale: u32,
}

impl Amount {
    /// Whether `mantissa / 10^scale` can be held.
    pub open spec fn representable(mantissa: int, scale: int) -> bool {
        &&& 0 <= scale <= MAX_SCALE
        &&& -MAX_MANTISSA <= mantissa <= MAX_MANTISSA
    }

    /// The amount with the given digits and places.
    pub closed spec fn of(mantissa: i128, scale: u32) -> Amount {
        Amount { mantissa, scale }
    }

    /// The digits of the amount, as a signed integer.
    pub closed spec fn digits(self) -> int {
        self.mantissa as int
    }

    /// How many of the digits stand behind the decimal point.
    pub closed spec fn places(self) -> int {
        self.scale as int
    }

    #[verifier::type_invariant]
    spec fn well_formed(self) -> bool {
        Self::representable(self.digits(), self.places())
    }

    /// The amount `mantissa / 10^scale`, if it can be held.
    pub fn new(mantissa: i128, scale: u32) -> (r: Option<Amount>)
        ensures
            r is Some <==> Self::representable(mantissa as int, scale as int),
            r is Some ==> r == Some(Self::of(mantissa, scale)),
    {
        if scale <= MAX_SCALE && -MAX_MANTISSA <= mantissa && mantissa <= MAX_MANTISSA {
            Some(Amount { mantissa, scale })
        } else {
            None
        }
    }

    /// Nothing, with no decimal places.
    pub fn zero() -> (a: Amount)
        ensures
            a == Self::of(0, 0),
    {
        Amount { mantissa: 0, scale: 0 }
    }

    /// The digits of the amount.
    pub fn mantissa(&self) -> (m: i128)
        ensures
            m == self.digits(),
            -MAX_MANTISSA <= m <= MAX_MANTISSA,
    {
        proof {
            use_type_invariant(self);
        }
        self.mantissa
    }

    /// The number of decimal places of the amount.
    pub fn scale(&self) -> (s: u32)
        ensures
            s == self.places(),
            s <= MAX_SCALE,
    {
        proof {
            use_type_invariant(self);
        }
        self.scale
    }

    /// An amount is its digits and its places, and nothing more.
    pub proof fn lemma_of(mantissa: i128, scale: u32)
        ensures
            Self::of(mantissa, scale).digits() == mantissa,
            Self::of(mantissa, scale).places() == scale,
            forall|a: Amount|
                a.digits() == mantissa && a.places() == scale ==> a == Self::of(mantissa, scale),
    {
    }
}

} // verus!
