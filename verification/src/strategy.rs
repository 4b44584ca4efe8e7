//! The two ways in which a controller moves its value: by a fixed amount or
//! by a fixed factor.
use vstd::prelude::*;
use crate::rational::{representable, Rational};

verus! {

/// What a strategy is, as real numbers: an amount added or taken away, or a
/// factor multiplied or divided by.
pub enum Rule {
    Additive(real),
    Multiplicative(real),
}

impl Rule {
    /// The gain: the amount or the factor.
    pub open spec fn gain(self) -> real {
        match self {
            Rule::Additive(gain) => gain,
            Rule::Multiplicative(gain) => gain,
        }
    }

    /// The value that an increase moves `value` to.
    pub open spec fn raise(self, value: real) -> real {
        match self {
            Rule::Additive(gain) => value + gain,
            Rule::Multiplicative(gain) => value * gain,
        }
    }

    /// The value that a decrease moves `value` to.
    pub open spec fn lower(self, value: real) -> real {
        match self {
            Rule::Additive(gain) => value - gain,
            Rule::Multiplicative(gain) => value / gain,
        }
    }
}

/// The message of the error that refuses an additive gain.
pub open spec fn additive_gain_message() -> Seq<char> {
    "additive strategy must be > 0"@
}

/// The message of the error that refuses a multiplicative gain.
pub open spec fn multiplicative_gain_message() -> Seq<char> {
    "multiplicative strategy must be > 0"@
}

/// An increase or decrease rule with its gain, which is greater than zero.
#[derive(Clone, Copy, Debug)]
pub(crate) enum Strategy {
    Additive(Rational),
    Multiplicative(Rational),
}

impl View for Strategy {
    type V = Rule;

    closed spec fn view(&self) -> Rule {
        match self {
            Strategy::Additive(gain) => Rule::Additive(gain@),
            Strategy::Multiplicative(gain) => Rule::Multiplicative(gain@),
        }
    }
}

impl Strategy {
    /// The gain is greater than zero.
    #[verifier::type_invariant]
    pub(crate) open spec fn positive_gain(self) -> bool {
        self@.gain() > 0real
    }

    /// The additive strategy of the given gain, which must be greater than
    /// zero.
    pub(crate) fn additive(gain: Rational) -> (r: Result<Strategy, String>)
        ensures
            gain@ > 0real ==> r is Ok && r.unwrap()@ == Rule::Additive(gain@),
            gain@ <= 0real ==> r is Err && r.unwrap_err()@ == additive_gain_message(),
    {
        if !gain.is_positive() {
            Err("additive strategy must be > 0".to_string())
        } else {
            Ok(Strategy::Additive(gain))
        }
    }

    /// The multiplicative strategy of the given gain, which must be greater
    /// than zero.
    pub(crate) fn multiplicative(gain: Rational) -> (r: Result<Strategy, String>)
        ensures
            gain@ > 0real ==> r is Ok && r.unwrap()@ == Rule::Multiplicative(gain@),
            gain@ <= 0real ==> r is Err && r.unwrap_err()@ == multiplicative_gain_message(),
    {
        if !gain.is_positive() {
            Err("multiplicative strategy must be > 0".to_string())
        } else {
            Ok(Strategy::Multiplicative(gain))
        }
    }

    /// The value that an increase moves `value` to, or `None` where it has no
    /// representation.
    pub(crate) fn raise(self, value: Rational) -> (r: Option<Rational>)
        ensures
            r is Some <==> representable(self@.raise(value@)),
            r is Some ==> r.unwrap()@ == self@.raise(value@),
    {
        match self {
            Strategy::Additive(gain) => value.checked_add(gain),
            Strategy::Multiplicative(gain) => value.checked_mul(gain),
        }
    }

    /// The value that a decrease moves `value` to, or `None` where it has no
    /// representation.
    pub(crate) fn lower(self, value: Rational) -> (r: Option<Rational>)
        ensures
            r is Some <==> representable(self@.lower(value@)),
            r is Some ==> r.unwrap()@ == self@.lower(value@),
    {
        proof {
            use_type_invariant(&self);
        }
        match self {
            Strategy::Additive(gain) => value.checked_sub(gain),
            Strategy::Multiplicative(gain) => value.checked_div(gain),
        }
    }
}

} // verus!
