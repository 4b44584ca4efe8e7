//! The controller: a current value that success signals raise and failure
//! signals lower, each by its own strategy, within optional bounds.
use vstd::prelude::*;
use crate::rational::{representable, Rational};
use crate::strategy::{additive_gain_message, multiplicative_gain_message, Rule, Strategy};

verus! {

/// What a controller is, as real numbers.
pub struct State {
    /// The rule that a success applies.
    pub increase: Rule,
    /// The rule that a failure applies.
    pub decrease: Rule,
    /// The current value.
    pub current: real,
    /// The upper bound, if one is set.
    pub max: Option<real>,
    /// The lower bound, if one is set.
    pub min: Option<real>,
}

impl State {
    /// The state of a new controller: the value is zero and no bound is set.
    pub open spec fn initial(increase: Rule, decrease: Rule) -> State {
        State { increase, decrease, current: 0real, max: None, min: None }
    }

    /// Both gains are greater than zero.
    pub open spec fn valid(self) -> bool {
        self.increase.gain() > 0real && self.decrease.gain() > 0real
    }

    /// Whether the value already stands at or beyond the bound that the signal
    /// moves it towards: the upper bound for a success, the lower for a
    /// failure.
    pub open spec fn saturated(self, success: bool) -> bool {
        if success {
            self.max is Some && self.current >= self.max.unwrap()
        } else {
            self.min is Some && self.current <= self.min.unwrap()
        }
    }

    /// The value that the signal's strategy moves the current value to, before
    /// any bound is applied.
    pub open spec fn candidate(self, success: bool) -> real {
        if success {
            self.increase.raise(self.current)
        } else {
            self.decrease.lower(self.current)
        }
    }

    /// The value after one signal: unchanged where saturated, else the
    /// candidate, held to the bound that the signal moves it towards.
    pub open spec fn next_value(self, success: bool) -> real {
        let candidate = self.candidate(success);
        if self.saturated(success) {
            self.current
        } else if success && self.max is Some && candidate > self.max.unwrap() {
            self.max.unwrap()
        } else if !success && self.min is Some && candidate < self.min.unwrap() {
            self.min.unwrap()
        } else {
            candidate
        }
    }

    /// The state after one signal.
    pub open spec fn update(self, success: bool) -> State {
        State { current: self.next_value(success), ..self }
    }

    /// Whether the step for this signal can be taken: the value stays as it is,
    /// or the candidate has a representation.
    pub open spec fn can_update(self, success: bool) -> bool {
        self.saturated(success) || representable(self.candidate(success))
    }

    /// The state after the upper bound is set to `max`.
    pub open spec fn with_max_value(self, max: real) -> State {
        State {
            max: Some(max),
            current: if self.current > max {
                max
            } else {
                self.current
            },
            ..self
        }
    }

    /// The state after the lower bound is set to `min`.
    pub open spec fn with_min_value(self, min: real) -> State {
        State {
            min: Some(min),
            current: if self.current < min {
                min
            } else {
                self.current
            },
            ..self
        }
    }

    /// The state after the value is set to `value`.
    pub open spec fn set_value(self, value: real) -> State {
        State { current: value, ..self }
    }
}

/// A rate controller.
#[derive(Debug)]
pub struct Controller {
    increase_strategy: Strategy,
    decrease_strategy: Strategy,
    current_value: Rational,
    max_value: Option<Rational>,
    min_value: Option<Rational>,
}

/// The real number that an optional bound stands for.
spec fn bound_view(bound: Option<Rational>) -> Option<real> {
    match bound {
        Some(b) => Some(b@),
        None => None,
    }
}

impl View for Controller {
    type V = State;

    closed spec fn view(&self) -> State {
        State {
            increase: self.increase_strategy@,
            decrease: self.decrease_strategy@,
            current: self.current_value@,
            max: bound_view(self.max_value),
            min: bound_view(self.min_value),
        }
    }
}

impl Controller {
    /// A controller with additive increase and multiplicative decrease.
    pub fn aimd(additive_gain: Rational, decrease_gain: Rational) -> (r: Result<Controller, String>)
        ensures
            r is Ok <==> additive_gain@ > 0real && decrease_gain@ > 0real,
            r is Ok ==> r.unwrap()@.valid(),
            r is Ok ==> r.unwrap()@ == State::initial(
                Rule::Additive(additive_gain@),
                Rule::Multiplicative(decrease_gain@),
            ),
            additive_gain@ <= 0real ==> r.unwrap_err()@ == additive_gain_message(),
            additive_gain@ > 0real && decrease_gain@ <= 0real ==> r.unwrap_err()@
                == multiplicative_gain_message(),
    {
        let increase_strategy = match Strategy::additive(additive_gain) {
            Ok(strategy) => strategy,
            Err(e) => { return Err(e); },
        };
        let decrease_strategy = match Strategy::multiplicative(decrease_gain) {
            Ok(strategy) => strategy,
            Err(e) => { return Err(e); },
        };
        Ok(Controller::new(increase_strategy, decrease_strategy))
    }

    /// A controller with multiplicative increase and multiplicative decrease.
    pub fn mimd(additive_gain: Rational, decrease_gain: Rational) -> (r: Result<Controller, String>)
        ensures
            r is Ok <==> additive_gain@ > 0real && decrease_gain@ > 0real,
            r is Ok ==> r.unwrap()@.valid(),
            r is Ok ==> r.unwrap()@ == State::initial(
                Rule::Multiplicative(additive_gain@),
                Rule::Multiplicative(decrease_gain@),
            ),
            additive_gain@ <= 0real ==> r.unwrap_err()@ == multiplicative_gain_message(),
            additive_gain@ > 0real && decrease_gain@ <= 0real ==> r.unwrap_err()@
                == multiplicative_gain_message(),
    {
        let increase_strategy = match Strategy::multiplicative(additive_gain) {
            Ok(strategy) => strategy,
            Err(e) => { return Err(e); },
        };
        let decrease_strategy = match Strategy::multiplicative(decrease_gain) {
            Ok(strategy) => strategy,
            Err(e) => { return Err(e); },
        };
        Ok(Controller::new(increase_strategy, decrease_strategy))
    }

    /// A controller with multiplicative increase and additive decrease.
    pub fn miad(additive_gain: Rational, decrease_gain: Rational) -> (r: Result<Controller, String>)
        ensures
            r is Ok <==> additive_gain@ > 0real && decrease_gain@ > 0real,
            r is Ok ==> r.unwrap()@.valid(),
            r is Ok ==> r.unwrap()@ == State::initial(
                Rule::Multiplicative(additive_gain@),
                Rule::Additive(decrease_gain@),
            ),
            additive_gain@ <= 0real ==> r.unwrap_err()@ == multiplicative_gain_message(),
            additive_gain@ > 0real && decrease_gain@ <= 0real ==> r.unwrap_err()@
                == additive_gain_message(),
    {
        let increase_strategy = match Strategy::multiplicative(additive_gain) {
            Ok(strategy) => strategy,
            Err(e) => { return Err(e); },
        };
        let decrease_strategy = match Strategy::additive(decrease_gain) {
            Ok(strategy) => strategy,
            Err(e) => { return Err(e); },
        };
        Ok(Controller::new(increase_strategy, decrease_strategy))
    }

    /// A controller with additive increase and additive decrease.
    pub fn aiad(additive_gain: Rational, decrease_gain: Rational) -> (r: Result<Controller, String>)
        ensures
            r is Ok <==> additive_gain@ > 0real && decrease_gain@ > 0real,
            r is Ok ==> r.unwrap()@.valid(),
            r is Ok ==> r.unwrap()@ == State::initial(
                Rule::Additive(additive_gain@),
                Rule::Additive(decrease_gain@),
            ),
            additive_gain@ <= 0real ==> r.unwrap_err()@ == additive_gain_message(),
            additive_gain@ > 0real && decrease_gain@ <= 0real ==> r.unwrap_err()@
                == additive_gain_message(),
    {
        let increase_strategy = match Strategy::additive(additive_gain) {
            Ok(strategy) => strategy,
            Err(e) => { return Err(e); },
        };
        let decrease_strategy = match Strategy::additive(decrease_gain) {
            Ok(strategy) => strategy,
            Err(e) => { return Err(e); },
        };
        Ok(Controller::new(increase_strategy, decrease_strategy))
    }

    fn new(increase_strategy: Strategy, decrease_strategy: Strategy) -> (c: Controller)
        ensures
            c@ == State::initial(increase_strategy@, decrease_strategy@),
    {
        Controller {
            increase_strategy,
            decrease_strategy,
            current_value: Rational::from_int(0),
            max_value: None,
            min_value: None,
        }
    }

    /// Sets the upper bound, and brings a current value above it down to it.
    pub fn with_max_value(&mut self, max: Rational)
        ensures
            final(self)@ == old(self)@.with_max_value(max@),
            old(self)@.current > max@ ==> final(self)@.current == max@,
    {
        self.max_value = Some(max);
        if max.lt(self.current_value) {
            self.current_value = max
        }
    }

    /// Sets the lower bound, and brings a current value below it up to it.
    pub fn with_min_value(&mut self, min: Rational)
        ensures
            final(self)@ == old(self)@.with_min_value(min@),
            old(self)@.current < min@ ==> final(self)@.current == min@,
    {
        self.min_value = Some(min);
        if self.current_value.lt(min) {
            self.current_value = min
        }
    }

    /// Sets the current value, whatever the bounds are.
    pub fn set_value(&mut self, new_value: Rational)
        ensures
            final(self)@ == old(self)@.set_value(new_value@),
    {
        self.current_value = new_value
    }

    /// Takes one signal: a success raises the current value by the increase
    /// strategy, up to the upper bound; a failure lowers it by the decrease
    /// strategy, down to the lower bound. A value that already stands at or
    /// beyond that bound stays as it is.
    pub fn update(&mut self, success: bool)
        requires
            old(self)@.can_update(success),
        ensures
            final(self)@ == old(self)@.update(success),
    {
        let old_value = self.current_value;
        let final_value = if success {
            let max_reached = match self.max_value {
                Some(max) => max.le(old_value),
                None => false,
            };
            if max_reached {
                old_value
            } else {
                let new_value = self.increase_strategy.raise(old_value).unwrap();
                match self.max_value {
                    Some(max) => if max.lt(new_value) {
                        max
                    } else {
                        new_value
                    },
                    None => new_value,
                }
            }
        } else {
            let min_reached = match self.min_value {
                Some(min) => old_value.le(min),
                None => false,
            };
            if min_reached {
                old_value
            } else {
                let new_value = self.decrease_strategy.lower(old_value).unwrap();
                match self.min_value {
                    Some(min) => if new_value.lt(min) {
                        min
                    } else {
                        new_value
                    },
                    None => new_value,
                }
            }
        };
        self.current_value = final_value
    }

    /// Whether `update` can take this signal: the value stays as it is, or the
    /// value that the strategy moves it to has a representation.
    pub fn can_update(&self, success: bool) -> (possible: bool)
        ensures
            possible == self@.can_update(success),
    {
        if success {
            let max_reached = match self.max_value {
                Some(max) => max.le(self.current_value),
                None => false,
            };
            max_reached || self.increase_strategy.raise(self.current_value).is_some()
        } else {
            let min_reached = match self.min_value {
                Some(min) => self.current_value.le(min),
                None => false,
            };
            min_reached || self.decrease_strategy.lower(self.current_value).is_some()
        }
    }

    /// Takes one signal as `update` does, where it can, and says whether it
    /// did. Where it cannot, the controller stays as it is.
    pub fn try_update(&mut self, success: bool) -> (done: bool)
        ensures
            done == old(self)@.can_update(success),
            done ==> final(self)@ == old(self)@.update(success),
            !done ==> final(self)@ == old(self)@,
    {
        if self.can_update(success) {
            self.update(success);
            true
        } else {
            false
        }
    }

    /// The current value.
    pub fn current(&self) -> (value: Rational)
        ensures
            value@ == self@.current,
    {
        self.current_value
    }
}

} // verus!
