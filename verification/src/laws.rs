//! What holds of every controller, proved from the definition of a step.
use vstd::prelude::*;
use crate::controller::State;
use crate::strategy::Rule;

verus! {

/// The state after `n` signals of the same kind.
pub open spec fn repeated(s: State, success: bool, n: nat) -> State
    decreases n,
{
    if n == 0 {
        s
    } else {
        repeated(s, success, (n - 1) as nat).update(success)
    }
}

/// The state after the signals, taken from the first to the last.
pub open spec fn run(s: State, signals: Seq<bool>) -> State
    decreases signals.len(),
{
    if signals.len() == 0 {
        s
    } else {
        run(s, signals.drop_last()).update(signals.last())
    }
}

/// A step changes the current value and nothing else.
pub proof fn lemma_update_keeps_configuration(s: State, success: bool)
    ensures
        s.update(success).increase == s.increase,
        s.update(success).decrease == s.decrease,
        s.update(success).max == s.max,
        s.update(success).min == s.min,
        s.valid() ==> s.update(success).valid(),
{
}

/// However many signals come, the strategies and the bounds stay as they
/// are.
pub proof fn lemma_run_keeps_configuration(s: State, signals: Seq<bool>)
    ensures
        run(s, signals).increase == s.increase,
        run(s, signals).decrease == s.decrease,
        run(s, signals).max == s.max,
        run(s, signals).min == s.min,
        s.valid() ==> run(s, signals).valid(),
    decreases signals.len(),
{
    if signals.len() > 0 {
        lemma_run_keeps_configuration(s, signals.drop_last());
    }
}

/// With an additive increase and no upper bound, a success raises the
/// current value by exactly the gain, so the value grows.
pub proof fn lemma_additive_increase(s: State, gain: real)
    requires
        s.increase == Rule::Additive(gain),
        gain > 0real,
        s.max is None,
    ensures
        s.update(true).current == s.current + gain,
        s.update(true).current > s.current,
{
}

/// With an additive increase and no upper bound, `n` successes raise the
/// current value by `n` times the gain.
pub proof fn lemma_additive_increase_repeated(s: State, gain: real, n: nat)
    requires
        s.increase == Rule::Additive(gain),
        gain > 0real,
        s.max is None,
    ensures
        repeated(s, true, n).current == s.current + n as real * gain,
        repeated(s, true, n).increase == s.increase,
        repeated(s, true, n).max == s.max,
        n > 0 ==> repeated(s, true, n).current > s.current,
    decreases n,
{
    if n > 0 {
        let m: nat = (n - 1) as nat;
        lemma_additive_increase_repeated(s, gain, m);
        assert(s.current + m as real * gain + gain == s.current + n as real * gain)
            by (nonlinear_arith)
            requires
                n == m + 1,
        ;
        assert(n as real * gain > 0real) by (nonlinear_arith)
            requires
                n > 0,
                gain > 0real,
        ;
    } else {
        assert(n as real * gain == 0real) by (nonlinear_arith)
            requires
                n == 0,
        ;
    }
}

/// With a multiplicative decrease, a failure divides the current value by
/// exactly the gain, where no lower bound is set, or the value stands above
/// the lower bound and the quotient does not fall below it.
pub proof fn lemma_multiplicative_decrease(s: State, gain: real)
    requires
        s.decrease == Rule::Multiplicative(gain),
        gain > 0real,
        s.min is None || (s.current > s.min.unwrap() && s.current / gain >= s.min.unwrap()),
    ensures
        s.update(false).current == s.current / gain,
{
}

/// Once the current value has reached or passed the upper bound, a success
/// leaves the controller as it is.
pub proof fn lemma_max_saturation(s: State, max: real)
    requires
        s.max == Some(max),
        s.current >= max,
    ensures
        s.update(true) == s,
{
}

/// However many successes follow, a current value that has reached or passed
/// the upper bound stays as it is.
pub proof fn lemma_max_saturation_repeated(s: State, max: real, n: nat)
    requires
        s.max == Some(max),
        s.current >= max,
    ensures
        repeated(s, true, n) == s,
    decreases n,
{
    if n > 0 {
        lemma_max_saturation_repeated(s, max, (n - 1) as nat);
    }
}

/// A success never takes a current value at or below the upper bound above
/// it.
pub proof fn lemma_success_stays_below_max(s: State, max: real)
    requires
        s.max == Some(max),
        s.current <= max,
    ensures
        s.update(true).current <= max,
{
}

/// However many successes follow, a current value at or below the upper bound
/// never exceeds it.
pub proof fn lemma_successes_stay_below_max(s: State, max: real, n: nat)
    requires
        s.max == Some(max),
        s.current <= max,
    ensures
        repeated(s, true, n).current <= max,
        repeated(s, true, n).max == s.max,
    decreases n,
{
    if n > 0 {
        lemma_successes_stay_below_max(s, max, (n - 1) as nat);
    }
}

/// Once the current value has reached or fallen below the lower bound, a
/// failure leaves the controller as it is.
pub proof fn lemma_min_saturation(s: State, min: real)
    requires
        s.min == Some(min),
        s.current <= min,
    ensures
        s.update(false) == s,
{
}

/// However many failures follow, a current value that has reached or fallen
/// below the lower bound stays as it is.
pub proof fn lemma_min_saturation_repeated(s: State, min: real, n: nat)
    requires
        s.min == Some(min),
        s.current <= min,
    ensures
        repeated(s, false, n) == s,
    decreases n,
{
    if n > 0 {
        lemma_min_saturation_repeated(s, min, (n - 1) as nat);
    }
}

/// A failure never takes a current value at or above the lower bound below
/// it.
pub proof fn lemma_failure_stays_above_min(s: State, min: real)
    requires
        s.min == Some(min),
        s.current >= min,
    ensures
        s.update(false).current >= min,
{
}

/// However many failures follow, a current value at or above the lower bound
/// never falls below it.
pub proof fn lemma_failures_stay_above_min(s: State, min: real, n: nat)
    requires
        s.min == Some(min),
        s.current >= min,
    ensures
        repeated(s, false, n).current >= min,
        repeated(s, false, n).min == s.min,
    decreases n,
{
    if n > 0 {
        lemma_failures_stay_above_min(s, min, (n - 1) as nat);
    }
}

/// A decrease does not raise a value: an additive one never, a
/// multiplicative one where its gain is at least 1 and the value is not
/// negative, and then the value stays not negative.
pub proof fn lemma_lower_never_raises(rule: Rule, value: real)
    requires
        rule.gain() > 0real,
        rule is Additive || (rule.gain() >= 1real && value >= 0real),
    ensures
        rule.lower(value) <= value,
        rule is Multiplicative ==> rule.lower(value) >= 0real,
{
    let gain: real = rule.gain();
    if rule is Multiplicative {
        assert(0real <= value / gain <= value) by (nonlinear_arith)
            requires
                gain >= 1real,
                value >= 0real,
        ;
    }
}

/// An increase does not lower a value: an additive one never, a
/// multiplicative one where its gain is at least 1 and the value is not
/// negative. An increase of a value that is not negative is not negative.
pub proof fn lemma_raise_never_lowers(rule: Rule, value: real)
    requires
        rule.gain() > 0real,
    ensures
        rule is Additive || (rule.gain() >= 1real && value >= 0real) ==> rule.raise(value)
            >= value,
        value >= 0real ==> rule.raise(value) >= 0real,
{
    let gain: real = rule.gain();
    if rule is Multiplicative {
        assert(value >= 0real ==> value * gain >= 0real) by (nonlinear_arith)
            requires
                gain > 0real,
        ;
        assert(gain >= 1real && value >= 0real ==> value * gain >= value) by (nonlinear_arith);
    }
}

/// A failure takes a current value at or below the upper bound above it only
/// where the decrease strategy itself does: where the value is not held by
/// the lower bound and the strategy moves it above the upper bound.
pub proof fn lemma_failure_stays_below_max(s: State, max: real)
    requires
        s.max == Some(max),
        s.current <= max,
    ensures
        s.update(false).current <= max <==> s.saturated(false) || s.decrease.lower(s.current)
            <= max,
{
}

/// A success takes a current value at or above the lower bound below it only
/// where the increase strategy itself does: where the value is not held by
/// the upper bound and the strategy moves it below the lower bound.
pub proof fn lemma_success_stays_above_min(s: State, min: real)
    requires
        s.min == Some(min),
        s.current >= min,
    ensures
        s.update(true).current >= min <==> s.saturated(true) || s.increase.raise(s.current)
            >= min,
{
}

/// Whatever signals come, a current value at or below the upper bound never
/// exceeds it, where the decrease is additive, or is multiplicative with a
/// gain of at least 1 on a current value that is not negative.
pub proof fn lemma_run_stays_below_max(s: State, max: real, signals: Seq<bool>)
    requires
        s.valid(),
        s.max == Some(max),
        s.current <= max,
        s.decrease is Additive || (s.decrease.gain() >= 1real && s.current >= 0real),
    ensures
        run(s, signals).current <= max,
        s.decrease is Multiplicative ==> run(s, signals).current >= 0real,
    decreases signals.len(),
{
    if signals.len() > 0 {
        let before: State = run(s, signals.drop_last());
        lemma_run_stays_below_max(s, max, signals.drop_last());
        lemma_run_keeps_configuration(s, signals.drop_last());
        lemma_lower_never_raises(before.decrease, before.current);
        lemma_raise_never_lowers(before.increase, before.current);
    }
}

/// Whatever signals come, a current value at or above the lower bound never
/// falls below it, where the increase is additive, or is multiplicative with
/// a gain of at least 1 and the lower bound is not negative.
pub proof fn lemma_run_stays_above_min(s: State, min: real, signals: Seq<bool>)
    requires
        s.valid(),
        s.min == Some(min),
        s.current >= min,
        s.increase is Additive || (s.increase.gain() >= 1real && min >= 0real),
    ensures
        run(s, signals).current >= min,
    decreases signals.len(),
{
    if signals.len() > 0 {
        let before: State = run(s, signals.drop_last());
        lemma_run_stays_above_min(s, min, signals.drop_last());
        lemma_run_keeps_configuration(s, signals.drop_last());
        lemma_raise_never_lowers(before.increase, before.current);
    }
}

/// Setting an upper bound below the current value brings the value down to
/// it; setting a lower bound above the current value brings the value up to
/// it. Either way the value then lies on the right side of the new bound.
pub proof fn lemma_bound_applies_when_set(s: State, bound: real)
    ensures
        s.current > bound ==> s.with_max_value(bound).current == bound,
        s.current <= bound ==> s.with_max_value(bound).current == s.current,
        s.with_max_value(bound).current <= bound,
        s.current < bound ==> s.with_min_value(bound).current == bound,
        s.current >= bound ==> s.with_min_value(bound).current == s.current,
        s.with_min_value(bound).current >= bound,
{
}

} // verus!
