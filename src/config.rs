use vstd::prelude::*;

use crate::scalar::Scalar;

verus! {

/// The proportional, integral and derivative gains of a controller.
///
/// No sign or range is imposed: a negative gain inverts that term on purpose.
#[derive(Debug, Clone, Copy)]
pub struct Gain<T> {
    pub kp: T,
    pub ki: T,
    pub kd: T,
}

impl<T: Scalar> Gain<T> {
    /// All three gains zero.
    pub open spec fn zero_spec() -> Gain<T> {
        Gain { kp: T::zero_spec(), ki: T::zero_spec(), kd: T::zero_spec() }
    }
}

impl<T: Scalar> Default for Gain<T> {
    fn default() -> (r: Self)
        ensures
            r == Gain::<T>::zero_spec(),
    {
        Gain { kp: T::zero(), ki: T::zero(), kd: T::zero() }
    }
}

/// A set of gains together with the bounds that every output is clamped to.
///
/// `min <= max` is left to the caller; with inverted bounds every output is
/// `max` (see [`crate::scalar::clamp_spec`]).
#[derive(Debug, Clone, Copy)]
pub struct Config<T> {
    pub gain: Gain<T>,
    pub min: T,
    pub max: T,
}

impl<T: Scalar> Config<T> {
    /// `gain` with the widest bounds the number type has.
    pub open spec fn unbounded(gain: Gain<T>) -> Config<T> {
        Config { gain, min: T::lowest_spec(), max: T::highest_spec() }
    }

    /// Zero gains, unbounded.
    pub open spec fn default_spec() -> Config<T> {
        Config::unbounded(Gain::zero_spec())
    }

    pub open spec fn new_spec(kp: T, ki: T, kd: T) -> Config<T> {
        Config::unbounded(Gain { kp, ki, kd })
    }

    pub open spec fn with_limits_spec(self, min: T, max: T) -> Config<T> {
        Config { gain: self.gain, min, max }
    }

    /// The given gains, unbounded.
    pub fn new(kp: T, ki: T, kd: T) -> (r: Self)
        ensures
            r == Config::new_spec(kp, ki, kd),
    {
        Config { gain: Gain { kp, ki, kd }, min: T::lowest(), max: T::highest() }
    }

    /// The same gains with the bounds replaced by `[min, max]`.
    pub fn with_limits(self, min: T, max: T) -> (r: Self)
        ensures
            r == self.with_limits_spec(min, max),
    {
        Config { gain: self.gain, min, max }
    }
}

impl<T: Scalar> Default for Config<T> {
    /// Zero gains, unbounded.
    fn default() -> (r: Self)
        ensures
            r == Config::<T>::default_spec(),
    {
        Config { gain: Gain::default(), min: T::lowest(), max: T::highest() }
    }
}

impl<T: Scalar> From<Gain<T>> for Config<T> {
    /// `gain`, unbounded.
    fn from(gain: Gain<T>) -> (r: Self) {
        Config { gain, min: T::lowest(), max: T::highest() }
    }
}

impl<T: Scalar> vstd::std_specs::convert::FromSpecImpl<Gain<T>> for Config<T> {
    open spec fn obeys_from_spec() -> bool {
        true
    }

    open spec fn from_spec(gain: Gain<T>) -> Config<T> {
        Config::unbounded(gain)
    }
}

/// Building a configuration with `new` and then `with_limits` keeps every
/// value given, unchanged, in its field.
pub proof fn lemma_config_round_trip<T: Scalar>(kp: T, ki: T, kd: T, min: T, max: T)
    ensures
        Config::new_spec(kp, ki, kd).with_limits_spec(min, max).gain.kp == kp,
        Config::new_spec(kp, ki, kd).with_limits_spec(min, max).gain.ki == ki,
        Config::new_spec(kp, ki, kd).with_limits_spec(min, max).gain.kd == kd,
        Config::new_spec(kp, ki, kd).with_limits_spec(min, max).min == min,
        Config::new_spec(kp, ki, kd).with_limits_spec(min, max).max == max,
{
}

} // verus!
