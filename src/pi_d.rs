use vstd::prelude::*;

use crate::config::Config;
use crate::scalar::{clamp, clamp_spec, Scalar};
use crate::PidController;

verus! {

/// PI-D: proportional and integral action on the error, derivative action on
/// the measurement, so that a step of the set point gives no derivative kick.
#[derive(Debug, Clone, Copy)]
pub struct PiD<T> {
    pub config: Config<T>,
    /// The running sum of `error * dt`.
    pub i_term: T,
    /// The measurement of the last step; `None` before the first.
    pub pre_actual: Option<T>,
}

impl<T: Scalar> PidController<T> for PiD<T> {
    open spec fn initial(config: Config<T>) -> Self {
        PiD { config, i_term: T::zero_spec(), pre_actual: None }
    }

    open spec fn derivative(self, set_point: T, actual: T, dt: T) -> T {
        match self.pre_actual {
            Some(pre) => T::div_spec(T::sub_spec(actual, pre), dt),
            None => T::zero_spec(),
        }
    }

    open spec fn next(self, set_point: T, actual: T, dt: T) -> (Self, T) {
        let gain = self.config.gain;
        let error = T::sub_spec(set_point, actual);
        let i_term = T::add_spec(self.i_term, T::mul_spec(error, dt));
        let output = T::sub_spec(
            T::add_spec(T::mul_spec(gain.kp, error), T::mul_spec(gain.ki, i_term)),
            T::mul_spec(gain.kd, self.derivative(set_point, actual, dt)),
        );
        (
            PiD { config: self.config, i_term, pre_actual: Some(actual) },
            clamp_spec(output, self.config.min, self.config.max),
        )
    }

    proof fn lemma_first_derivative_zero(config: Config<T>, set_point: T, actual: T, dt: T) {
    }

    fn new(config: Config<T>) -> (r: Self) {
        PiD { config, i_term: T::zero(), pre_actual: None }
    }

    fn update(&mut self, set_point: T, actual: T, dt: T) -> (r: T) {
        let error = set_point.sub(actual);
        self.i_term = self.i_term.add(error.mul(dt));
        let d_term = match self.pre_actual {
            Some(pre) => actual.sub(pre).div(dt),
            None => T::zero(),
        };
        let gain = self.config.gain;
        let output = gain.kp.mul(error).add(gain.ki.mul(self.i_term)).sub(gain.kd.mul(d_term));
        self.pre_actual = Some(actual);
        clamp(output, self.config.min, self.config.max)
    }
}

impl<T: Scalar> Default for PiD<T> {
    /// A controller built from the default configuration.
    fn default() -> (r: Self)
        ensures
            r == Self::initial(Config::default_spec()),
    {
        Self::new(Config::default())
    }
}

} // verus!
