use vstd::prelude::*;

use crate::config::Config;
use crate::scalar::{clamp, clamp_spec, Scalar};
use crate::PidController;

verus! {

/// Velocity-form PID: each step computes a change of the output from rates and
/// adds it, unscaled by `dt`, to a running output that is clamped every step.
///
/// The first step has no previous error, so its proportional rate is zero;
/// [`VelPid::with_previous_error`] builds a controller that has one instead.
#[derive(Debug, Clone, Copy)]
pub struct VelPid<T> {
    pub config: Config<T>,
    /// The running (clamped) output.
    pub output: T,
    /// The error of the last step; `None` before the first.
    pub pre_error: Option<T>,
    /// The proportional rate of the last step; `None` before the first.
    pub pre_p_term: Option<T>,
    /// The derivative term after the low-pass filter.
    pub d_term_lpf: T,
}

/// The weight of a new derivative sample in the low-pass filter is one over
/// this.
pub const FILTER_DIVISOR: u8 = 8;

impl<T: Scalar> VelPid<T> {
    /// The rate of change of the error over this step.
    pub open spec fn p_term(self, set_point: T, actual: T, dt: T) -> T {
        match self.pre_error {
            Some(pre) => T::div_spec(T::sub_spec(T::sub_spec(set_point, actual), pre), dt),
            None => T::zero_spec(),
        }
    }

    /// A controller built with `new` has no previous error, so its first step
    /// has no proportional rate.
    pub proof fn lemma_first_rate_zero(config: Config<T>, set_point: T, actual: T, dt: T)
        ensures
            Self::initial(config).p_term(set_point, actual, dt) == T::zero_spec(),
    {
    }

    /// Like `new`, but as though the step before the first had had error
    /// `previous_error`, so the first step has a proportional rate.
    pub fn with_previous_error(config: Config<T>, previous_error: T) -> (r: Self)
        ensures
            r == (VelPid {
                config,
                output: T::zero_spec(),
                pre_error: Some(previous_error),
                pre_p_term: None,
                d_term_lpf: T::zero_spec(),
            }),
    {
        VelPid {
            config,
            output: T::zero(),
            pre_error: Some(previous_error),
            pre_p_term: None,
            d_term_lpf: T::zero(),
        }
    }
}

impl<T: Scalar> PidController<T> for VelPid<T> {
    open spec fn initial(config: Config<T>) -> Self {
        VelPid {
            config,
            output: T::zero_spec(),
            pre_error: None,
            pre_p_term: None,
            d_term_lpf: T::zero_spec(),
        }
    }

    /// The raw derivative, before the low-pass filter.
    open spec fn derivative(self, set_point: T, actual: T, dt: T) -> T {
        match self.pre_p_term {
            Some(pre) => T::div_spec(T::sub_spec(self.p_term(set_point, actual, dt), pre), dt),
            None => T::zero_spec(),
        }
    }

    open spec fn next(self, set_point: T, actual: T, dt: T) -> (Self, T) {
        let gain = self.config.gain;
        let error = T::sub_spec(set_point, actual);
        let p_term = self.p_term(set_point, actual, dt);
        let d_term = self.derivative(set_point, actual, dt);
        let d_term_lpf = T::add_spec(
            self.d_term_lpf,
            T::div_spec(T::sub_spec(d_term, self.d_term_lpf), T::from_u8_spec(FILTER_DIVISOR)),
        );
        let du = T::add_spec(
            T::add_spec(T::mul_spec(gain.kp, p_term), T::mul_spec(gain.ki, error)),
            T::mul_spec(gain.kd, d_term_lpf),
        );
        let output = clamp_spec(T::add_spec(self.output, du), self.config.min, self.config.max);
        (
            VelPid {
                config: self.config,
                output,
                pre_error: Some(error),
                pre_p_term: Some(p_term),
                d_term_lpf,
            },
            output,
        )
    }

    proof fn lemma_first_derivative_zero(config: Config<T>, set_point: T, actual: T, dt: T) {
    }

    fn new(config: Config<T>) -> (r: Self) {
        VelPid {
            config,
            output: T::zero(),
            pre_error: None,
            pre_p_term: None,
            d_term_lpf: T::zero(),
        }
    }

    fn update(&mut self, set_point: T, actual: T, dt: T) -> (r: T) {
        let error = set_point.sub(actual);
        let p_term = match self.pre_error {
            Some(pre) => error.sub(pre).div(dt),
            None => T::zero(),
        };
        let d_term = match self.pre_p_term {
            Some(pre) => p_term.sub(pre).div(dt),
            None => T::zero(),
        };
        self.d_term_lpf = self.d_term_lpf.add(
            d_term.sub(self.d_term_lpf).div(T::from_u8(FILTER_DIVISOR)),
        );
        let gain = self.config.gain;
        let du = gain.kp.mul(p_term).add(gain.ki.mul(error)).add(gain.kd.mul(self.d_term_lpf));
        self.pre_error = Some(error);
        self.pre_p_term = Some(p_term);
        self.output = clamp(self.output.add(du), self.config.min, self.config.max);
        self.output
    }
}

impl<T: Scalar> Default for VelPid<T> {
    /// A controller built from the default configuration.
    fn default() -> (r: Self)
        ensures
            r == Self::initial(Config::default_spec()),
    {
        Self::new(Config::default())
    }
}

} // verus!
