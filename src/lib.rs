//! Closed-loop feedback controllers: standard (positional) PID, PI-D, I-PD and
//! velocity-form PID, all driven by one gain/limit configuration.
//!
//! The controllers are generic over the number type they compute in (see
//! [`scalar::Scalar`]); every `update` is specified as the exact expression it
//! evaluates in that type's own arithmetic, so the contracts hold bit for bit
//! whatever precision the caller picks.
use vstd::prelude::*;

pub mod config;
pub mod i_pd;
pub mod pi_d;
pub mod pid;
pub mod scalar;
pub mod vel_pid;

pub use crate::config::{Config, Gain};
pub use crate::i_pd::Ipd;
pub use crate::pi_d::PiD;


pub use crate::pid::Pid;
pub use crate::scalar::Scalar;
pub use crate::vel_pid::VelPid;


verus! {

/// The gains of a controller (see [`Gain`]).
pub type PidGain<T> = Gain<T>;

/// The configuration of a controller (see [`Config`]).
pub type PidConfig<T> = Config<T>;

/// The interface shared by all controllers: build from a configuration, advance
/// by one time step, and start over with a new configuration.
pub trait PidController<T: Scalar>: Sized {
    /// The controller as built from `config`: accumulators at zero and no
    /// previous sample.
    spec fn initial(config: Config<T>) -> Self;

    /// The controller after one step with the given set point, measurement and
    /// time step, paired with the output that the step returns.
    spec fn next(self, set_point: T, actual: T, dt: T) -> (Self, T);

    /// The derivative term that the next step would compute from these inputs.
    spec fn derivative(self, set_point: T, actual: T, dt: T) -> T;

    /// A controller that has seen no sample yet computes no derivative.
    proof fn lemma_first_derivative_zero(config: Config<T>, set_point: T, actual: T, dt: T)
        ensures
            Self::initial(config).derivative(set_point, actual, dt) == T::zero_spec(),
    ;

    /// Builds a controller from `config`.
    fn new(config: Config<T>) -> (r: Self)
        ensures
            r == Self::initial(config),
    ;

    /// Advances the controller by one step of length `dt` and returns the
    /// clamped output.
    fn update(&mut self, set_point: T, actual: T, dt: T) -> (r: T)
        requires
            T::lt_spec(T::zero_spec(), dt),
        ensures
            (*final(self), r) == old(self).next(set_point, actual, dt),
    ;

    /// Discards all state and starts over from `config`, as a new controller.
    fn reset_config(&mut self, config: Config<T>)
        ensures
            *final(self) == Self::initial(config),
    {
        *self = Self::new(config);
    }
}

/// The outputs of a controller that starts as `c` and is fed `inputs`, each a
/// set point, a measurement and a time step, one after another.
pub open spec fn outputs<T: Scalar, C: PidController<T>>(c: C, inputs: Seq<(T, T, T)>) -> Seq<T>
    decreases inputs.len(),
{
    if inputs.len() == 0 {
        Seq::empty()
    } else {
        let (after, out) = c.next(inputs[0].0, inputs[0].1, inputs[0].2);
        seq![out].add(outputs(after, inputs.drop_first()))
    }
}

/// Resetting a controller to `config` leaves nothing of its past: whatever it
/// was before, in the state that `reset_config` leaves it in, it returns on any
/// sequence of inputs exactly the outputs of a controller newly built from
/// `config`.
pub proof fn lemma_reset_replays_fresh<T: Scalar, C: PidController<T>>(
    after_reset: C,
    config: Config<T>,
    inputs: Seq<(T, T, T)>,
)
    requires
        after_reset == C::initial(config),
    ensures
        outputs(after_reset, inputs) == outputs(C::initial(config), inputs),
{
}

} // verus!
