//! The protocol shared by turn-based state machines: an input is first
//! validated, then an output is computed from the state as it was, and only
//! then is the state changed.
use vstd::prelude::*;

verus! {

/// A discrete-event state machine.
///
/// An implementor supplies `validate`, `compute` and `transition`; callers use
/// `next`, which runs the three in order and leaves the state untouched when
/// the input is rejected.
pub trait State: Sized {
    type Input;
    type Output;
    type Error;

    /// The verdict on `input` in this state.
    spec fn validation(&self, input: &Self::Input) -> Result<(), Self::Error>;

    /// Whether `out` is an output that `compute` may give for `input` here.
    spec fn output_allowed(&self, input: &Self::Input, out: Option<Self::Output>) -> bool;

    /// Whether `post` is the state that `transition` leads to from this one.
    spec fn stepped_to(&self, input: &Self::Input, post: Self) -> bool;

    /// Decides whether `input` is acceptable; never changes the state.
    fn validate(&self, input: &Self::Input) -> (r: Result<(), Self::Error>)
        ensures
            r == self.validation(input),
    ;

    /// Computes the output of an accepted input from the current state.
    fn compute(&self, input: &Self::Input) -> (r: Option<Self::Output>)
        requires
            self.validation(input) is Ok,
        ensures
            self.output_allowed(input, r),
    ;

    /// Commits an accepted input; the only operation that changes the state.
    fn transition(&mut self, input: &Self::Input)
        requires
            old(self).validation(input) is Ok,
        ensures
            old(self).stepped_to(input, *final(self)),
    ;

    /// Validates `input`; when it is rejected, returns the error and changes
    /// nothing. Otherwise computes the output on the state as it was before,
    /// commits the transition, and returns that output.
    fn next(&mut self, input: &Self::Input) -> (r: Result<Option<Self::Output>, Self::Error>)
        ensures
            match old(self).validation(input) {
                Err(e) => r == Err::<Option<Self::Output>, Self::Error>(e) && *final(self) == *old(self),
                Ok(_) => r matches Ok(out) && old(self).output_allowed(input, out)
                    && old(self).stepped_to(input, *final(self)),
            },
    {
        match self.validate(input) {
            Err(e) => Err(e),
            Ok(()) => {
                let out = self.compute(input);
                self.transition(input);
                Ok(out)
            },
        }
    }
}

} // verus!
