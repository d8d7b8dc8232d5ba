//! The inverting adapter.
//!
//! [`InvertedPin`] owns one pin and offers each capability that the pin has,
//! with high and low swapped. It keeps no state of its own: every operation is
//! one call of the opposite operation of the wrapped pin, and what that call
//! returns, value or error, is handed on as it is.

use vstd::prelude::*;
use crate::digital::{ErrorType, InputPin, OutputPin, StatefulOutputPin};

verus! {

/// Inverted input/output pin.
///
/// If wrapping an output pin, whenever setting this pin to a high or low
/// level, the wrapped pin will be set to the opposite level.
///
/// Likewise, if wrapping an input pin, whenever reading this pin it will read
/// the wrapped input pin and return the opposite level.
#[derive(Debug, Clone, Copy)]
pub struct InvertedPin<P> {
    pin: P,
}

impl<P> InvertedPin<P> {
    /// The pin that this adapter owns.
    pub closed spec fn wrapped(self) -> P {
        self.pin
    }

    /// Create new instance
    pub fn new(pin: P) -> (res: Self)
        ensures
            res.wrapped() == pin,
    {
        Self { pin }
    }

    /// Destroy instance and return the wrapped pin
    pub fn destroy(self) -> (pin: P)
        ensures
            pin == self.wrapped(),
    {
        self.pin
    }

    /// An adapter is nothing but the pin it wraps: two adapters around the
    /// same pin are the same adapter. So the pin that `destroy` hands back
    /// carries everything that happened through the adapter, and nothing of
    /// the adapter stays behind.
    pub proof fn lemma_wrapped_is_all(a: Self, b: Self)
        requires
            a.wrapped() == b.wrapped(),
        ensures
            a == b,
    {
    }
}

impl<P: ErrorType> ErrorType for InvertedPin<P> {
    type Error = P::Error;
}

impl<P: OutputPin> OutputPin for InvertedPin<P> {
    /// The adapter drives high exactly when the wrapped pin drives low.
    open spec fn drives_high(&self) -> bool {
        !self.wrapped().drives_high()
    }

    /// Telling the adapter to drive a level is one call that tells the
    /// wrapped pin to drive the opposite level, with the same result.
    open spec fn drive_step(pre: Self, high: bool, post: Self, res: Result<(), Self::Error>) -> bool {
        P::drive_step(pre.wrapped(), !high, post.wrapped(), res)
    }

    /// One `set_high` of the wrapped pin; its result is returned as it is.
    fn set_low(&mut self) -> (res: Result<(), Self::Error>)
        ensures
            P::drive_step(old(self).wrapped(), true, final(self).wrapped(), res),
            res is Ok ==> final(self).wrapped().drives_high(),
    {
        self.pin.set_high()
    }

    /// One `set_low` of the wrapped pin; its result is returned as it is.
    fn set_high(&mut self) -> (res: Result<(), Self::Error>)
        ensures
            P::drive_step(old(self).wrapped(), false, final(self).wrapped(), res),
            res is Ok ==> !final(self).wrapped().drives_high(),
    {
        self.pin.set_low()
    }
}

impl<P: StatefulOutputPin> StatefulOutputPin for InvertedPin<P> {
    /// Asking the adapter whether it drives a level is one call that asks the
    /// wrapped pin whether it drives the opposite level, with the same
    /// result.
    open spec fn readback_step(pre: Self, high: bool, post: Self, res: Result<bool, Self::Error>) -> bool {
        P::readback_step(pre.wrapped(), !high, post.wrapped(), res)
    }

    /// One `is_set_low` of the wrapped pin; its result is returned as it is.
    fn is_set_high(&mut self) -> (res: Result<bool, Self::Error>)
        ensures
            P::readback_step(old(self).wrapped(), false, final(self).wrapped(), res),
            res matches Ok(answer) ==> answer == !old(self).wrapped().drives_high(),
    {
        self.pin.is_set_low()
    }

    /// One `is_set_high` of the wrapped pin; its result is returned as it is.
    fn is_set_low(&mut self) -> (res: Result<bool, Self::Error>)
        ensures
            P::readback_step(old(self).wrapped(), true, final(self).wrapped(), res),
            res matches Ok(answer) ==> answer == old(self).wrapped().drives_high(),
    {
        self.pin.is_set_high()
    }
}

impl<P: InputPin> InputPin for InvertedPin<P> {
    /// The adapter senses high exactly when the wrapped pin senses low.
    open spec fn senses_high(&self) -> bool {
        !self.wrapped().senses_high()
    }

    /// Asking the adapter whether its line is at a level is one read that
    /// asks the wrapped pin whether its line is at the opposite level, with
    /// the same result.
    open spec fn sense_step(pre: Self, high: bool, post: Self, res: Result<bool, Self::Error>) -> bool {
        P::sense_step(pre.wrapped(), !high, post.wrapped(), res)
    }

    /// One `is_low` of the wrapped pin; its result is returned as it is.
    fn is_high(&mut self) -> (res: Result<bool, Self::Error>)
        ensures
            P::sense_step(old(self).wrapped(), false, final(self).wrapped(), res),
            res matches Ok(answer) ==> answer == !old(self).wrapped().senses_high(),
    {
        self.pin.is_low()
    }

    /// One `is_high` of the wrapped pin; its result is returned as it is.
    fn is_low(&mut self) -> (res: Result<bool, Self::Error>)
        ensures
            P::sense_step(old(self).wrapped(), true, final(self).wrapped(), res),
            res matches Ok(answer) ==> answer == old(self).wrapped().senses_high(),
    {
        self.pin.is_high()
    }
}

/// In every state the adapter is told to drive the level opposite to the one
/// its wrapped pin is told to drive.
pub proof fn lemma_drive_levels_opposite<P: OutputPin>(adapter: InvertedPin<P>)
    ensures
        adapter.drives_high() == !adapter.wrapped().drives_high(),
{
}

/// In every state the adapter senses the level opposite to the one its
/// wrapped pin senses.
pub proof fn lemma_sensed_levels_opposite<P: InputPin>(adapter: InvertedPin<P>)
    ensures
        adapter.senses_high() == !adapter.wrapped().senses_high(),
{
}

/// Two inversions cancel on an output pin: an adapter around an adapter
/// drives the level of the innermost pin, and telling it to drive a level is
/// telling that pin to drive the same level, with the same result.
pub proof fn lemma_double_inversion_output<P: OutputPin>(
    pre: InvertedPin<InvertedPin<P>>,
    high: bool,
    post: InvertedPin<InvertedPin<P>>,
    res: Result<(), P::Error>,
)
    ensures
        pre.drives_high() == pre.wrapped().wrapped().drives_high(),
        InvertedPin::<InvertedPin<P>>::drive_step(pre, high, post, res) == P::drive_step(
            pre.wrapped().wrapped(),
            high,
            post.wrapped().wrapped(),
            res,
        ),
{
}

/// Two inversions cancel on the readback of an output pin: asking an adapter
/// around an adapter whether it drives a level is asking the innermost pin
/// the same, with the same result.
pub proof fn lemma_double_inversion_readback<P: StatefulOutputPin>(
    pre: InvertedPin<InvertedPin<P>>,
    high: bool,
    post: InvertedPin<InvertedPin<P>>,
    res: Result<bool, P::Error>,
)
    ensures
        InvertedPin::<InvertedPin<P>>::readback_step(pre, high, post, res) == P::readback_step(
            pre.wrapped().wrapped(),
            high,
            post.wrapped().wrapped(),
            res,
        ),
{
}

/// Two inversions cancel on an input pin: an adapter around an adapter senses
/// the level of the innermost pin, and reading it for a level is reading that
/// pin for the same level, with the same result.
pub proof fn lemma_double_inversion_input<P: InputPin>(
    pre: InvertedPin<InvertedPin<P>>,
    high: bool,
    post: InvertedPin<InvertedPin<P>>,
    res: Result<bool, P::Error>,
)
    ensures
        pre.senses_high() == pre.wrapped().wrapped().senses_high(),
        InvertedPin::<InvertedPin<P>>::sense_step(pre, high, post, res) == P::sense_step(
            pre.wrapped().wrapped(),
            high,
            post.wrapped().wrapped(),
            res,
        ),
{
}

} // verus!
