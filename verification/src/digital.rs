//! The capabilities of a digital pin, each with a mathematical model of what a
//! call may do.
//!
//! A pin is a single-bit line. Depending on the hardware behind it, it can be
//! driven to a level, sensed, or asked which level it was last told to drive.
//! Each capability is a trait of its own, so that a type offers exactly those
//! it has.
//!
//! Two things are said of every operation.
//!
//! * Its *step relation*: a predicate over the pin before the call, the level
//!   that the call names, the pin after the call and the value returned,
//!   which holds of every call. The implementation chooses the relation, and
//!   with it when the operation fails and with which error. A wrapper states
//!   its own operations through the relations of what it wraps.
//! * Its meaning in terms of a *level*: [`OutputPin::drives_high`] is the
//!   level the pin was last told to drive, [`InputPin::senses_high`] the level
//!   that a read of the line finds. Nothing is promised of a level when an
//!   operation fails.
//!
//! The two setters of a pin differ only in the level they name, and so do the
//! two queries of each kind: one relation with a level as its argument
//! describes both.
//!
//! The operations have the names and signatures of the digital pin traits of
//! `embedded-hal`, so that a pin written for that crate fits behind these
//! traits with one forwarding line per operation. What is promised of an
//! operation here is promised by whoever implements it: an implementation
//! inside `verus!` is held to it, one outside is taken at its word.

use vstd::prelude::*;

verus! {

/// The error that the operations of a pin report.
pub trait ErrorType {
    /// What a failed operation hands back.
    type Error;
}

/// A pin that can be driven to a level.
pub trait OutputPin: ErrorType + Sized {
    /// The level the pin is told to drive: `true` for high. This is the drive
    /// mode of the pin, not the electrical state of the line, which an
    /// outside source may hold elsewhere.
    spec fn drives_high(&self) -> bool;

    /// What one call that tells the pin to drive a level may do: `pre` is the
    /// pin before the call, `high` the level named (`true` for `set_high`,
    /// `false` for `set_low`), `post` the pin after the call, `res` what the
    /// call returned.
    spec fn drive_step(pre: Self, high: bool, post: Self, res: Result<(), Self::Error>) -> bool;

    /// Drives the pin low.
    fn set_low(&mut self) -> (res: Result<(), Self::Error>)
        ensures
            Self::drive_step(*old(self), false, *final(self), res),
            res is Ok ==> !final(self).drives_high(),
    ;

    /// Drives the pin high.
    fn set_high(&mut self) -> (res: Result<(), Self::Error>)
        ensures
            Self::drive_step(*old(self), true, *final(self), res),
            res is Ok ==> final(self).drives_high(),
    ;
}

/// An output pin that can tell which level it was last told to drive.
pub trait StatefulOutputPin: OutputPin {
    /// What one call that asks for the level the pin is told to drive may do:
    /// `high` is the level asked for (`true` for `is_set_high`, `false` for
    /// `is_set_low`).
    spec fn readback_step(pre: Self, high: bool, post: Self, res: Result<bool, Self::Error>) -> bool;

    /// Is the pin told to drive high? This does not read the line.
    fn is_set_high(&mut self) -> (res: Result<bool, Self::Error>)
        ensures
            Self::readback_step(*old(self), true, *final(self), res),
            res matches Ok(answer) ==> answer == old(self).drives_high(),
    ;

    /// Is the pin told to drive low? This does not read the line.
    fn is_set_low(&mut self) -> (res: Result<bool, Self::Error>)
        ensures
            Self::readback_step(*old(self), false, *final(self), res),
            res matches Ok(answer) ==> answer == !old(self).drives_high(),
    ;
}

/// A pin whose line can be sensed.
pub trait InputPin: ErrorType + Sized {
    /// The level that a read of the line finds: `true` for high.
    spec fn senses_high(&self) -> bool;

    /// What one read of the line may do: `high` is the level asked for
    /// (`true` for `is_high`, `false` for `is_low`).
    spec fn sense_step(pre: Self, high: bool, post: Self, res: Result<bool, Self::Error>) -> bool;

    /// Is the line high?
    fn is_high(&mut self) -> (res: Result<bool, Self::Error>)
        ensures
            Self::sense_step(*old(self), true, *final(self), res),
            res matches Ok(answer) ==> answer == old(self).senses_high(),
    ;

    /// Is the line low?
    fn is_low(&mut self) -> (res: Result<bool, Self::Error>)
        ensures
            Self::sense_step(*old(self), false, *final(self), res),
            res matches Ok(answer) ==> answer == !old(self).senses_high(),
    ;
}

} // verus!
