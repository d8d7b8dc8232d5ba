//! An adapter that presents a digital pin with its logic levels swapped.
//!
//! A driver written for an active-high line can be used on an active-low
//! circuit by handing it an [`InvertedPin`] in place of the pin itself: what
//! the driver calls high, the wrapped pin is told to call low, in both
//! directions.
//!
//! [`digital`] holds the capabilities of a pin, each with a model of what one
//! call may do. [`inverted`] holds the adapter, whose operations are stated
//! and proved against that model.

pub mod digital;
pub mod inverted;

pub use crate::inverted::InvertedPin;
