//! Signal sources that the ADC can convert: pins and internal signals.
#![allow(non_camel_case_types)]

use vstd::prelude::*;
use crate::port::{Pin, PinId};

verus! {

/// A source for the ADC's multiplexer.
#[derive(Debug, Clone, Copy, PartialEq, Eq, Structural)]
pub enum Source {
    /// An analog-capable pin.
    Pin(PinId),
    /// A quarter of the supply voltage.
    AVcc4,
    /// The bandgap reference.
    Vbg,
    /// Ground.
    Gnd,
    /// The temperature sensor.
    Temperature,
    /// The internal reference that the ADC is using.
    InternalReference,
}

/// Anything that can be handed to the ADC for a conversion.
pub trait ChannelSource {
    /// The source this value selects.
    spec fn spec_source(&self) -> Source;

    /// The source this value selects.
    fn source(&self) -> (r: Source)
        ensures
            r == self.spec_source(),
    ;
}

/// A quarter of the supply voltage, as an ADC input.
pub struct AVcc_4;

/// The bandgap reference, as an ADC input.
pub struct Vbg;

/// Ground, as an ADC input.
pub struct Gnd;

/// The temperature sensor, as an ADC input.
pub struct Temperature;

/// The internal reference in use, as an ADC input.
pub struct InternalReference;

impl ChannelSource for AVcc_4 {
    open spec fn spec_source(&self) -> Source {
        Source::AVcc4
    }

    fn source(&self) -> (r: Source) {
        Source::AVcc4
    }
}

impl ChannelSource for Vbg {
    open spec fn spec_source(&self) -> Source {
        Source::Vbg
    }

    fn source(&self) -> (r: Source) {
        Source::Vbg
    }
}

impl ChannelSource for Gnd {
    open spec fn spec_source(&self) -> Source {
        Source::Gnd
    }

    fn source(&self) -> (r: Source) {
        Source::Gnd
    }
}

impl ChannelSource for Temperature {
    open spec fn spec_source(&self) -> Source {
        Source::Temperature
    }

    fn source(&self) -> (r: Source) {
        Source::Temperature
    }
}

impl ChannelSource for InternalReference {
    open spec fn spec_source(&self) -> Source {
        Source::InternalReference
    }

    fn source(&self) -> (r: Source) {
        Source::InternalReference
    }
}

impl<MODE> ChannelSource for Pin<MODE> {
    open spec fn spec_source(&self) -> Source {
        Source::Pin(self.id())
    }

    fn source(&self) -> (r: Source) {
        Source::Pin(self.pin_id())
    }
}

} // verus!
