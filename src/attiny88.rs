//! The ADC of the ATtiny88.

use vstd::prelude::*;
use crate::adc::{AdcChip, AdcRegisters, AdcSettings, ClockDivider, ReferenceVoltage};
use crate::channel::Source;
use crate::port::{PinId, PortId};

verus! {

/// The ATtiny88: eight pins on ports C and A, reference bit REFS0 in ADMUX,
/// channel field in ADMUX bits 3..0.
pub struct Attiny88;

/// ADMUX reference bits for `r`: REFS0 set selects the supply.
pub open spec fn spec_reference_bits(r: ReferenceVoltage) -> u8 {
    match r {
        ReferenceVoltage::AVcc => 0x40,
        _ => 0x00,
    }
}

/// The multiplexer table.
pub open spec fn spec_mux_code(src: Source) -> Option<u8> {
    match src {
        Source::Pin(PinId { port: PortId::C, bit: 0 }) => Some(0u8),
        Source::Pin(PinId { port: PortId::C, bit: 1 }) => Some(1u8),
        Source::Pin(PinId { port: PortId::C, bit: 2 }) => Some(2u8),
        Source::Pin(PinId { port: PortId::C, bit: 3 }) => Some(3u8),
        Source::Pin(PinId { port: PortId::C, bit: 4 }) => Some(4u8),
        Source::Pin(PinId { port: PortId::C, bit: 5 }) => Some(5u8),
        Source::Pin(PinId { port: PortId::A, bit: 0 }) => Some(6u8),
        Source::Pin(PinId { port: PortId::A, bit: 1 }) => Some(7u8),
        Source::Temperature => Some(8u8),
        Source::Vbg => Some(14u8),
        Source::Gnd => Some(15u8),
        _ => None,
    }
}

impl AdcChip for Attiny88 {
    open spec fn has_reference(r: ReferenceVoltage) -> bool {
        r == ReferenceVoltage::AVcc || r == ReferenceVoltage::Internal1_1
    }

    open spec fn prescaler_code(d: ClockDivider) -> u8 {
        d.log2()
    }

    open spec fn configured(regs: AdcRegisters, s: AdcSettings) -> AdcRegisters {
        AdcRegisters {
            adcsra: 0x80u8 | s.clock_divider.log2(),
            admux: spec_reference_bits(s.ref_voltage),
            ..regs
        }
    }

    open spec fn mux_code(src: Source) -> Option<u8> {
        spec_mux_code(src)
    }

    open spec fn with_channel(regs: AdcRegisters, code: u8) -> AdcRegisters {
        AdcRegisters { admux: (regs.admux & 0xf0u8) | (code & 0x0fu8), ..regs }
    }

    open spec fn selected(regs: AdcRegisters) -> u8 {
        regs.admux & 0x0fu8
    }

    fn prescaler(d: ClockDivider) -> (r: u8) {
        match d {
            ClockDivider::Factor2 => 1,
            ClockDivider::Factor4 => 2,
            ClockDivider::Factor8 => 3,
            ClockDivider::Factor16 => 4,
            ClockDivider::Factor32 => 5,
            ClockDivider::Factor64 => 6,
            ClockDivider::Factor128 => 7,
        }
    }

    fn apply_settings(regs: &mut AdcRegisters, s: AdcSettings) {
        regs.adcsra = 0x80u8 | Self::prescaler(s.clock_divider);
        regs.admux = match s.ref_voltage {
            ReferenceVoltage::AVcc => 0x40u8,
            _ => 0x00u8,
        };
    }

    fn code_of(src: Source) -> (r: Option<u8>) {
        match src {
            Source::Pin(PinId { port: PortId::C, bit: 0 }) => Some(0u8),
            Source::Pin(PinId { port: PortId::C, bit: 1 }) => Some(1u8),
            Source::Pin(PinId { port: PortId::C, bit: 2 }) => Some(2u8),
            Source::Pin(PinId { port: PortId::C, bit: 3 }) => Some(3u8),
            Source::Pin(PinId { port: PortId::C, bit: 4 }) => Some(4u8),
            Source::Pin(PinId { port: PortId::C, bit: 5 }) => Some(5u8),
            Source::Pin(PinId { port: PortId::A, bit: 0 }) => Some(6u8),
            Source::Pin(PinId { port: PortId::A, bit: 1 }) => Some(7u8),
            Source::Temperature => Some(8u8),
            Source::Vbg => Some(14u8),
            Source::Gnd => Some(15u8),
            _ => None,
        }
    }

    fn set_channel(regs: &mut AdcRegisters, code: u8) {
        regs.admux = (regs.admux & 0xf0u8) | (code & 0x0fu8);
    }

    fn selected_channel(regs: &AdcRegisters) -> (r: u8) {
        regs.admux & 0x0fu8
    }

    proof fn lemma_prescaler_monotonic(a: ClockDivider, b: ClockDivider) {
    }

    proof fn lemma_codes_unique(a: Source, b: Source) {
    }

    proof fn lemma_configured_idempotent(regs: AdcRegisters, s: AdcSettings) {
    }

    proof fn lemma_channel_readback(regs: AdcRegisters, src: Source) {
        let code = spec_mux_code(src)->0;
        let m = regs.admux;
        assert(code <= 15);
        assert((((m & 0xf0u8) | (code & 0x0fu8)) & 0x0fu8) == code) by (bit_vector)
            requires code <= 15u8;
    }

    proof fn lemma_has_ground_and_temperature() {
    }
}

} // verus!
