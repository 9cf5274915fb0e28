//! The ADC of the ATtiny85.

use vstd::prelude::*;
use crate::adc::{AdcChip, AdcRegisters, AdcSettings, ClockDivider, ReferenceVoltage};
use crate::channel::Source;
use crate::port::{PinId, PortId};

verus! {

/// The ATtiny85: four pins on port B, reference bits REFS1..0 and REFS2 in
/// ADMUX, channel field in ADMUX bits 3..0.
pub struct Attiny85;

/// ADMUX reference bits for `r`.
pub open spec fn spec_reference_bits(r: ReferenceVoltage) -> u8 {
    match r {
        ReferenceVoltage::Aref => 0x40,
        ReferenceVoltage::Internal1_1 => 0x80,
        ReferenceVoltage::Internal2_56 => 0x90,
        _ => 0x00,
    }
}

/// The multiplexer table.
pub open spec fn spec_mux_code(src: Source) -> Option<u8> {
    match src {
        Source::Pin(PinId { port: PortId::B, bit: 5 }) => Some(0u8),
        Source::Pin(PinId { port: PortId::B, bit: 2 }) => Some(1u8),
        Source::Pin(PinId { port: PortId::B, bit: 4 }) => Some(2u8),
        Source::Pin(PinId { port: PortId::B, bit: 3 }) => Some(3u8),
        Source::Vbg => Some(12u8),
        Source::Gnd => Some(13u8),
        Source::Temperature => Some(15u8),
        _ => None,
    }
}

impl AdcChip for Attiny85 {
    open spec fn has_reference(r: ReferenceVoltage) -> bool {
        r == ReferenceVoltage::Aref || r == ReferenceVoltage::AVcc || r == ReferenceVoltage::Internal1_1
            || r == ReferenceVoltage::Internal2_56
    }

    open spec fn prescaler_code(d: ClockDivider) -> u8 {
        d.log2()
    }

    open spec fn configured(regs: AdcRegisters, s: AdcSettings) -> AdcRegisters {
        AdcRegisters {
            adcsra: 0x80u8 | s.clock_divider.log2(),
            admux: spec_reference_bits(s.ref_voltage),
            ..regs
        }
    }

    open spec fn mux_code(src: Source) -> Option<u8> {
        spec_mux_code(src)
    }

    open spec fn with_channel(regs: AdcRegisters, code: u8) -> AdcRegisters {
        AdcRegisters { admux: (regs.admux & 0xf0u8) | (code & 0x0fu8), ..regs }
    }

    open spec fn selected(regs: AdcRegisters) -> u8 {
        regs.admux & 0x0fu8
    }

    fn prescaler(d: ClockDivider) -> (r: u8) {
        match d {
            ClockDivider::Factor2 => 1,
            ClockDivider::Factor4 => 2,
            ClockDivider::Factor8 => 3,
            ClockDivider::Factor16 => 4,
            ClockDivider::Factor32 => 5,
            ClockDivider::Factor64 => 6,
            ClockDivider::Factor128 => 7,
        }
    }

    fn apply_settings(regs: &mut AdcRegisters, s: AdcSettings) {
        regs.adcsra = 0x80u8 | Self::prescaler(s.clock_divider);
        regs.admux = match s.ref_voltage {
            ReferenceVoltage::Aref => 0x40u8,
            ReferenceVoltage::AVcc => 0x00u8,
            ReferenceVoltage::Internal1_1 => 0x80u8,
            _ => 0x90u8,
        };
    }

    fn code_of(src: Source) -> (r: Option<u8>) {
        match src {
            Source::Pin(PinId { port: PortId::B, bit: 5 }) => Some(0u8),
            Source::Pin(PinId { port: PortId::B, bit: 2 }) => Some(1u8),
            Source::Pin(PinId { port: PortId::B, bit: 4 }) => Some(2u8),
            Source::Pin(PinId { port: PortId::B, bit: 3 }) => Some(3u8),
            Source::Vbg => Some(12u8),
            Source::Gnd => Some(13u8),
            Source::Temperature => Some(15u8),
            _ => None,
        }
    }

    fn set_channel(regs: &mut AdcRegisters, code: u8) {
        regs.admux = (regs.admux & 0xf0u8) | (code & 0x0fu8);
    }

    fn selected_channel(regs: &AdcRegisters) -> (r: u8) {
        regs.admux & 0x0fu8
    }

    proof fn lemma_prescaler_monotonic(a: ClockDivider, b: ClockDivider) {
    }

    proof fn lemma_codes_unique(a: Source, b: Source) {
    }

    proof fn lemma_configured_idempotent(regs: AdcRegisters, s: AdcSettings) {
    }

    proof fn lemma_channel_readback(regs: AdcRegisters, src: Source) {
        let code = spec_mux_code(src)->0;
        let m = regs.admux;
        assert(code <= 15);
        assert((((m & 0xf0u8) | (code & 0x0fu8)) & 0x0fu8) == code) by (bit_vector)
            requires code <= 15u8;
    }

    proof fn lemma_has_ground_and_temperature() {
    }
}

} // verus!
