//! The ADC of the ATtiny402.

use vstd::prelude::*;
use crate::adc::{AdcChip, AdcRegisters, AdcSettings, ClockDivider, ReferenceVoltage};
use crate::channel::Source;
use crate::port::{PinId, PortId};

verus! {

/// The ATtiny402: six pins on port A, prescaler and reference selection in
/// CTRLC, the internal reference level in the VREF block, channel in MUXPOS.
pub struct Attiny402;

/// VREF.CTRLA contents for internal reference `r` (ADC0REFSEL, bits 6..4).
pub open spec fn spec_vref_level(r: ReferenceVoltage) -> u8 {
    match r {
        ReferenceVoltage::Internal0_55 => 0x00,
        ReferenceVoltage::Internal1_1 => 0x10,
        ReferenceVoltage::Internal2_5 => 0x20,
        ReferenceVoltage::Internal4_3 => 0x30,
        _ => 0x40,
    }
}

/// CTRLC reference selection bits: VDDREF for the supply, INTREF otherwise.
pub open spec fn spec_refsel_bits(r: ReferenceVoltage) -> u8 {
    if r == ReferenceVoltage::AVcc {
        0x10
    } else {
        0x00
    }
}

/// The multiplexer table.
pub open spec fn spec_mux_code(src: Source) -> Option<u8> {
    match src {
        Source::Pin(PinId { port: PortId::A, bit: 0 }) => Some(0u8),
        Source::Pin(PinId { port: PortId::A, bit: 1 }) => Some(1u8),
        Source::Pin(PinId { port: PortId::A, bit: 2 }) => Some(2u8),
        Source::Pin(PinId { port: PortId::A, bit: 3 }) => Some(3u8),
        Source::Pin(PinId { port: PortId::A, bit: 6 }) => Some(6u8),
        Source::Pin(PinId { port: PortId::A, bit: 7 }) => Some(7u8),
        Source::InternalReference => Some(0x1du8),
        Source::Temperature => Some(0x1eu8),
        Source::Gnd => Some(0x1fu8),
        _ => None,
    }
}

impl AdcChip for Attiny402 {
    open spec fn has_reference(r: ReferenceVoltage) -> bool {
        r == ReferenceVoltage::AVcc || r == ReferenceVoltage::Internal0_55 || r == ReferenceVoltage::Internal1_1
            || r == ReferenceVoltage::Internal1_5 || r == ReferenceVoltage::Internal2_5
            || r == ReferenceVoltage::Internal4_3
    }

    open spec fn prescaler_code(d: ClockDivider) -> u8 {
        (d.log2() - 1) as u8
    }

    /// The internal level is only written when an internal reference is
    /// chosen; the supply leaves the VREF block as it was.
    open spec fn configured(regs: AdcRegisters, s: AdcSettings) -> AdcRegisters {
        AdcRegisters {
            ctrlc: Self::prescaler_code(s.clock_divider) | spec_refsel_bits(s.ref_voltage),
            vref_ctrla: if s.ref_voltage == ReferenceVoltage::AVcc {
                regs.vref_ctrla
            } else {
                spec_vref_level(s.ref_voltage)
            },
            ..regs
        }
    }

    open spec fn mux_code(src: Source) -> Option<u8> {
        spec_mux_code(src)
    }

    open spec fn with_channel(regs: AdcRegisters, code: u8) -> AdcRegisters {
        AdcRegisters { muxpos: (regs.muxpos & 0xe0u8) | (code & 0x1fu8), ..regs }
    }

    open spec fn selected(regs: AdcRegisters) -> u8 {
        regs.muxpos & 0x1fu8
    }

    fn prescaler(d: ClockDivider) -> (r: u8) {
        match d {
            ClockDivider::Factor2 => 0,
            ClockDivider::Factor4 => 1,
            ClockDivider::Factor8 => 2,
            ClockDivider::Factor16 => 3,
            ClockDivider::Factor32 => 4,
            ClockDivider::Factor64 => 5,
            ClockDivider::Factor128 => 6,
        }
    }

    /// For an internal reference the VREF block gets its level before CTRLC
    /// switches to it, so the ADC never runs on a stale level.
    fn apply_settings(regs: &mut AdcRegisters, s: AdcSettings) {
        let presc = Self::prescaler(s.clock_divider);
        match s.ref_voltage {
            ReferenceVoltage::AVcc => {
                regs.ctrlc = presc | 0x10u8;
            },
            r => {
                regs.vref_ctrla = match r {
                    ReferenceVoltage::Internal0_55 => 0x00u8,
                    ReferenceVoltage::Internal1_1 => 0x10u8,
                    ReferenceVoltage::Internal2_5 => 0x20u8,
                    ReferenceVoltage::Internal4_3 => 0x30u8,
                    _ => 0x40u8,
                };
                // REFSEL zero selects the internal reference.
                regs.ctrlc = presc;
                assert(presc | 0u8 == presc) by (bit_vector);
            },
        }
    }

    fn code_of(src: Source) -> (r: Option<u8>) {
        match src {
            Source::Pin(PinId { port: PortId::A, bit: 0 }) => Some(0u8),
            Source::Pin(PinId { port: PortId::A, bit: 1 }) => Some(1u8),
            Source::Pin(PinId { port: PortId::A, bit: 2 }) => Some(2u8),
            Source::Pin(PinId { port: PortId::A, bit: 3 }) => Some(3u8),
            Source::Pin(PinId { port: PortId::A, bit: 6 }) => Some(6u8),
            Source::Pin(PinId { port: PortId::A, bit: 7 }) => Some(7u8),
            Source::InternalReference => Some(0x1du8),
            Source::Temperature => Some(0x1eu8),
            Source::Gnd => Some(0x1fu8),
            _ => None,
        }
    }

    fn set_channel(regs: &mut AdcRegisters, code: u8) {
        regs.muxpos = (regs.muxpos & 0xe0u8) | (code & 0x1fu8);
    }

    fn selected_channel(regs: &AdcRegisters) -> (r: u8) {
        regs.muxpos & 0x1fu8
    }

    proof fn lemma_prescaler_monotonic(a: ClockDivider, b: ClockDivider) {
    }

    proof fn lemma_codes_unique(a: Source, b: Source) {
    }

    proof fn lemma_configured_idempotent(regs: AdcRegisters, s: AdcSettings) {
    }

    proof fn lemma_channel_readback(regs: AdcRegisters, src: Source) {
        let code = spec_mux_code(src)->0;
        let m = regs.muxpos;
        assert(code <= 31);
        assert((((m & 0xe0u8) | (code & 0x1fu8)) & 0x1fu8) == code) by (bit_vector)
            requires code <= 31u8;
    }

    proof fn lemma_has_ground_and_temperature() {
    }
}

} // verus!
