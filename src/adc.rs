//! Analog-to-digital converter: settings, channels and the blocking
//! conversion protocol.
#![allow(non_camel_case_types)]

use vstd::prelude::*;
use crate::channel::{ChannelSource, Source};
use core::marker::PhantomData;

verus! {

/// Division factor between the system clock and the ADC clock.
#[derive(Debug, Clone, Copy, PartialEq, Eq, Structural)]
pub enum ClockDivider {
    Factor2,
    Factor4,
    Factor8,
    Factor16,
    Factor32,
    Factor64,
    Factor128,
}

impl ClockDivider {
    /// The division factor as a number.
    pub open spec fn factor(self) -> nat {
        match self {
            ClockDivider::Factor2 => 2,
            ClockDivider::Factor4 => 4,
            ClockDivider::Factor8 => 8,
            ClockDivider::Factor16 => 16,
            ClockDivider::Factor32 => 32,
            ClockDivider::Factor64 => 64,
            ClockDivider::Factor128 => 128,
        }
    }

    /// Base-two logarithm of the division factor.
    pub open spec fn log2(self) -> u8 {
        match self {
            ClockDivider::Factor2 => 1,
            ClockDivider::Factor4 => 2,
            ClockDivider::Factor8 => 3,
            ClockDivider::Factor16 => 4,
            ClockDivider::Factor32 => 5,
            ClockDivider::Factor64 => 6,
            ClockDivider::Factor128 => 7,
        }
    }
}

impl Default for ClockDivider {
    /// The slowest ADC clock, which suits every system clock.
    fn default() -> (r: Self)
        ensures
            r == ClockDivider::Factor128,
    {
        ClockDivider::Factor128
    }
}

/// Select the voltage reference for the ADC peripheral.
///
/// Not every chip offers every reference: a chip's `has_reference` says which
/// ones it does, and the ADC refuses the others before the program runs.
/// The internal references may not be used while an external voltage is
/// applied to the AREF pin.
#[derive(Debug, Clone, Copy, PartialEq, Eq, Structural)]
pub enum ReferenceVoltage {
    /// Voltage applied to the AREF pin.
    Aref,
    /// Supply voltage (default).
    AVcc,
    /// Internal 0.55V reference.
    Internal0_55,
    /// Internal 1.1V reference.
    Internal1_1,
    /// Internal 1.5V reference.
    Internal1_5,
    /// Internal 2.5V reference.
    Internal2_5,
    /// Internal 2.56V reference.
    Internal2_56,
    /// Internal 4.3V reference.
    Internal4_3,
}

impl Default for ReferenceVoltage {
    fn default() -> (r: Self)
        ensures
            r == ReferenceVoltage::AVcc,
    {
        ReferenceVoltage::AVcc
    }
}

/// Configuration for the ADC peripheral.
#[derive(Debug, Clone, Copy, PartialEq, Eq, Structural)]
pub struct AdcSettings {
    pub clock_divider: ClockDivider,
    pub ref_voltage: ReferenceVoltage,
}

impl Default for AdcSettings {
    fn default() -> (r: Self)
        ensures
            r.clock_divider == ClockDivider::Factor128,
            r.ref_voltage == ReferenceVoltage::AVcc,
    {
        AdcSettings { clock_divider: ClockDivider::default(), ref_voltage: ReferenceVoltage::default() }
    }
}

/// The ADC's configuration registers. Each chip uses the ones its data
/// sheet lists and leaves the others alone.
#[derive(Debug, Clone, Copy, PartialEq, Eq, Structural)]
pub struct AdcRegisters {
    /// Control and status register A: enable (bit 7) and prescaler (bits 2..0).
    pub adcsra: u8,
    /// Multiplexer selection: reference bits and channel field.
    pub admux: u8,
    /// Analog miscellaneous control: AREF pin enable (bit 2).
    pub amiscr: u8,
    /// Control register C: reference selection (bits 5..4) and prescaler (bits 2..0).
    pub ctrlc: u8,
    /// Positive multiplexer input (bits 4..0).
    pub muxpos: u8,
    /// Level of the internal reference block (bits 6..4).
    pub vref_ctrla: u8,
}

impl AdcRegisters {
    /// All registers at their reset value.
    pub fn reset() -> (r: AdcRegisters)
        ensures
            r == (AdcRegisters { adcsra: 0, admux: 0, amiscr: 0, ctrlc: 0, muxpos: 0, vref_ctrla: 0 }),
    {
        AdcRegisters { adcsra: 0, admux: 0, amiscr: 0, ctrlc: 0, muxpos: 0, vref_ctrla: 0 }
    }
}

/// What distinguishes one chip's ADC from another's: which references it
/// offers, how settings and channels are encoded in its registers, and which
/// sources its multiplexer can select.
pub trait AdcChip {
    /// Whether the chip offers reference `r`.
    spec fn has_reference(r: ReferenceVoltage) -> bool;

    /// The prescaler bit pattern for divider `d`.
    spec fn prescaler_code(d: ClockDivider) -> u8;

    /// The registers after applying `s` to `regs`.
    spec fn configured(regs: AdcRegisters, s: AdcSettings) -> AdcRegisters;

    /// The multiplexer code of `src`, if the chip can convert it.
    spec fn mux_code(src: Source) -> Option<u8>;

    /// The registers after selecting multiplexer code `code`.
    spec fn with_channel(regs: AdcRegisters, code: u8) -> AdcRegisters;

    /// The multiplexer code that `regs` select.
    spec fn selected(regs: AdcRegisters) -> u8;

    /// The prescaler bit pattern for divider `d`.
    fn prescaler(d: ClockDivider) -> (r: u8)
        ensures
            r == Self::prescaler_code(d),
    ;

    /// Writes `s` into the registers.
    fn apply_settings(regs: &mut AdcRegisters, s: AdcSettings)
        requires
            Self::has_reference(s.ref_voltage),
        ensures
            *final(regs) == Self::configured(*old(regs), s),
    ;

    /// The multiplexer code of `src`, if the chip can convert it.
    fn code_of(src: Source) -> (r: Option<u8>)
        ensures
            r == Self::mux_code(src),
    ;

    /// Selects multiplexer code `code`.
    fn set_channel(regs: &mut AdcRegisters, code: u8)
        ensures
            *final(regs) == Self::with_channel(*old(regs), code),
    ;

    /// The multiplexer code that `regs` select.
    fn selected_channel(regs: &AdcRegisters) -> (r: u8)
        ensures
            r == Self::selected(*regs),
    ;

    /// The prescaler pattern fits the three-bit field and grows with the
    /// division factor.
    proof fn lemma_prescaler_monotonic(a: ClockDivider, b: ClockDivider)
        ensures
            Self::prescaler_code(a) < 8,
            a.factor() < b.factor() ==> Self::prescaler_code(a) < Self::prescaler_code(b),
    ;

    /// No two sources share a multiplexer code.
    proof fn lemma_codes_unique(a: Source, b: Source)
        ensures
            Self::mux_code(a) is Some && Self::mux_code(a) == Self::mux_code(b) ==> a == b,
    ;

    /// Applying the same settings a second time changes nothing.
    proof fn lemma_configured_idempotent(regs: AdcRegisters, s: AdcSettings)
        ensures
            Self::configured(Self::configured(regs, s), s) == Self::configured(regs, s),
    ;

    /// A selected code is read back as it was written.
    proof fn lemma_channel_readback(regs: AdcRegisters, src: Source)
        requires
            Self::mux_code(src) is Some,
        ensures
            Self::selected(Self::with_channel(regs, Self::mux_code(src)->0)) == Self::mux_code(src)->0,
    ;

    /// Every chip can convert ground and the temperature sensor.
    proof fn lemma_has_ground_and_temperature()
        ensures
            Self::mux_code(Source::Gnd) is Some,
            Self::mux_code(Source::Temperature) is Some,
    ;
}

/// A multiplexer code of chip `C`, made only from a source that the chip can
/// convert.
pub struct Channel<C> {
    code: u8,
    chip: PhantomData<C>,
}

impl<C: AdcChip> Channel<C> {
    /// The multiplexer code.
    pub closed spec fn spec_code(&self) -> u8 {
        self.code
    }

    /// The channel that selects `src`.
    pub fn of(src: Source) -> (r: Channel<C>)
        requires
            C::mux_code(src) is Some,
        ensures
            r.spec_code() == C::mux_code(src)->0,
    {
        let code = C::code_of(src).unwrap();
        Channel { code, chip: PhantomData }
    }

    /// The multiplexer code.
    pub fn code(&self) -> (r: u8)
        ensures
            r == self.spec_code(),
    {
        self.code
    }
}

/// Largest result of a ten-bit conversion.
pub const MAX_READING: u16 = 1023;

/// Status polls that a conversion takes before its result is ready.
pub const CONVERSION_POLLS: u8 = 13;

/// A level as the converter reports it: saturated at full scale.
pub open spec fn saturate(v: u16) -> u16 {
    if v > MAX_READING {
        MAX_READING
    } else {
        v
    }
}

/// The ADC peripheral of chip `C` with the analog world around it: the
/// configuration registers, the level on each multiplexer input, the die
/// temperature, and the conversion in progress. Ground always reads zero and
/// the temperature sensor reads the temperature.
pub struct AdcPeripheral<C> {
    regs: AdcRegisters,
    levels: Vec<u16>,
    temperature: u16,
    converting: bool,
    remaining: u8,
    latched: u8,
    result: u16,
    chip: PhantomData<C>,
}

impl<C: AdcChip> AdcPeripheral<C> {
    /// The configuration registers.
    pub closed spec fn spec_regs(&self) -> AdcRegisters {
        self.regs
    }

    /// The level applied to each multiplexer code, by code.
    pub closed spec fn spec_levels(&self) -> Seq<u16> {
        self.levels@
    }

    /// The die temperature, in sensor units.
    pub closed spec fn spec_temperature(&self) -> u16 {
        self.temperature
    }

    /// Whether a conversion is running.
    pub closed spec fn is_converting(&self) -> bool {
        self.converting
    }

    /// Polls left before the running conversion ends.
    pub closed spec fn spec_remaining(&self) -> u8 {
        self.remaining
    }

    /// The code that the running or last conversion samples.
    pub closed spec fn spec_latched(&self) -> u8 {
        self.latched
    }

    /// The result register.
    pub closed spec fn spec_result(&self) -> u16 {
        self.result
    }

    /// A conversion runs exactly while polls are left.
    pub closed spec fn wf(&self) -> bool {
        self.converting <==> self.remaining > 0
    }

    /// Well formed and not converting.
    pub open spec fn is_idle(&self) -> bool {
        self.wf() && !self.is_converting()
    }

    /// What a conversion of multiplexer code `code` yields.
    pub open spec fn level(&self, code: u8) -> u16 {
        if C::mux_code(Source::Gnd) == Some(code) {
            0
        } else if C::mux_code(Source::Temperature) == Some(code) {
            saturate(self.spec_temperature())
        } else if (code as int) < self.spec_levels().len() {
            saturate(self.spec_levels()[code as int])
        } else {
            0
        }
    }

    /// The peripheral at reset, with `levels[code]` applied to each
    /// multiplexer code and the die at `temperature`.
    pub fn new(levels: Vec<u16>, temperature: u16) -> (r: AdcPeripheral<C>)
        ensures
            r.spec_regs() == (AdcRegisters { adcsra: 0, admux: 0, amiscr: 0, ctrlc: 0, muxpos: 0, vref_ctrla: 0 }),
            r.spec_levels() == levels@,
            r.spec_temperature() == temperature,
            r.spec_result() == 0,
            r.is_idle(),
    {
        AdcPeripheral {
            regs: AdcRegisters::reset(),
            levels,
            temperature,
            converting: false,
            remaining: 0,
            latched: 0,
            result: 0,
            chip: PhantomData,
        }
    }

    /// The configuration registers.
    pub fn registers(&self) -> (r: AdcRegisters)
        ensures
            r == self.spec_regs(),
    {
        self.regs
    }

    /// Changes the die temperature.
    pub fn set_temperature(&mut self, temperature: u16)
        ensures
            final(self).spec_temperature() == temperature,
            final(self).spec_regs() == old(self).spec_regs(),
            final(self).spec_levels() == old(self).spec_levels(),
            final(self).spec_result() == old(self).spec_result(),
            final(self).is_converting() == old(self).is_converting(),
            final(self).wf() == old(self).wf(),
    {
        self.temperature = temperature;
    }

    /// What a conversion of multiplexer code `code` yields.
    fn sample(&self, code: u8) -> (r: u16)
        ensures
            r == self.level(code),
    {
        let gnd = C::code_of(Source::Gnd);
        let temp = C::code_of(Source::Temperature);
        let v: u16 = if gnd == Some(code) {
            0
        } else if temp == Some(code) {
            self.temperature
        } else if (code as usize) < self.levels.len() {
            self.levels[code as usize]
        } else {
            0
        };
        if v > MAX_READING {
            MAX_READING
        } else {
            v
        }
    }

    /// Sets the start bit: the conversion samples the selected code.
    fn start_conversion(&mut self)
        requires
            old(self).is_idle(),
        ensures
            final(self).wf(),
            final(self).is_converting(),
            final(self).spec_latched() == C::selected(old(self).spec_regs()),
            final(self).spec_regs() == old(self).spec_regs(),
            final(self).spec_levels() == old(self).spec_levels(),
            final(self).spec_temperature() == old(self).spec_temperature(),
    {
        self.latched = C::selected_channel(&self.regs);
        self.remaining = CONVERSION_POLLS;
        self.converting = true;
    }

    /// Reads the start bit, which stays set until the result is ready. Each
    /// poll lets the conversion advance by one step.
    fn poll(&mut self) -> (busy: bool)
        requires
            old(self).wf(),
        ensures
            final(self).wf(),
            busy == final(self).is_converting(),
            old(self).is_converting() ==> final(self).spec_remaining() < old(self).spec_remaining(),
            old(self).is_converting() && !busy ==> final(self).spec_result() == old(self).level(old(self).spec_latched()),
            !old(self).is_converting() ==> final(self).spec_result() == old(self).spec_result(),
            final(self).spec_latched() == old(self).spec_latched(),
            final(self).spec_regs() == old(self).spec_regs(),
            final(self).spec_levels() == old(self).spec_levels(),
            final(self).spec_temperature() == old(self).spec_temperature(),
    {
        if self.converting {
            self.remaining = self.remaining - 1;
            if self.remaining == 0 {
                self.result = self.sample(self.latched);
                self.converting = false;
            }
        }
        self.converting
    }
}

/// The ADC controller of chip `C`. `CLOCK` names the system clock rate; it
/// has no value at run time. The controller owns the peripheral, so there is
/// one per ADC, and it is idle between calls.
pub struct Adc<C, CLOCK> {
    p: AdcPeripheral<C>,
    clock: PhantomData<CLOCK>,
}

impl<C: AdcChip, CLOCK> Adc<C, CLOCK> {
    /// The peripheral this controller owns.
    pub closed spec fn peripheral(&self) -> AdcPeripheral<C> {
        self.p
    }

    /// Takes the peripheral and applies `settings`.
    pub fn new(p: AdcPeripheral<C>, settings: AdcSettings) -> (r: Adc<C, CLOCK>)
        requires
            C::has_reference(settings.ref_voltage),
            p.is_idle(),
        ensures
            r.peripheral().spec_regs() == C::configured(p.spec_regs(), settings),
            r.peripheral().spec_levels() == p.spec_levels(),
            r.peripheral().spec_temperature() == p.spec_temperature(),
            r.peripheral().is_idle(),
    {
        let mut adc = Adc { p, clock: PhantomData };
        adc.apply_settings(settings);
        adc
    }

    /// Applies `settings` to the peripheral again.
    pub fn apply_settings(&mut self, settings: AdcSettings)
        requires
            C::has_reference(settings.ref_voltage),
            old(self).peripheral().is_idle(),
        ensures
            final(self).peripheral().spec_regs() == C::configured(old(self).peripheral().spec_regs(), settings),
            final(self).peripheral().spec_levels() == old(self).peripheral().spec_levels(),
            final(self).peripheral().spec_temperature() == old(self).peripheral().spec_temperature(),
            final(self).peripheral().is_idle(),
    {
        C::apply_settings(&mut self.p.regs, settings);
    }

    /// The configuration registers.
    pub fn registers(&self) -> (r: AdcRegisters)
        ensures
            r == self.peripheral().spec_regs(),
    {
        self.p.registers()
    }

    /// Hands the peripheral back.
    pub fn release(self) -> (r: AdcPeripheral<C>)
        ensures
            r == self.peripheral(),
    {
        self.p
    }

    /// Converts `src`: selects its channel, starts the conversion, waits for
    /// the result and returns it. Ground reads zero.
    pub fn read_blocking<S: ChannelSource>(&mut self, src: &S) -> (r: u16)
        requires
            C::mux_code(src.spec_source()) is Some,
            old(self).peripheral().is_idle(),
        ensures
            r == old(self).peripheral().level(C::mux_code(src.spec_source())->0),
            r <= MAX_READING,
            src.spec_source() == Source::Gnd ==> r == 0,
            final(self).peripheral().spec_regs() == C::with_channel(
                old(self).peripheral().spec_regs(),
                C::mux_code(src.spec_source())->0,
            ),
            final(self).peripheral().spec_levels() == old(self).peripheral().spec_levels(),
            final(self).peripheral().spec_temperature() == old(self).peripheral().spec_temperature(),
            final(self).peripheral().is_idle(),
    {
        let channel: Channel<C> = Channel::of(src.source());
        self.read_channel(&channel)
    }

    /// Converts the source that `channel` selects.
    pub fn read_channel(&mut self, channel: &Channel<C>) -> (r: u16)
        requires
            exists|s: Source| C::mux_code(s) == Some(channel.spec_code()),
            old(self).peripheral().is_idle(),
        ensures
            r == old(self).peripheral().level(channel.spec_code()),
            r <= MAX_READING,
            final(self).peripheral().spec_regs() == C::with_channel(old(self).peripheral().spec_regs(), channel.spec_code()),
            final(self).peripheral().spec_levels() == old(self).peripheral().spec_levels(),
            final(self).peripheral().spec_temperature() == old(self).peripheral().spec_temperature(),
            final(self).peripheral().is_idle(),
    {
        let code = channel.code();
        proof {
            let s = choose|s: Source| C::mux_code(s) == Some(code);
            C::lemma_channel_readback(self.p.regs, s);
        }
        C::set_channel(&mut self.p.regs, code);
        self.p.start_conversion();
        let ghost started = self.p;
        let mut busy = self.p.poll();
        while busy
            invariant
                self.p.wf(),
                busy == self.p.is_converting(),
                self.p.spec_latched() == code,
                self.p.spec_regs() == started.spec_regs(),
                self.p.spec_levels() == started.spec_levels(),
                self.p.spec_temperature() == started.spec_temperature(),
                !busy ==> self.p.spec_result() == started.level(code),
            decreases self.p.spec_remaining(),
        {
            busy = self.p.poll();
        }
        self.p.result
    }
}

/// Every source that chip `C` can convert has its own multiplexer code: two
/// sources with the same code are the same source.
pub proof fn channel_codes_distinct<C: AdcChip>(a: Source, b: Source)
    requires
        C::mux_code(a) is Some,
        C::mux_code(b) is Some,
        a != b,
    ensures
        C::mux_code(a)->0 != C::mux_code(b)->0,
{
    C::lemma_codes_unique(a, b);
}

/// Every clock divider has a prescaler pattern that fits the three-bit field;
/// a larger factor has a larger pattern, so distinct dividers have distinct
/// patterns.
pub proof fn prescaler_encoding<C: AdcChip>(a: ClockDivider, b: ClockDivider)
    ensures
        C::prescaler_code(a) < 8,
        a.factor() < b.factor() ==> C::prescaler_code(a) < C::prescaler_code(b),
        a != b ==> C::prescaler_code(a) != C::prescaler_code(b),
{
    C::lemma_prescaler_monotonic(a, b);
    C::lemma_prescaler_monotonic(b, a);
}

/// Applying the same settings twice leaves the registers as one application
/// does.
pub proof fn apply_settings_idempotent<C: AdcChip>(regs: AdcRegisters, s: AdcSettings)
    ensures
        C::configured(C::configured(regs, s), s) == C::configured(regs, s),
{
    C::lemma_configured_idempotent(regs, s);
}

/// A conversion of ground yields zero, the bottom of the result range.
pub proof fn ground_reads_zero<C: AdcChip>(p: AdcPeripheral<C>)
    ensures
        C::mux_code(Source::Gnd) is Some,
        p.level(C::mux_code(Source::Gnd)->0) == 0,
{
    C::lemma_has_ground_and_temperature();
}

/// A conversion of the temperature sensor does not decrease as the
/// temperature rises.
pub proof fn temperature_reading_monotonic<C: AdcChip>(p: AdcPeripheral<C>, q: AdcPeripheral<C>)
    requires
        p.spec_temperature() <= q.spec_temperature(),
    ensures
        C::mux_code(Source::Temperature) is Some,
        p.level(C::mux_code(Source::Temperature)->0) <= q.level(C::mux_code(Source::Temperature)->0),
{
    C::lemma_has_ground_and_temperature();
    C::lemma_codes_unique(Source::Gnd, Source::Temperature);
}

} // verus!
