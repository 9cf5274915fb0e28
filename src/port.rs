//! Ports and pins whose electrical mode is part of their type.

use vstd::prelude::*;
use core::marker::PhantomData;
use crate::bits::{bit, with_bit_set, with_bit_clear, with_bit_toggled, set_bit, clear_bit, toggle_bit, test_bit, lemma_set, lemma_clear};

verus! {

/// The letter that names a port.
#[derive(Debug, Clone, Copy, PartialEq, Eq, Structural)]
pub enum PortId {
    A,
    B,
    C,
    D,
    E,
    F,
}

/// A physical pin: its port and its bit in that port's registers.
#[derive(Debug, Clone, Copy, PartialEq, Eq, Structural)]
pub struct PinId {
    pub port: PortId,
    pub bit: u8,
}

/// Mode of a pin that drives its level.
pub struct Output;

/// Mode of a pin that reads its level; `M` says how it is pulled.
pub struct Input<M> {
    pull: PhantomData<M>,
}

/// Input without internal pull-up.
pub struct Floating;

/// Input with the internal pull-up enabled.
pub struct PullUp;

/// The three registers of one port.
#[derive(Debug, Clone, Copy, PartialEq, Eq, Structural)]
pub struct PortRegisters {
    /// Direction register: a one makes the pin an output.
    pub ddr: u8,
    /// Output-data register: the driven level of an output, the pull-up
    /// enable of an input.
    pub data: u8,
    /// Input-data register: the level seen on each pin.
    pub input: u8,
}

/// The register group of one port and the record of which of its pins have
/// been handed out.
pub struct Port {
    /// Which port this is.
    id: PortId,
    /// Its registers.
    regs: PortRegisters,
    /// The bits that exist on this port.
    available: u8,
    /// The bits whose pin has been handed out.
    taken: u8,
}

/// Registers after making pin `b` an output.
pub open spec fn spec_into_output(p: PortRegisters, b: u8) -> PortRegisters {
    PortRegisters { ddr: with_bit_set(p.ddr, b), ..p }
}

/// Registers after making pin `b` a floating input.
pub open spec fn spec_into_floating_input(p: PortRegisters, b: u8) -> PortRegisters {
    PortRegisters { ddr: with_bit_clear(p.ddr, b), data: with_bit_clear(p.data, b), ..p }
}

/// Registers after making pin `b` an input with pull-up: direction cleared
/// first, then the pull-up enabled.
pub open spec fn spec_into_pull_up_input(p: PortRegisters, b: u8) -> PortRegisters {
    PortRegisters { ddr: with_bit_clear(p.ddr, b), data: with_bit_set(p.data, b), ..p }
}

/// Pins of each port on the ATmega328P, as a bit mask.
pub open spec fn spec_atmega328p_pins(id: PortId) -> u8 {
    match id {
        PortId::B => 0xff,
        PortId::C => 0x7f,
        PortId::D => 0xff,
        _ => 0,
    }
}

/// Pins of each port on the ATmega32U4, as a bit mask.
pub open spec fn spec_atmega32u4_pins(id: PortId) -> u8 {
    match id {
        PortId::B => 0xff,
        PortId::C => 0xc0,
        PortId::D => 0xff,
        PortId::E => 0x44,
        PortId::F => 0xf3,
        _ => 0,
    }
}

/// Pins of each port on the ATmega328P, as a bit mask.
pub fn atmega328p_pins(id: PortId) -> (r: u8)
    ensures
        r == spec_atmega328p_pins(id),
{
    match id {
        PortId::B => 0xff,
        PortId::C => 0x7f,
        PortId::D => 0xff,
        _ => 0,
    }
}

/// Pins of each port on the ATmega32U4, as a bit mask.
pub fn atmega32u4_pins(id: PortId) -> (r: u8)
    ensures
        r == spec_atmega32u4_pins(id),
{
    match id {
        PortId::B => 0xff,
        PortId::C => 0xc0,
        PortId::D => 0xff,
        PortId::E => 0x44,
        PortId::F => 0xf3,
        _ => 0,
    }
}

impl Port {
    /// Which port this is.
    pub closed spec fn spec_id(&self) -> PortId {
        self.id
    }

    /// The current register contents.
    pub closed spec fn spec_regs(&self) -> PortRegisters {
        self.regs
    }

    /// The bits that exist on this port.
    pub closed spec fn spec_available(&self) -> u8 {
        self.available
    }

    /// The bits whose pin has been handed out.
    pub closed spec fn spec_taken(&self) -> u8 {
        self.taken
    }

    /// A port in its reset state, with the pins in `available` not yet
    /// handed out.
    pub fn new(id: PortId, available: u8) -> (r: Port)
        ensures
            r.spec_id() == id,
            r.spec_regs() == (PortRegisters { ddr: 0, data: 0, input: 0 }),
            r.spec_available() == available,
            r.spec_taken() == 0,
    {
        Port { id, regs: PortRegisters { ddr: 0, data: 0, input: 0 }, available, taken: 0 }
    }

    /// Which port this is.
    pub fn id(&self) -> (r: PortId)
        ensures
            r == self.spec_id(),
    {
        self.id
    }

    /// The current register contents.
    pub fn regs(&self) -> (r: PortRegisters)
        ensures
            r == self.spec_regs(),
    {
        self.regs
    }

    /// Records the levels that the outside world applies to the pins.
    pub fn set_input(&mut self, levels: u8)
        ensures
            final(self).spec_regs() == (PortRegisters { input: levels, ..old(self).spec_regs() }),
            final(self).spec_id() == old(self).spec_id(),
            final(self).spec_available() == old(self).spec_available(),
            final(self).spec_taken() == old(self).spec_taken(),
    {
        self.regs.input = levels;
    }

    /// Hands out pin `b` as a floating input, once: a pin that does not
    /// exist on this port or was handed out before gives `None`.
    pub fn take_pin(&mut self, b: u8) -> (r: Option<Pin<Input<Floating>>>)
        ensures
            r is Some <==> (b < 8 && bit(old(self).spec_available(), b) && !bit(old(self).spec_taken(), b)),
            r is Some ==> r->0.id() == (PinId { port: old(self).spec_id(), bit: b }) && r->0.wf(),
            r is Some ==> final(self).spec_taken() == with_bit_set(old(self).spec_taken(), b),
            r is None ==> final(self).spec_taken() == old(self).spec_taken(),
            final(self).spec_id() == old(self).spec_id(),
            final(self).spec_regs() == old(self).spec_regs(),
            final(self).spec_available() == old(self).spec_available(),
    {
        if b >= 8 || !test_bit(self.available, b) || test_bit(self.taken, b) {
            return None;
        }
        self.taken = set_bit(self.taken, b);
        Some(Pin { port: self.id, bit: b, mode: PhantomData })
    }
}

/// A pin in mode `MODE`. It is handed out once by its port, and every
/// change of mode consumes it and returns a new one.
pub struct Pin<MODE> {
    port: PortId,
    bit: u8,
    mode: PhantomData<MODE>,
}

impl<MODE> Pin<MODE> {
    /// Which physical pin this is.
    pub closed spec fn id(&self) -> PinId {
        PinId { port: self.port, bit: self.bit }
    }

    /// A pin's bit index is below eight.
    pub closed spec fn wf(&self) -> bool {
        self.bit < 8
    }

    /// Which physical pin this is.
    pub fn pin_id(&self) -> (r: PinId)
        ensures
            r == self.id(),
    {
        PinId { port: self.port, bit: self.bit }
    }

    /// Makes the pin an output; its driven level is what the output-data
    /// register holds.
    pub fn into_output(self, port: &mut Port) -> (r: Pin<Output>)
        requires
            self.wf(),
            old(port).spec_id() == self.id().port,
        ensures
            r.wf(),
            r.id() == self.id(),
            final(port).spec_regs() == spec_into_output(old(port).spec_regs(), self.id().bit),
            final(port).spec_id() == old(port).spec_id(),
            final(port).spec_available() == old(port).spec_available(),
            final(port).spec_taken() == old(port).spec_taken(),
    {
        port.regs.ddr = set_bit(port.regs.ddr, self.bit);
        Pin { port: self.port, bit: self.bit, mode: PhantomData }
    }

    /// Makes the pin an input without pull-up.
    pub fn into_floating_input(self, port: &mut Port) -> (r: Pin<Input<Floating>>)
        requires
            self.wf(),
            old(port).spec_id() == self.id().port,
        ensures
            r.wf(),
            r.id() == self.id(),
            final(port).spec_regs() == spec_into_floating_input(old(port).spec_regs(), self.id().bit),
            final(port).spec_id() == old(port).spec_id(),
            final(port).spec_available() == old(port).spec_available(),
            final(port).spec_taken() == old(port).spec_taken(),
    {
        port.regs.ddr = clear_bit(port.regs.ddr, self.bit);
        port.regs.data = clear_bit(port.regs.data, self.bit);
        Pin { port: self.port, bit: self.bit, mode: PhantomData }
    }

    /// Makes the pin an input with the internal pull-up: the direction bit
    /// is cleared before the output-data bit is set.
    pub fn into_pull_up_input(self, port: &mut Port) -> (r: Pin<Input<PullUp>>)
        requires
            self.wf(),
            old(port).spec_id() == self.id().port,
        ensures
            r.wf(),
            r.id() == self.id(),
            final(port).spec_regs() == spec_into_pull_up_input(old(port).spec_regs(), self.id().bit),
            final(port).spec_id() == old(port).spec_id(),
            final(port).spec_available() == old(port).spec_available(),
            final(port).spec_taken() == old(port).spec_taken(),
    {
        port.regs.ddr = clear_bit(port.regs.ddr, self.bit);
        port.regs.data = set_bit(port.regs.data, self.bit);
        Pin { port: self.port, bit: self.bit, mode: PhantomData }
    }
}

impl Pin<Output> {
    /// Drives the pin high.
    pub fn set_high(&mut self, port: &mut Port)
        requires
            old(self).wf(),
            old(port).spec_id() == old(self).id().port,
        ensures
            *final(self) == *old(self),
            final(port).spec_regs() == (PortRegisters { data: with_bit_set(old(port).spec_regs().data, old(self).id().bit), ..old(port).spec_regs() }),
            final(port).spec_id() == old(port).spec_id(),
            final(port).spec_available() == old(port).spec_available(),
            final(port).spec_taken() == old(port).spec_taken(),
    {
        port.regs.data = set_bit(port.regs.data, self.bit);
    }

    /// Drives the pin low.
    pub fn set_low(&mut self, port: &mut Port)
        requires
            old(self).wf(),
            old(port).spec_id() == old(self).id().port,
        ensures
            *final(self) == *old(self),
            final(port).spec_regs() == (PortRegisters { data: with_bit_clear(old(port).spec_regs().data, old(self).id().bit), ..old(port).spec_regs() }),
            final(port).spec_id() == old(port).spec_id(),
            final(port).spec_available() == old(port).spec_available(),
            final(port).spec_taken() == old(port).spec_taken(),
    {
        port.regs.data = clear_bit(port.regs.data, self.bit);
    }

    /// Inverts the driven level.
    pub fn toggle(&mut self, port: &mut Port)
        requires
            old(self).wf(),
            old(port).spec_id() == old(self).id().port,
        ensures
            *final(self) == *old(self),
            final(port).spec_regs() == (PortRegisters { data: with_bit_toggled(old(port).spec_regs().data, old(self).id().bit), ..old(port).spec_regs() }),
            final(port).spec_id() == old(port).spec_id(),
            final(port).spec_available() == old(port).spec_available(),
            final(port).spec_taken() == old(port).spec_taken(),
    {
        port.regs.data = toggle_bit(port.regs.data, self.bit);
    }

    /// Whether the level read back on the pin is high.
    pub fn is_high(&self, port: &Port) -> (r: bool)
        requires
            self.wf(),
            port.spec_id() == self.id().port,
        ensures
            r == bit(port.spec_regs().input, self.id().bit),
    {
        test_bit(port.regs.input, self.bit)
    }

    /// Whether the level read back on the pin is low.
    pub fn is_low(&self, port: &Port) -> (r: bool)
        requires
            self.wf(),
            port.spec_id() == self.id().port,
        ensures
            r == !bit(port.spec_regs().input, self.id().bit),
    {
        !test_bit(port.regs.input, self.bit)
    }
}

impl<M> Pin<Input<M>> {
    /// Whether the level on the pin is high.
    pub fn is_high(&self, port: &Port) -> (r: bool)
        requires
            self.wf(),
            port.spec_id() == self.id().port,
        ensures
            r == bit(port.spec_regs().input, self.id().bit),
    {
        test_bit(port.regs.input, self.bit)
    }

    /// Whether the level on the pin is low.
    pub fn is_low(&self, port: &Port) -> (r: bool)
        requires
            self.wf(),
            port.spec_id() == self.id().port,
        ensures
            r == !bit(port.spec_regs().input, self.id().bit),
    {
        !test_bit(port.regs.input, self.bit)
    }
}

/// Making a pin an input with pull-up leaves its direction bit clear and its
/// output-data bit set, whatever mode it had before, and touches no other
/// pin of the port. In particular output, then floating input, then pull-up
/// input ends in that state.
pub proof fn pull_up_input_from_any_mode(p: PortRegisters, b: u8)
    requires
        b < 8,
    ensures
        !bit(spec_into_pull_up_input(p, b).ddr, b),
        bit(spec_into_pull_up_input(p, b).data, b),
        forall|i: u8| i < 8 && i != b ==> bit(#[trigger] spec_into_pull_up_input(p, b).ddr, i) == bit(p.ddr, i)
            && bit(spec_into_pull_up_input(p, b).data, i) == bit(p.data, i),
        !bit(spec_into_pull_up_input(spec_into_floating_input(spec_into_output(p, b), b), b).ddr, b),
        bit(spec_into_pull_up_input(spec_into_floating_input(spec_into_output(p, b), b), b).data, b),
{
    lemma_clear(p.ddr, b);
    lemma_set(p.data, b);
    let q = spec_into_floating_input(spec_into_output(p, b), b);
    lemma_clear(q.ddr, b);
    lemma_set(q.data, b);
}

} // verus!
