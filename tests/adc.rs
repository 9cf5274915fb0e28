use avr_hal::adc::{Adc, AdcChip, AdcPeripheral, AdcRegisters, AdcSettings, Channel, ClockDivider, ReferenceVoltage, MAX_READING};
use avr_hal::attiny167::Attiny167;
use avr_hal::attiny402::Attiny402;
use avr_hal::attiny85::Attiny85;
use avr_hal::attiny88::Attiny88;
use avr_hal::channel::{AVcc_4, Gnd, InternalReference, Source, Temperature, Vbg};
use avr_hal::port::{PinId, PortId};

struct Clock16MHz;

const DIVIDERS: [ClockDivider; 7] = [
    ClockDivider::Factor2,
    ClockDivider::Factor4,
    ClockDivider::Factor8,
    ClockDivider::Factor16,
    ClockDivider::Factor32,
    ClockDivider::Factor64,
    ClockDivider::Factor128,
];

fn pin(port: PortId, bit: u8) -> Source {
    Source::Pin(PinId { port, bit })
}

fn settings(d: ClockDivider, r: ReferenceVoltage) -> AdcSettings {
    AdcSettings { clock_divider: d, ref_voltage: r }
}

#[test]
fn defaults() {
    assert_eq!(ReferenceVoltage::default(), ReferenceVoltage::AVcc);
    assert_eq!(ClockDivider::default(), ClockDivider::Factor128);
    let s = AdcSettings::default();
    assert_eq!(s, settings(ClockDivider::Factor128, ReferenceVoltage::AVcc));
}

#[test]
fn attiny85_factor64_internal_1v1() {
    let p: AdcPeripheral<Attiny85> = AdcPeripheral::new(vec![], 0);
    let adc: Adc<Attiny85, Clock16MHz> = Adc::new(p, settings(ClockDivider::Factor64, ReferenceVoltage::Internal1_1));
    let r = adc.registers();
    assert_eq!(r.adcsra & 0x07, 0b110);
    assert_eq!(r.adcsra & 0x80, 0x80);
    // REFS1..0 = 10, REFS2 = 0
    assert_eq!(r.admux & 0xd0, 0x80);
}

#[test]
fn attiny402_factor64_internal_1v1() {
    let p: AdcPeripheral<Attiny402> = AdcPeripheral::new(vec![], 0);
    let adc: Adc<Attiny402, Clock16MHz> = Adc::new(p, settings(ClockDivider::Factor64, ReferenceVoltage::Internal1_1));
    let r = adc.registers();
    assert_eq!(r.ctrlc & 0x07, 5);
    assert_eq!(r.ctrlc & 0x30, 0x00);
    assert_eq!(r.vref_ctrla & 0x70, 0x10);
}

#[test]
fn attiny88_and_attiny167_factor64_internal_1v1() {
    let p: AdcPeripheral<Attiny88> = AdcPeripheral::new(vec![], 0);
    let adc: Adc<Attiny88, Clock16MHz> = Adc::new(p, settings(ClockDivider::Factor64, ReferenceVoltage::Internal1_1));
    assert_eq!(adc.registers().adcsra, 0x86);
    assert_eq!(adc.registers().admux & 0x40, 0x00);
    let p: AdcPeripheral<Attiny167> = AdcPeripheral::new(vec![], 0);
    let adc: Adc<Attiny167, Clock16MHz> = Adc::new(p, settings(ClockDivider::Factor64, ReferenceVoltage::Internal1_1));
    assert_eq!(adc.registers().adcsra, 0x86);
    assert_eq!(adc.registers().admux & 0xc0, 0x80);
    assert_eq!(adc.registers().amiscr, 0x00);
}

#[test]
fn reference_encodings() {
    let mut r = AdcRegisters::reset();
    Attiny85::apply_settings(&mut r, settings(ClockDivider::Factor2, ReferenceVoltage::Aref));
    assert_eq!(r.admux, 0x40);
    Attiny85::apply_settings(&mut r, settings(ClockDivider::Factor2, ReferenceVoltage::Internal2_56));
    assert_eq!(r.admux, 0x90);
    Attiny85::apply_settings(&mut r, settings(ClockDivider::Factor2, ReferenceVoltage::AVcc));
    assert_eq!(r.admux, 0x00);

    let mut r = AdcRegisters::reset();
    Attiny167::apply_settings(&mut r, settings(ClockDivider::Factor8, ReferenceVoltage::Aref));
    assert_eq!(r.amiscr, 0x04);
    assert_eq!(r.admux, 0x00);
    Attiny167::apply_settings(&mut r, settings(ClockDivider::Factor8, ReferenceVoltage::Internal2_56));
    assert_eq!(r.amiscr, 0x00);
    assert_eq!(r.admux, 0xc0);

    let mut r = AdcRegisters::reset();
    Attiny88::apply_settings(&mut r, settings(ClockDivider::Factor8, ReferenceVoltage::AVcc));
    assert_eq!(r.admux, 0x40);
}

#[test]
fn attiny402_reference_levels() {
    let cases = [
        (ReferenceVoltage::Internal0_55, 0x00u8),
        (ReferenceVoltage::Internal1_1, 0x10),
        (ReferenceVoltage::Internal2_5, 0x20),
        (ReferenceVoltage::Internal4_3, 0x30),
        (ReferenceVoltage::Internal1_5, 0x40),
    ];
    for (reference, level) in cases {
        let mut r = AdcRegisters::reset();
        r.vref_ctrla = 0x77;
        Attiny402::apply_settings(&mut r, settings(ClockDivider::Factor16, reference));
        assert_eq!(r.vref_ctrla, level);
        assert_eq!(r.ctrlc, 3);
    }
    let mut r = AdcRegisters::reset();
    r.vref_ctrla = 0x30;
    Attiny402::apply_settings(&mut r, settings(ClockDivider::Factor128, ReferenceVoltage::AVcc));
    assert_eq!(r.ctrlc, 0x16);
    assert_eq!(r.vref_ctrla, 0x30);
}

#[test]
fn prescaler_patterns_grow_with_factor() {
    let classic: Vec<u8> = DIVIDERS.iter().map(|d| Attiny85::prescaler(*d)).collect();
    assert_eq!(classic, vec![1, 2, 3, 4, 5, 6, 7]);
    assert_eq!(DIVIDERS.iter().map(|d| Attiny88::prescaler(*d)).collect::<Vec<u8>>(), classic);
    assert_eq!(DIVIDERS.iter().map(|d| Attiny167::prescaler(*d)).collect::<Vec<u8>>(), classic);
    let tiny402: Vec<u8> = DIVIDERS.iter().map(|d| Attiny402::prescaler(*d)).collect();
    assert_eq!(tiny402, vec![0, 1, 2, 3, 4, 5, 6]);
    for w in tiny402.windows(2) {
        assert!(w[0] < w[1]);
    }
}

#[test]
fn apply_settings_twice_equals_once() {
    for d in DIVIDERS {
        for r in [ReferenceVoltage::AVcc, ReferenceVoltage::Internal1_1] {
            let s = settings(d, r);
            let p: AdcPeripheral<Attiny402> = AdcPeripheral::new(vec![], 0);
            let mut adc: Adc<Attiny402, Clock16MHz> = Adc::new(p, s);
            let once = adc.registers();
            adc.apply_settings(s);
            assert_eq!(adc.registers(), once);

            let p: AdcPeripheral<Attiny167> = AdcPeripheral::new(vec![], 0);
            let mut adc: Adc<Attiny167, Clock16MHz> = Adc::new(p, s);
            let once = adc.registers();
            adc.apply_settings(s);
            assert_eq!(adc.registers(), once);
        }
    }
}

#[test]
fn attiny85_channel_table() {
    assert_eq!(Attiny85::code_of(pin(PortId::B, 5)), Some(0));
    assert_eq!(Attiny85::code_of(pin(PortId::B, 2)), Some(1));
    assert_eq!(Attiny85::code_of(pin(PortId::B, 4)), Some(2));
    assert_eq!(Attiny85::code_of(pin(PortId::B, 3)), Some(3));
    assert_eq!(Attiny85::code_of(Source::Vbg), Some(12));
    assert_eq!(Attiny85::code_of(Source::Gnd), Some(13));
    assert_eq!(Attiny85::code_of(Source::Temperature), Some(15));
    assert_eq!(Attiny85::code_of(pin(PortId::B, 0)), None);
    assert_eq!(Attiny85::code_of(Source::AVcc4), None);
    assert_eq!(Attiny85::code_of(Source::InternalReference), None);
}

#[test]
fn attiny88_channel_table() {
    for bit in 0..6u8 {
        assert_eq!(Attiny88::code_of(pin(PortId::C, bit)), Some(bit));
    }
    assert_eq!(Attiny88::code_of(pin(PortId::A, 0)), Some(6));
    assert_eq!(Attiny88::code_of(pin(PortId::A, 1)), Some(7));
    assert_eq!(Attiny88::code_of(Source::Temperature), Some(8));
    assert_eq!(Attiny88::code_of(Source::Vbg), Some(14));
    assert_eq!(Attiny88::code_of(Source::Gnd), Some(15));
    assert_eq!(Attiny88::code_of(pin(PortId::C, 6)), None);
}

#[test]
fn attiny167_channel_table() {
    for bit in 0..8u8 {
        assert_eq!(Attiny167::code_of(pin(PortId::A, bit)), Some(bit));
    }
    assert_eq!(Attiny167::code_of(pin(PortId::B, 5)), Some(8));
    assert_eq!(Attiny167::code_of(pin(PortId::B, 6)), Some(9));
    assert_eq!(Attiny167::code_of(pin(PortId::B, 7)), Some(10));
    assert_eq!(Attiny167::code_of(Source::Temperature), Some(11));
    assert_eq!(Attiny167::code_of(Source::AVcc4), Some(12));
    assert_eq!(Attiny167::code_of(Source::Vbg), Some(13));
    assert_eq!(Attiny167::code_of(Source::Gnd), Some(14));
    assert_eq!(Attiny167::code_of(pin(PortId::B, 4)), None);
}

#[test]
fn attiny402_channel_table() {
    for bit in [0u8, 1, 2, 3, 6, 7] {
        assert_eq!(Attiny402::code_of(pin(PortId::A, bit)), Some(bit));
    }
    assert_eq!(Attiny402::code_of(pin(PortId::A, 4)), None);
    assert_eq!(Attiny402::code_of(Source::InternalReference), Some(0x1d));
    assert_eq!(Attiny402::code_of(Source::Temperature), Some(0x1e));
    assert_eq!(Attiny402::code_of(Source::Gnd), Some(0x1f));
    assert_eq!(Attiny402::code_of(Source::Vbg), None);
}

fn all_sources() -> Vec<Source> {
    let mut v = vec![Source::AVcc4, Source::Vbg, Source::Gnd, Source::Temperature, Source::InternalReference];
    for port in [PortId::A, PortId::B, PortId::C, PortId::D, PortId::E, PortId::F] {
        for bit in 0..8u8 {
            v.push(pin(port, bit));
        }
    }
    v
}

#[test]
fn channel_codes_are_distinct() {
    let tables: [fn(Source) -> Option<u8>; 4] =
        [Attiny85::code_of, Attiny88::code_of, Attiny167::code_of, Attiny402::code_of];
    for code_of in tables {
        let codes: Vec<u8> = all_sources().into_iter().filter_map(code_of).collect();
        let mut sorted = codes.clone();
        sorted.sort();
        sorted.dedup();
        assert_eq!(sorted.len(), codes.len());
    }
}

#[test]
fn channel_of_source() {
    let c: Channel<Attiny167> = Channel::of(Source::AVcc4);
    assert_eq!(c.code(), 12);
}

#[test]
fn ground_reads_zero() {
    let levels = vec![900u16; 32];
    let p: AdcPeripheral<Attiny85> = AdcPeripheral::new(levels.clone(), 500);
    let mut adc: Adc<Attiny85, Clock16MHz> = Adc::new(p, AdcSettings::default());
    assert_eq!(adc.read_blocking(&Gnd), 0);
    let p: AdcPeripheral<Attiny402> = AdcPeripheral::new(levels.clone(), 500);
    let mut adc: Adc<Attiny402, Clock16MHz> = Adc::new(p, AdcSettings::default());
    assert_eq!(adc.read_blocking(&Gnd), 0);
    let p: AdcPeripheral<Attiny88> = AdcPeripheral::new(levels, 500);
    let mut adc: Adc<Attiny88, Clock16MHz> = Adc::new(p, AdcSettings::default());
    assert_eq!(adc.read_blocking(&Gnd), 0);
}

#[test]
fn temperature_reading_follows_temperature() {
    let mut last = 0u16;
    for t in [0u16, 10, 250, 300, 1023, 1500] {
        let p: AdcPeripheral<Attiny85> = AdcPeripheral::new(vec![], t);
        let mut adc: Adc<Attiny85, Clock16MHz> = Adc::new(p, AdcSettings::default());
        let v = adc.read_blocking(&Temperature);
        assert!(v >= last);
        last = v;
    }
    assert_eq!(last, MAX_READING);

    let mut p: AdcPeripheral<Attiny402> = AdcPeripheral::new(vec![], 300);
    p.set_temperature(310);
    let mut adc: Adc<Attiny402, Clock16MHz> = Adc::new(p, AdcSettings::default());
    assert_eq!(adc.read_blocking(&Temperature), 310);
    let mut p = adc.release();
    p.set_temperature(320);
    let mut adc: Adc<Attiny402, Clock16MHz> = Adc::new(p, AdcSettings::default());
    assert_eq!(adc.read_blocking(&Temperature), 320);
}

#[test]
fn internal_sources_read_their_level() {
    let mut levels = vec![0u16; 32];
    levels[12] = 256;
    levels[13] = 1100;
    let p: AdcPeripheral<Attiny167> = AdcPeripheral::new(levels, 0);
    let mut adc: Adc<Attiny167, Clock16MHz> = Adc::new(p, AdcSettings::default());
    assert_eq!(adc.read_blocking(&AVcc_4), 256);
    assert_eq!(adc.read_blocking(&Vbg), MAX_READING);
    assert_eq!(adc.registers().admux & 0x1f, 13);

    let mut levels = vec![0u16; 32];
    levels[0x1d] = 700;
    let p: AdcPeripheral<Attiny402> = AdcPeripheral::new(levels, 0);
    let mut adc: Adc<Attiny402, Clock16MHz> = Adc::new(p, AdcSettings::default());
    assert_eq!(adc.read_blocking(&InternalReference), 700);
    assert_eq!(adc.registers().muxpos, 0x1d);
}

#[test]
fn selecting_a_channel_keeps_the_reference() {
    let mut levels = vec![0u16; 16];
    levels[2] = 345;
    let p: AdcPeripheral<Attiny85> = AdcPeripheral::new(levels, 0);
    let mut adc: Adc<Attiny85, Clock16MHz> =
        Adc::new(p, settings(ClockDivider::Factor8, ReferenceVoltage::Internal2_56));
    let mut levels_port = avr_hal::port::Port::new(PortId::B, 0xff);
    let pb4 = levels_port.take_pin(4).unwrap();
    assert_eq!(adc.read_blocking(&pb4), 345);
    assert_eq!(adc.registers().admux, 0x92);
    assert_eq!(adc.registers().adcsra, 0x83);
}
