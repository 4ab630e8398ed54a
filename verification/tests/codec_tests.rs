//! Field-code encode/decode: every defined code maps to its exact variant,
//! every undefined code maps to the documented default.

use ads122x04::registers::{
    Commands, ConversionMode, Crc, CurrentRoute, CurrentSource, DataRate, Gain, Mux, VRef,
    INTERNAL_REF_MICROVOLTS,
};

#[test]
fn command_opcodes() {
    assert_eq!(Commands::Reset.code(), 0b110);
    assert_eq!(Commands::StartSync.code(), 0b1000);
    assert_eq!(Commands::PowerDown.code(), 0b10);
    assert_eq!(Commands::RData.code(), 0b10000);
    assert_eq!(Commands::RReg.code(), 0b0100000);
    assert_eq!(Commands::WReg.code(), 0b1000000);
}

#[test]
fn gain_valid_codes_decode_exactly() {
    let all = [
        (0b000, Gain::Gain1),
        (0b001, Gain::Gain2),
        (0b010, Gain::Gain4),
        (0b011, Gain::Gain8),
        (0b100, Gain::Gain16),
        (0b101, Gain::Gain32),
        (0b110, Gain::Gain64),
        (0b111, Gain::Gain128),
    ];
    for (code, gain) in all {
        assert_eq!(Gain::from(code), gain);
        assert_eq!(gain.code(), code);
    }
}

#[test]
fn gain_invalid_codes_default() {
    for code in 8..=255u8 {
        assert_eq!(Gain::from(code), Gain::Gain1);
    }
}

#[test]
fn mux_codes() {
    let all = [
        (0b0000, Mux::Ain0Ain1),
        (0b0001, Mux::Ain0Ain2),
        (0b0010, Mux::Ain0Ain3),
        (0b0011, Mux::Ain1Ain0),
        (0b0100, Mux::Ain1Ain2),
        (0b0101, Mux::Ain1Ain3),
        (0b0110, Mux::Ain2Ain3),
        (0b0111, Mux::Ain3Ain2),
        (0b1000, Mux::Ain0Avss),
        (0b1001, Mux::Ain1Avss),
        (0b1010, Mux::Ain2Avss),
        (0b1011, Mux::Ain3Avss),
        (0b1100, Mux::VrefMonitor),
        (0b1101, Mux::AvddMonitor),
        (0b1110, Mux::Shorted),
    ];
    for (code, mux) in all {
        assert_eq!(mux.code(), code);
        assert_eq!(Mux::from(code), mux);
    }
}

#[test]
fn mux_invalid_codes_default() {
    assert_eq!(Mux::from(0b1111), Mux::Ain0Ain1);
    assert_eq!(Mux::from(99), Mux::Ain0Ain1);
}

#[test]
fn data_rate_valid_codes_decode_exactly() {
    let all = [
        (0b0000, DataRate::Sps20Normal),
        (0b0010, DataRate::Sps45Normal),
        (0b0100, DataRate::Sps90Normal),
        (0b0110, DataRate::Sps175Normal),
        (0b1000, DataRate::Sps330Normal),
        (0b1010, DataRate::Sps600Normal),
        (0b1100, DataRate::Sps1000Normal),
        (0b0001, DataRate::Sps40Turbo),
        (0b0011, DataRate::Sps90Turbo),
        (0b0101, DataRate::Sps180Turbo),
        (0b0111, DataRate::Sps350Turbo),
        (0b1001, DataRate::Sps660Turbo),
        (0b1011, DataRate::Sps1200Turbo),
        (0b1101, DataRate::Sps2000Turbo),
    ];
    for (code, rate) in all {
        assert_eq!(DataRate::from(code), rate);
        assert_eq!(rate.code(), code);
    }
}

#[test]
fn data_rate_invalid_codes_default() {
    assert_eq!(DataRate::from(0b1110), DataRate::Sps20Normal);
    assert_eq!(DataRate::from(0b1111), DataRate::Sps20Normal);
    assert_eq!(DataRate::from(200), DataRate::Sps20Normal);
}

#[test]
fn current_source_valid_codes_decode_exactly() {
    let all = [
        (0b000, CurrentSource::Off),
        (0b001, CurrentSource::I10uA),
        (0b010, CurrentSource::I50uA),
        (0b011, CurrentSource::I100uA),
        (0b100, CurrentSource::I250uA),
        (0b101, CurrentSource::I500uA),
        (0b110, CurrentSource::I1000uA),
        (0b111, CurrentSource::I1500uA),
    ];
    for (code, level) in all {
        assert_eq!(CurrentSource::from(code), level);
        assert_eq!(level.code(), code);
    }
    assert_eq!(CurrentSource::from(42), CurrentSource::Off);
}

#[test]
fn current_route_valid_codes_decode_exactly() {
    let all = [
        (0b000, CurrentRoute::Off),
        (0b001, CurrentRoute::Ain0),
        (0b010, CurrentRoute::Ain1),
        (0b011, CurrentRoute::Ain2),
        (0b100, CurrentRoute::Ain3),
        (0b101, CurrentRoute::RefP),
        (0b110, CurrentRoute::RefN),
    ];
    for (code, route) in all {
        assert_eq!(CurrentRoute::from(code), route);
        assert_eq!(route.code(), code);
    }
    assert_eq!(CurrentRoute::from(0b111), CurrentRoute::Off);
}

#[test]
fn conversion_mode_codes() {
    assert_eq!(ConversionMode::from(0), ConversionMode::SingleShot);
    assert_eq!(ConversionMode::from(1), ConversionMode::Continuous);
    assert_eq!(ConversionMode::from(7), ConversionMode::Continuous);
    assert_eq!(ConversionMode::SingleShot.code(), 0);
    assert_eq!(ConversionMode::Continuous.code(), 1);
}

#[test]
fn crc_valid_codes_decode_exactly() {
    assert_eq!(Crc::from(0b00), Crc::Disabled);
    assert_eq!(Crc::from(0b01), Crc::Inverted);
    assert_eq!(Crc::from(0b10), Crc::Crc16);
    assert_eq!(Crc::Disabled.code(), 0b00);
    assert_eq!(Crc::Inverted.code(), 0b01);
    assert_eq!(Crc::Crc16.code(), 0b10);
}

#[test]
fn crc_invalid_code_defaults() {
    assert_eq!(Crc::from(0b11), Crc::Disabled);
}

#[test]
fn vref_codes_round_trip_with_voltage() {
    assert_eq!(VRef::Internal.to_val(), 0b00);
    assert_eq!(VRef::External(3_300_000).to_val(), 0b01);
    assert_eq!(VRef::AnalogSupply(5_000_000).to_val(), 0b10);

    assert_eq!(VRef::Internal.to_microvolts(), INTERNAL_REF_MICROVOLTS);
    assert_eq!(VRef::External(3_300_000).to_microvolts(), 3_300_000);
    assert_eq!(VRef::AnalogSupply(5_000_000).to_microvolts(), 5_000_000);

    assert_eq!(VRef::from(0b00, 1_234), VRef::Internal);
    assert_eq!(VRef::from(0b01, 3_300_000), VRef::External(3_300_000));
    assert_eq!(VRef::from(0b10, 5_000_000), VRef::AnalogSupply(5_000_000));
    assert_eq!(VRef::from(0b11, 9_999), VRef::Internal);
}
