//! Device-model behaviour over a scripted mock bus: register bytes written
//! on every setting change, decode of read-back bytes, sign extension,
//! microvolt scaling, and local rejection of bad register addresses.

use std::cell::RefCell;
use std::rc::Rc;

use ads122x04::interface::BusPort;
use ads122x04::registers::{
    ConversionMode, Crc, CurrentRoute, CurrentSource, DataRate, Gain, Mux, VRef,
};
use ads122x04::{convert_signed_to_microvolts, ADS122x04, Error};

const DEVICE_ADDRESS: u8 = 0x40;

#[derive(Default)]
struct BusState {
    /// Every transaction: target address and the bytes written.
    transactions: Vec<(u8, Vec<u8>)>,
    /// Scripted responses for write-then-read transactions, taken in order.
    responses: Vec<Vec<u8>>,
}

struct MockBus {
    state: Rc<RefCell<BusState>>,
}

impl MockBus {
    fn new() -> (Self, Rc<RefCell<BusState>>) {
        let state = Rc::new(RefCell::new(BusState::default()));
        (MockBus { state: state.clone() }, state)
    }
}

impl BusPort for MockBus {
    type BusError = ();

    fn write(&mut self, address: u8, bytes: &[u8]) -> Result<(), ()> {
        self.state
            .borrow_mut()
            .transactions
            .push((address, bytes.to_vec()));
        Ok(())
    }

    fn write_read(&mut self, address: u8, bytes: &[u8], read_len: usize) -> Result<Vec<u8>, ()> {
        let mut state = self.state.borrow_mut();
        state.transactions.push((address, bytes.to_vec()));
        let response = state.responses.remove(0);
        assert_eq!(response.len(), read_len);
        Ok(response)
    }
}

/// A bus whose every transaction fails.
struct BrokenBus;

impl BusPort for BrokenBus {
    type BusError = u8;

    fn write(&mut self, _address: u8, _bytes: &[u8]) -> Result<(), u8> {
        Err(17)
    }

    fn write_read(&mut self, _address: u8, _bytes: &[u8], _read_len: usize) -> Result<Vec<u8>, u8> {
        Err(17)
    }
}

#[test]
fn power_on_register_bytes() {
    let (bus, _state) = MockBus::new();
    let device = ADS122x04::new_i2c(DEVICE_ADDRESS, bus);
    assert_eq!(device.register_value(0), 0x00);
    assert_eq!(device.register_value(1), 0x00);
    assert_eq!(device.register_value(2), 0x00);
    assert_eq!(device.register_value(3), 0x00);
}

#[test]
fn set_gain_writes_register_0() {
    let (bus, state) = MockBus::new();
    let mut device = ADS122x04::new_i2c(DEVICE_ADDRESS, bus);
    device.set_gain(Gain::Gain16).unwrap();
    let transactions = &state.borrow().transactions;
    // Write opcode 0x40 with register address 0 shifted left by two, then
    // the register byte: gain code 0b100 in bits 3:1.
    assert_eq!(transactions.as_slice(), &[(DEVICE_ADDRESS, vec![0x40, 0b0001000])]);
}

#[test]
fn set_input_mux_shares_register_0_with_gain() {
    let (bus, state) = MockBus::new();
    let mut device = ADS122x04::new_i2c(DEVICE_ADDRESS, bus);
    device.set_gain(Gain::Gain2).unwrap();
    device.set_pga_bypass(true).unwrap();
    device.set_input_mux(Mux::Ain1Avss).unwrap();
    let transactions = &state.borrow().transactions;
    assert_eq!(transactions.len(), 3);
    // The final write re-encodes the whole register: mux 0b1001 in bits
    // 7:4, gain 0b001 in bits 3:1, bypass in bit 0.
    assert_eq!(transactions[2], (DEVICE_ADDRESS, vec![0x40, 0b1001_001_1]));
}

#[test]
fn set_vref_and_mode_write_register_1() {
    let (bus, state) = MockBus::new();
    let mut device = ADS122x04::new_i2c(DEVICE_ADDRESS, bus);
    device.set_vref(VRef::External(3_300_000)).unwrap();
    device.set_conversion_mode(ConversionMode::Continuous).unwrap();
    device.set_temperature_sensor_mode(true).unwrap();
    let transactions = &state.borrow().transactions;
    // Register address 1 shifted left by two in the write opcode.
    assert_eq!(transactions[0], (DEVICE_ADDRESS, vec![0x44, 0b010]));
    assert_eq!(transactions[1], (DEVICE_ADDRESS, vec![0x44, 0b1010]));
    assert_eq!(transactions[2], (DEVICE_ADDRESS, vec![0x44, 0b1011]));
}

#[test]
fn set_data_rate_turbo_sets_flag_in_same_write() {
    let (bus, state) = MockBus::new();
    let mut device = ADS122x04::new_i2c(DEVICE_ADDRESS, bus);
    device.set_data_rate(DataRate::Sps2000Turbo).unwrap();
    let transactions = &state.borrow().transactions;
    // Code 0b1101: upper three bits 0b110 land in bits 7:5, the low bit is
    // the turbo flag in bit 4 — the one register write carries both.
    assert_eq!(transactions.as_slice(), &[(DEVICE_ADDRESS, vec![0x44, 0b110_1_0000])]);
}

#[test]
fn set_data_rate_normal_clears_turbo_flag() {
    let (bus, state) = MockBus::new();
    let mut device = ADS122x04::new_i2c(DEVICE_ADDRESS, bus);
    device.set_data_rate(DataRate::Sps2000Turbo).unwrap();
    device.set_data_rate(DataRate::Sps45Normal).unwrap();
    let transactions = &state.borrow().transactions;
    assert_eq!(transactions[1], (DEVICE_ADDRESS, vec![0x44, 0b001_0_0000]));
}

#[test]
fn set_current_settings_write_registers_2_and_3() {
    let (bus, state) = MockBus::new();
    let mut device = ADS122x04::new_i2c(DEVICE_ADDRESS, bus);
    device.set_current_level(CurrentSource::I1000uA).unwrap();
    device.set_burnout_current_source(true).unwrap();
    device.set_crc(Crc::Crc16).unwrap();
    device.set_data_counter(true).unwrap();
    device.set_current_route_1(CurrentRoute::RefP).unwrap();
    device.set_current_route_2(CurrentRoute::Ain3).unwrap();
    let transactions = &state.borrow().transactions;
    assert_eq!(transactions[0], (DEVICE_ADDRESS, vec![0x48, 0b110]));
    assert_eq!(transactions[1], (DEVICE_ADDRESS, vec![0x48, 0b1110]));
    assert_eq!(transactions[2], (DEVICE_ADDRESS, vec![0x48, 0b10_1110]));
    assert_eq!(transactions[3], (DEVICE_ADDRESS, vec![0x48, 0b110_1110]));
    // Register address 3 shifted left by two; route 1 in bits 7:5, route 2
    // in bits 4:2.
    assert_eq!(transactions[4], (DEVICE_ADDRESS, vec![0x4C, 0b101_000_00]));
    assert_eq!(transactions[5], (DEVICE_ADDRESS, vec![0x4C, 0b101_100_00]));
}

#[test]
fn every_field_round_trips_through_its_register_byte() {
    let (bus, state) = MockBus::new();
    let mut device = ADS122x04::new_i2c(DEVICE_ADDRESS, bus);
    device.set_pga_bypass(true).unwrap();
    device.set_gain(Gain::Gain32).unwrap();
    device.set_input_mux(Mux::VrefMonitor).unwrap();
    device.set_vref(VRef::AnalogSupply(5_000_000)).unwrap();
    device.set_conversion_mode(ConversionMode::Continuous).unwrap();
    device.set_data_rate(DataRate::Sps660Turbo).unwrap();
    device.set_temperature_sensor_mode(true).unwrap();
    device.set_current_level(CurrentSource::I250uA).unwrap();
    device.set_burnout_current_source(true).unwrap();
    device.set_crc(Crc::Inverted).unwrap();
    device.set_data_counter(true).unwrap();
    device.set_current_route_1(CurrentRoute::Ain1).unwrap();
    device.set_current_route_2(CurrentRoute::RefN).unwrap();

    // Feed every encoded register byte back as the read response: each
    // getter must decode the exact setting that was written.
    let reg_bytes: Vec<u8> = (0..4).map(|reg| device.register_value(reg)).collect();
    {
        let mut st = state.borrow_mut();
        st.responses = vec![
            vec![reg_bytes[0]],
            vec![reg_bytes[0]],
            vec![reg_bytes[0]],
            vec![reg_bytes[1]],
            vec![reg_bytes[1]],
            vec![reg_bytes[1]],
            vec![reg_bytes[1]],
            vec![reg_bytes[1]],
            vec![reg_bytes[2]],
            vec![reg_bytes[2]],
            vec![reg_bytes[2]],
            vec![reg_bytes[2]],
            vec![reg_bytes[3]],
            vec![reg_bytes[3]],
        ];
    }
    assert_eq!(device.get_pga_bypass().unwrap(), true);
    assert_eq!(device.get_gain().unwrap(), Gain::Gain32);
    assert_eq!(device.get_input_mux().unwrap(), Mux::VrefMonitor.code());
    assert_eq!(device.get_temperature_sensor_mode().unwrap(), true);
    assert_eq!(device.get_vref().unwrap(), VRef::AnalogSupply(5_000_000));
    assert_eq!(device.get_conversion_mode().unwrap(), ConversionMode::Continuous);
    assert_eq!(device.get_operating_mode().unwrap(), true);
    assert_eq!(device.get_data_rate().unwrap(), DataRate::Sps660Turbo);
    assert_eq!(device.get_current_level().unwrap(), CurrentSource::I250uA);
    assert_eq!(device.get_burnout_current_source().unwrap(), true);
    assert_eq!(device.get_crc().unwrap(), Crc::Inverted);
    assert_eq!(device.get_data_counter().unwrap(), true);
    assert_eq!(device.get_current_route_1().unwrap(), CurrentRoute::Ain1);
    assert_eq!(device.get_current_route_2().unwrap(), CurrentRoute::RefN);
}

#[test]
fn data_ready_reads_bit_7() {
    let (bus, state) = MockBus::new();
    let mut device = ADS122x04::new_i2c(DEVICE_ADDRESS, bus);
    state.borrow_mut().responses = vec![vec![0b1000_0000], vec![0b0111_1111]];
    assert_eq!(device.get_data_ready().unwrap(), true);
    assert_eq!(device.get_data_ready().unwrap(), false);
}

#[test]
fn invalid_register_address_fails_without_transport_io() {
    let (bus, state) = MockBus::new();
    let mut device = ADS122x04::new_i2c(DEVICE_ADDRESS, bus);
    assert!(matches!(device.update_reg(4), Err(Error::InvalidValue)));
    assert!(matches!(device.update_reg(200), Err(Error::InvalidValue)));
    assert!(matches!(device.read_reg(4), Err(Error::InvalidValue)));
    assert!(state.borrow().transactions.is_empty());
    assert!(state.borrow().responses.is_empty());
}

#[test]
fn transport_failure_surfaces_as_comm_error() {
    let mut device = ADS122x04::new_i2c(DEVICE_ADDRESS, BrokenBus);
    assert!(matches!(device.set_gain(Gain::Gain8), Err(Error::CommError(17))));
    assert!(matches!(device.get_gain(), Err(Error::CommError(17))));
    assert!(matches!(device.get_raw_adc(), Err(Error::CommError(17))));
    assert!(matches!(device.reset(), Err(Error::CommError(17))));
    assert_eq!(device.get_microvolts(), None);
}

#[test]
fn reset_and_start_send_bare_opcodes() {
    let (bus, state) = MockBus::new();
    let mut device = ADS122x04::new_i2c(DEVICE_ADDRESS, bus);
    device.reset().unwrap();
    device.start().unwrap();
    let transactions = &state.borrow().transactions;
    assert_eq!(
        transactions.as_slice(),
        &[
            (DEVICE_ADDRESS, vec![0b110]),
            (DEVICE_ADDRESS, vec![0b1000]),
        ]
    );
}

#[test]
fn sign_extension_of_raw_samples() {
    let (bus, _state) = MockBus::new();
    let device = ADS122x04::new_i2c(DEVICE_ADDRESS, bus);
    assert_eq!(device.raw_to_signed(0x000000), 0);
    assert_eq!(device.raw_to_signed(0x7FFFFF), 8388607);
    assert_eq!(device.raw_to_signed(0x800000), -8388608);
    assert_eq!(device.raw_to_signed(0xFFFFFF), -1);
}

#[test]
fn get_raw_adc_reads_three_bytes_msb_first() {
    let (bus, state) = MockBus::new();
    let mut device = ADS122x04::new_i2c(DEVICE_ADDRESS, bus);
    state.borrow_mut().responses = vec![
        vec![0x00, 0x00, 0x00],
        vec![0x7F, 0xFF, 0xFF],
        vec![0x80, 0x00, 0x00],
        vec![0xFF, 0xFF, 0xFF],
        vec![0x12, 0x34, 0x56],
    ];
    assert_eq!(device.get_raw_adc().unwrap(), 0);
    assert_eq!(device.get_raw_adc().unwrap(), 8388607);
    assert_eq!(device.get_raw_adc().unwrap(), -8388608);
    assert_eq!(device.get_raw_adc().unwrap(), -1);
    assert_eq!(device.get_raw_adc().unwrap(), 0x123456);
    // Each read sent the request-data opcode.
    let transactions = &state.borrow().transactions;
    assert_eq!(transactions.len(), 5);
    for t in transactions {
        assert_eq!(t, &(DEVICE_ADDRESS, vec![0b10000]));
    }
}

#[test]
fn microvolt_scaling_against_internal_reference() {
    // Reference 2.048 V and a sample of 2^22 is half of full scale:
    // 1.024 V, exactly 1 024 000 microvolts.
    assert_eq!(convert_signed_to_microvolts(2_048_000, 4_194_304), 1_024_000);
    assert_eq!(convert_signed_to_microvolts(2_048_000, -4_194_304), -1_024_000);
    assert_eq!(convert_signed_to_microvolts(2_048_000, 0), 0);
    assert_eq!(convert_signed_to_microvolts(2_048_000, 8_388_607), 2_047_999);
    assert_eq!(convert_signed_to_microvolts(2_048_000, -8_388_608), -2_048_000);
    assert_eq!(convert_signed_to_microvolts(3_300_000, 8_388_608 / 2), 1_650_000);
}

#[test]
fn get_microvolts_scales_the_read_sample() {
    let (bus, state) = MockBus::new();
    let mut device = ADS122x04::new_i2c(DEVICE_ADDRESS, bus);
    state.borrow_mut().responses = vec![vec![0x40, 0x00, 0x00], vec![0xC0, 0x00, 0x00]];
    assert_eq!(device.get_microvolts(), Some(1_024_000));
    assert_eq!(device.get_microvolts(), Some(-1_024_000));
}

#[test]
fn convert_raw_to_microvolts_sign_extends_first() {
    let (bus, _state) = MockBus::new();
    let device = ADS122x04::new_i2c(DEVICE_ADDRESS, bus);
    assert_eq!(device.convert_raw_to_microvolts(Some(0x400000)), Some(1_024_000));
    assert_eq!(device.convert_raw_to_microvolts(Some(0xC00000)), Some(-1_024_000));
    assert_eq!(device.convert_raw_to_microvolts(None), None);
}

#[test]
fn external_reference_scales_microvolts() {
    let (bus, state) = MockBus::new();
    let mut device = ADS122x04::new_i2c(DEVICE_ADDRESS, bus);
    device.set_vref(VRef::External(3_300_000)).unwrap();
    state.borrow_mut().responses = vec![vec![0x40, 0x00, 0x00]];
    assert_eq!(device.get_microvolts(), Some(1_650_000));
}
