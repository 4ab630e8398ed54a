//! Register-level driver for the ADS122C04 (I2C) and ADS122U04 (UART) 24-bit
//! delta-sigma ADCs.
//!
//! The driver keeps a host-side mirror of the four one-byte configuration
//! registers, re-encodes the affected register on every setting change, and
//! decodes register bytes and raw conversion results back into typed values.
//! The wire-level transports are abstracted behind the capability traits in
//! [`interface`], so the same device logic runs over a bus or a byte stream.
//!
//! The register layout is pinned to one datasheet revision: register-access
//! opcodes carry the register address shifted left by two bits on both
//! pairings, and register 0x03 holds the route of current source 1 in bits
//! 7:5 and the route of current source 2 in bits 4:2.

pub mod interface;
pub mod registers;

use vstd::prelude::*;

use crate::interface::{I2cInterface, ReadData, SerialInterface, WriteData};
use crate::registers::{
    ConversionMode,
    Crc,
    Commands,
    CurrentRoute,
    CurrentSource,
    DataRate,
    Gain,
    Mux,
    VRef,
};

verus! {

/// Marker trait restricting the transport traits to the interfaces of this
/// crate.
pub trait Sealed {}

/// Error type returned by every fallible device operation.
#[derive(Debug)]
pub enum Error<E> {
    /// An invalid value has been entered.
    InvalidValue,
    /// A communication error has occurred on the underlying transport.
    CommError(E),
}

/// The host-side mirror of the device's logical configuration: everything
/// the four configuration registers persist, owned by the device handle and
/// re-encoded into a whole register byte on every setting change.
#[derive(Debug, Copy, Clone, PartialEq, Eq, Structural)]
pub struct Config {
    /// Voltage reference selection (register 0x01, bits 2:1).
    pub v_ref: VRef,
    /// Gain setting (register 0x00, bits 3:1).
    pub gain: Gain,
    /// Input multiplexer selection (register 0x00, bits 7:4).
    pub mux: Mux,
    /// Excitation current level (register 0x02, bits 2:0).
    pub current_source: CurrentSource,
    /// Route of excitation current source 1 (register 0x03, bits 7:5).
    pub current_route_1: CurrentRoute,
    /// Route of excitation current source 2 (register 0x03, bits 4:2).
    pub current_route_2: CurrentRoute,
    /// Sample-rate selection (register 0x01, bits 7:5 joined with bit 4).
    pub data_rate: DataRate,
    /// Whether the programmable gain amplifier is bypassed (register 0x00,
    /// bit 0).
    pub pga_bypass: bool,
    /// Turbo-mode flag, kept consistent with the low bit of the data-rate
    /// code (register 0x01, bit 4).
    pub turbo_mode: bool,
    /// Conversion mode (register 0x01, bit 3).
    pub conversion_mode: ConversionMode,
    /// Whether the inputs are routed to the temperature sensor (register
    /// 0x01, bit 0).
    pub temperature_sensor_mode: bool,
    /// Whether a data counter is prepended to conversion data (register
    /// 0x02, bit 6).
    pub data_counter_enable: bool,
    /// Integrity check appended to conversion data (register 0x02,
    /// bits 5:4).
    pub crc: Crc,
    /// Whether the 10 uA burn-out current sources are enabled (register
    /// 0x02, bit 3).
    pub burn_out_current_sources: bool,
}

/// A configuration is well formed when its turbo-mode flag agrees with the
/// low bit of its data-rate code; the two share register 0x01 and are always
/// written together.
pub open spec fn config_wf(c: Config) -> bool {
    c.turbo_mode == c.data_rate.is_turbo_spec()
}

/// The documented power-on defaults the mirror starts from.
pub open spec fn power_on_config() -> Config {
    Config {
        v_ref: VRef::Internal,
        gain: Gain::Gain1,
        mux: Mux::Ain0Ain1,
        current_source: CurrentSource::Off,
        current_route_1: CurrentRoute::Off,
        current_route_2: CurrentRoute::Off,
        data_rate: DataRate::Sps20Normal,
        pga_bypass: false,
        turbo_mode: false,
        conversion_mode: ConversionMode::SingleShot,
        temperature_sensor_mode: false,
        data_counter_enable: false,
        crc: Crc::Disabled,
        burn_out_current_sources: false,
    }
}

/// A flag as the single register bit it is stored in.
pub open spec fn bool_bit(b: bool) -> u8 {
    if b {
        1
    } else {
        0
    }
}

/// Register 0x00: PGA bypass in bit 0, gain code in bits 3:1, multiplexer
/// code in bits 7:4.
pub open spec fn reg0_byte(c: Config) -> u8 {
    bool_bit(c.pga_bypass) | (c.gain.code_spec() << 1) | (c.mux.code_spec() << 4)
}

/// Register 0x01: temperature-sensor mode in bit 0, reference code in bits
/// 2:1, conversion mode in bit 3, turbo flag in bit 4, and the upper three
/// bits of the data-rate code in bits 7:5. Together with the turbo flag,
/// bits 7:4 carry the whole 4-bit data-rate code.
pub open spec fn reg1_byte(c: Config) -> u8 {
    bool_bit(c.temperature_sensor_mode) | (c.v_ref.to_val_spec() << 1) | (
    c.conversion_mode.code_spec() << 3) | (bool_bit(c.turbo_mode) << 4) | ((
    c.data_rate.code_spec() >> 1) << 5)
}

/// Register 0x02: current level in bits 2:0, burn-out sources in bit 3,
/// integrity mode in bits 5:4, data counter in bit 6. Bit 7 is the
/// read-only data-ready flag and is written as zero.
pub open spec fn reg2_byte(c: Config) -> u8 {
    c.current_source.code_spec() | (bool_bit(c.burn_out_current_sources) << 3) | (
    c.crc.code_spec() << 4) | (bool_bit(c.data_counter_enable) << 6)
}

/// Register 0x03: route of current source 2 in bits 4:2, route of current
/// source 1 in bits 7:5.
pub open spec fn reg3_byte(c: Config) -> u8 {
    (c.current_route_2.code_spec() << 2) | (c.current_route_1.code_spec() << 5)
}

/// The byte a whole register write carries for each of the four register
/// addresses.
pub open spec fn register_byte_spec(c: Config, reg: u8) -> u8 {
    if reg == 0 {
        reg0_byte(c)
    } else if reg == 1 {
        reg1_byte(c)
    } else if reg == 2 {
        reg2_byte(c)
    } else {
        reg3_byte(c)
    }
}

proof fn lemma_reg0_bits(p: u8, g: u8, m: u8)
    by (bit_vector)
    requires
        p < 2,
        g < 8,
        m < 16,
    ensures
        ((p | (g << 1) | (m << 4)) & 1) == p,
        (((p | (g << 1) | (m << 4)) >> 1) & 0b111) == g,
        ((p | (g << 1) | (m << 4)) >> 4) == m,
{
}

proof fn lemma_reg1_bits(ts: u8, vr: u8, cm: u8, tb: u8, dr: u8)
    by (bit_vector)
    requires
        ts < 2,
        vr < 3,
        cm < 2,
        tb < 2,
        dr < 16,
        tb == (dr & 1),
    ensures
        ((ts | (vr << 1) | (cm << 3) | (tb << 4) | ((dr >> 1) << 5)) & 1) == ts,
        (((ts | (vr << 1) | (cm << 3) | (tb << 4) | ((dr >> 1) << 5)) >> 1) & 0b11) == vr,
        (((ts | (vr << 1) | (cm << 3) | (tb << 4) | ((dr >> 1) << 5)) >> 3) & 1) == cm,
        (((ts | (vr << 1) | (cm << 3) | (tb << 4) | ((dr >> 1) << 5)) >> 4) & 1) == tb,
        (((ts | (vr << 1) | (cm << 3) | (tb << 4) | ((dr >> 1) << 5)) >> 4) & 0b1111) == dr,
{
}

proof fn lemma_reg2_bits(cs: u8, bo: u8, cc: u8, dc: u8)
    by (bit_vector)
    requires
        cs < 8,
        bo < 2,
        cc < 4,
        dc < 2,
    ensures
        ((cs | (bo << 3) | (cc << 4) | (dc << 6)) & 0b111) == cs,
        (((cs | (bo << 3) | (cc << 4) | (dc << 6)) >> 3) & 1) == bo,
        (((cs | (bo << 3) | (cc << 4) | (dc << 6)) >> 4) & 0b11) == cc,
        (((cs | (bo << 3) | (cc << 4) | (dc << 6)) >> 6) & 1) == dc,
        (((cs | (bo << 3) | (cc << 4) | (dc << 6)) >> 7) & 1) == 0,
{
}

proof fn lemma_reg3_bits(r1: u8, r2: u8)
    by (bit_vector)
    requires
        r1 < 8,
        r2 < 8,
    ensures
        ((((r2 << 2) | (r1 << 5)) >> 5) & 0b111) == r1,
        ((((r2 << 2) | (r1 << 5)) >> 2) & 0b111) == r2,
{
}

proof fn lemma_low_bit_is_parity(x: u8)
    by (bit_vector)
    ensures
        x & 1 == x % 2,
{
}

proof fn lemma_high_nibble_bound(x: u8)
    by (bit_vector)
    ensures
        x >> 4 < 16,
{
}

/// The PGA-bypass flag of a register 0x00 byte: bit 0.
pub open spec fn decode_pga_bypass_spec(value: u8) -> bool {
    value & 0b1 == 1
}

/// The gain setting of a register 0x00 byte: bits 3:1.
pub open spec fn decode_gain_spec(value: u8) -> Gain {
    Gain::from_spec((value >> 1) & 0b111)
}

/// The multiplexer code of a register 0x00 byte: bits 7:4.
pub open spec fn decode_mux_code_spec(value: u8) -> u8 {
    value >> 4
}

/// The temperature-sensor flag of a register 0x01 byte: bit 0.
pub open spec fn decode_temperature_sensor_mode_spec(value: u8) -> bool {
    value & 0b1 == 1
}

/// The reference selection of a register 0x01 byte: bits 2:1, carrying the
/// given voltage where one is needed.
pub open spec fn decode_vref_spec(value: u8, microvolts: u32) -> VRef {
    VRef::from_spec((value >> 1) & 0b11, microvolts)
}

/// The conversion mode of a register 0x01 byte: bit 3.
pub open spec fn decode_conversion_mode_spec(value: u8) -> ConversionMode {
    ConversionMode::from_spec((value >> 3) & 0b1)
}

/// The turbo-mode (operating mode) flag of a register 0x01 byte: bit 4.
pub open spec fn decode_operating_mode_spec(value: u8) -> bool {
    (value >> 4) & 0b1 == 1
}

/// The sample rate of a register 0x01 byte: the 4-bit code in bits 7:4,
/// whose low bit is the turbo flag.
pub open spec fn decode_data_rate_spec(value: u8) -> DataRate {
    DataRate::from_spec((value >> 4) & 0b1111)
}

/// The excitation current level of a register 0x02 byte: bits 2:0.
pub open spec fn decode_current_level_spec(value: u8) -> CurrentSource {
    CurrentSource::from_spec(value & 0b111)
}

/// The burn-out sources flag of a register 0x02 byte: bit 3.
pub open spec fn decode_burnout_current_source_spec(value: u8) -> bool {
    (value >> 3) & 0b1 == 1
}

/// The integrity mode of a register 0x02 byte: bits 5:4.
pub open spec fn decode_crc_spec(value: u8) -> Crc {
    Crc::from_spec((value >> 4) & 0b11)
}

/// The data-counter flag of a register 0x02 byte: bit 6.
pub open spec fn decode_data_counter_spec(value: u8) -> bool {
    (value >> 6) & 0b1 == 1
}

/// The read-only data-ready flag of a register 0x02 byte: bit 7.
pub open spec fn decode_data_ready_spec(value: u8) -> bool {
    (value >> 7) & 0b1 == 1
}

/// The route of excitation current source 1 of a register 0x03 byte:
/// bits 7:5.
pub open spec fn decode_current_route_1_spec(value: u8) -> CurrentRoute {
    CurrentRoute::from_spec((value >> 5) & 0b111)
}

/// The route of excitation current source 2 of a register 0x03 byte:
/// bits 4:2.
pub open spec fn decode_current_route_2_spec(value: u8) -> CurrentRoute {
    CurrentRoute::from_spec((value >> 2) & 0b111)
}

/// Decode the PGA-bypass flag from a register 0x00 byte.
pub fn decode_pga_bypass(value: u8) -> (r: bool)
    ensures
        r == decode_pga_bypass_spec(value),
{
    (value & 0b1) == 1
}

/// Decode the gain setting from a register 0x00 byte.
pub fn decode_gain(value: u8) -> (r: Gain)
    ensures
        r == decode_gain_spec(value),
{
    Gain::from((value >> 1) & 0b111)
}

/// Decode the multiplexer code from a register 0x00 byte.
pub fn decode_mux_code(value: u8) -> (r: u8)
    ensures
        r == decode_mux_code_spec(value),
        r < 16,
{
    proof {
        lemma_high_nibble_bound(value);
    }
    value >> 4
}

/// Decode the temperature-sensor flag from a register 0x01 byte.
pub fn decode_temperature_sensor_mode(value: u8) -> (r: bool)
    ensures
        r == decode_temperature_sensor_mode_spec(value),
{
    (value & 0b1) == 1
}

/// Decode the reference selection from a register 0x01 byte, carrying the
/// given voltage where one is needed.
pub fn decode_vref(value: u8, microvolts: u32) -> (r: VRef)
    ensures
        r == decode_vref_spec(value, microvolts),
{
    VRef::from((value >> 1) & 0b11, microvolts)
}

/// Decode the conversion mode from a register 0x01 byte.
pub fn decode_conversion_mode(value: u8) -> (r: ConversionMode)
    ensures
        r == decode_conversion_mode_spec(value),
{
    ConversionMode::from((value >> 3) & 0b1)
}

/// Decode the turbo-mode (operating mode) flag from a register 0x01 byte.
pub fn decode_operating_mode(value: u8) -> (r: bool)
    ensures
        r == decode_operating_mode_spec(value),
{
    ((value >> 4) & 0b1) == 1
}

/// Decode the sample rate from a register 0x01 byte.
pub fn decode_data_rate(value: u8) -> (r: DataRate)
    ensures
        r == decode_data_rate_spec(value),
{
    DataRate::from((value >> 4) & 0b1111)
}

/// Decode the excitation current level from a register 0x02 byte.
pub fn decode_current_level(value: u8) -> (r: CurrentSource)
    ensures
        r == decode_current_level_spec(value),
{
    CurrentSource::from(value & 0b111)
}

/// Decode the burn-out sources flag from a register 0x02 byte.
pub fn decode_burnout_current_source(value: u8) -> (r: bool)
    ensures
        r == decode_burnout_current_source_spec(value),
{
    ((value >> 3) & 0b1) == 1
}

/// Decode the integrity mode from a register 0x02 byte.
pub fn decode_crc(value: u8) -> (r: Crc)
    ensures
        r == decode_crc_spec(value),
{
    Crc::from((value >> 4) & 0b11)
}

/// Decode the data-counter flag from a register 0x02 byte.
pub fn decode_data_counter(value: u8) -> (r: bool)
    ensures
        r == decode_data_counter_spec(value),
{
    ((value >> 6) & 0b1) == 1
}

/// Decode the read-only data-ready flag from a register 0x02 byte.
pub fn decode_data_ready(value: u8) -> (r: bool)
    ensures
        r == decode_data_ready_spec(value),
{
    ((value >> 7) & 0b1) == 1
}

/// Decode the route of excitation current source 1 from a register 0x03
/// byte.
pub fn decode_current_route_1(value: u8) -> (r: CurrentRoute)
    ensures
        r == decode_current_route_1_spec(value),
{
    CurrentRoute::from((value >> 5) & 0b111)
}

/// Decode the route of excitation current source 2 from a register 0x03
/// byte.
pub fn decode_current_route_2(value: u8) -> (r: CurrentRoute)
    ensures
        r == decode_current_route_2_spec(value),
{
    CurrentRoute::from((value >> 2) & 0b111)
}

/// Decoding each field of an encoded register byte returns the field that
/// was encoded, for all four registers and every well-formed configuration:
/// the per-field decodes above are the exact inverse of the whole-byte
/// encode. The voltage reference keeps its caller-supplied voltage, the
/// multiplexer field is recovered both as its 4-bit code and as its
/// variant, and the read-only data-ready bit of register 0x02 is written
/// as zero.
pub proof fn lemma_register_round_trip(c: Config)
    requires
        config_wf(c),
    ensures
        decode_pga_bypass_spec(reg0_byte(c)) == c.pga_bypass,
        decode_gain_spec(reg0_byte(c)) == c.gain,
        decode_mux_code_spec(reg0_byte(c)) == c.mux.code_spec(),
        Mux::from_spec(decode_mux_code_spec(reg0_byte(c))) == c.mux,
        decode_temperature_sensor_mode_spec(reg1_byte(c)) == c.temperature_sensor_mode,
        decode_vref_spec(reg1_byte(c), c.v_ref.microvolts_spec()) == c.v_ref,
        decode_conversion_mode_spec(reg1_byte(c)) == c.conversion_mode,
        decode_operating_mode_spec(reg1_byte(c)) == c.turbo_mode,
        decode_data_rate_spec(reg1_byte(c)) == c.data_rate,
        decode_current_level_spec(reg2_byte(c)) == c.current_source,
        decode_burnout_current_source_spec(reg2_byte(c)) == c.burn_out_current_sources,
        decode_crc_spec(reg2_byte(c)) == c.crc,
        decode_data_counter_spec(reg2_byte(c)) == c.data_counter_enable,
        decode_data_ready_spec(reg2_byte(c)) == false,
        decode_current_route_1_spec(reg3_byte(c)) == c.current_route_1,
        decode_current_route_2_spec(reg3_byte(c)) == c.current_route_2,
{
    registers::lemma_field_code_round_trip(
        c.gain,
        c.mux,
        c.data_rate,
        c.current_source,
        c.current_route_1,
        c.conversion_mode,
        c.crc,
        c.v_ref,
    );
    registers::lemma_field_code_round_trip(
        c.gain,
        c.mux,
        c.data_rate,
        c.current_source,
        c.current_route_2,
        c.conversion_mode,
        c.crc,
        c.v_ref,
    );
    lemma_low_bit_is_parity(c.data_rate.code_spec());
    lemma_reg0_bits(bool_bit(c.pga_bypass), c.gain.code_spec(), c.mux.code_spec());
    lemma_reg1_bits(
        bool_bit(c.temperature_sensor_mode),
        c.v_ref.to_val_spec(),
        c.conversion_mode.code_spec(),
        bool_bit(c.turbo_mode),
        c.data_rate.code_spec(),
    );
    lemma_reg2_bits(
        c.current_source.code_spec(),
        bool_bit(c.burn_out_current_sources),
        c.crc.code_spec(),
        bool_bit(c.data_counter_enable),
    );
    lemma_reg3_bits(c.current_route_1.code_spec(), c.current_route_2.code_spec());
}

/// The signed value of a 24-bit two's-complement sample: bit 23 is the sign
/// bit.
pub open spec fn sign_extend_24(x: u32) -> int {
    if x >= 0x800000 {
        x - 0x1000000
    } else {
        x as int
    }
}

/// The sample scaled to microvolts against a reference voltage:
/// `reference / 2^23 * sample`, in exact integer arithmetic with the
/// quotient truncated toward zero.
pub open spec fn microvolts_of(reference_uv: u32, signed: int) -> int {
    if signed >= 0 {
        (reference_uv * signed) / 0x800000
    } else {
        -((reference_uv * (-signed)) / 0x800000)
    }
}

/// Device handle: the transport it exclusively owns, and the host-side
/// mirror of the device configuration.
pub struct ADS122x04<BUS> {
    bus: BUS,
    cfg: Config,
}

impl<BUS> ADS122x04<BUS> {
    /// The mirrored device configuration.
    pub closed spec fn config(&self) -> Config {
        self.cfg
    }

    /// The handle's invariant: its mirrored configuration is well formed.
    pub open spec fn wf(&self) -> bool {
        config_wf(self.config())
    }
}

fn power_on_defaults() -> (r: Config)
    ensures
        r == power_on_config(),
{
    Config {
        v_ref: VRef::Internal,
        gain: Gain::Gain1,
        mux: Mux::Ain0Ain1,
        current_source: CurrentSource::Off,
        current_route_1: CurrentRoute::Off,
        current_route_2: CurrentRoute::Off,
        data_rate: DataRate::Sps20Normal,
        pga_bypass: false,
        turbo_mode: false,
        conversion_mode: ConversionMode::SingleShot,
        temperature_sensor_mode: false,
        data_counter_enable: false,
        crc: Crc::Disabled,
        burn_out_current_sources: false,
    }
}

impl<B: interface::BusPort> ADS122x04<I2cInterface<B>> {
    /// Create a new ADS122C04 device by supplying its bus address and the
    /// bus it hangs on. The mirror starts from the power-on defaults.
    pub fn new_i2c(address: u8, i2c: B) -> (r: Self)
        ensures
            r.config() == power_on_config(),
            r.wf(),
    {
        ADS122x04 { bus: I2cInterface { i2c, address }, cfg: power_on_defaults() }
    }
}

impl<S: interface::StreamPort> ADS122x04<SerialInterface<S>> {
    /// Create a new ADS122U04 device by supplying the byte stream (UART)
    /// it answers on. The mirror starts from the power-on defaults.
    pub fn new_serial(serial: S) -> (r: Self)
        ensures
            r.config() == power_on_config(),
            r.wf(),
    {
        ADS122x04 { bus: SerialInterface { serial }, cfg: power_on_defaults() }
    }
}

impl<BUS, E> ADS122x04<BUS> where
    BUS: ReadData<IoError = E> + WriteData<IoError = E>,
 {
    /// Encode the register byte for one of the four register addresses from
    /// the mirrored configuration.
    pub fn register_value(&self, reg: u8) -> (r: u8)
        requires
            reg <= 3,
        ensures
            r == register_byte_spec(self.config(), reg),
    {
        if reg == 0 {
            let pga: u8 = if self.cfg.pga_bypass {
                1
            } else {
                0
            };
            pga | (self.cfg.gain.code() << 1) | (self.cfg.mux.code() << 4)
        } else if reg == 1 {
            let ts: u8 = if self.cfg.temperature_sensor_mode {
                1
            } else {
                0
            };
            let turbo: u8 = if self.cfg.turbo_mode {
                1
            } else {
                0
            };
            ts | (self.cfg.v_ref.to_val() << 1) | (self.cfg.conversion_mode.code() << 3) | (
            turbo << 4) | ((self.cfg.data_rate.code() >> 1) << 5)
        } else if reg == 2 {
            let bo: u8 = if self.cfg.burn_out_current_sources {
                1
            } else {
                0
            };
            let dc: u8 = if self.cfg.data_counter_enable {
                1
            } else {
                0
            };
            self.cfg.current_source.code() | (bo << 3) | (self.cfg.crc.code() << 4) | (dc << 6)
        } else {
            (self.cfg.current_route_2.code() << 2) | (self.cfg.current_route_1.code() << 5)
        }
    }

    /// Re-encode one configuration register from the mirror and write it to
    /// the device whole. Addresses outside 0 to 3 fail locally with an
    /// invalid-value error, before any transport traffic.
    pub fn update_reg(&mut self, reg: u8) -> (r: Result<(), Error<E>>)
        ensures
            final(self).config() == old(self).config(),
            reg > 3 ==> (r matches Err(e) && e is InvalidValue && *final(self) == *old(self)),
            reg <= 3 ==> (r matches Err(e) ==> e is CommError),
    {
        if reg > 3 {
            return Err(Error::InvalidValue);
        }
        let val = self.register_value(reg);
        self.bus.write_register(reg, val)
    }

    /// Read one configuration register from the device. Addresses outside
    /// 0 to 3 fail locally with an invalid-value error, before any
    /// transport traffic.
    pub fn read_reg(&mut self, reg: u8) -> (r: Result<u8, Error<E>>)
        ensures
            final(self).config() == old(self).config(),
            reg > 3 ==> (r matches Err(e) && e is InvalidValue && *final(self) == *old(self)),
            reg <= 3 ==> (r matches Err(e) ==> e is CommError),
    {
        if reg > 3 {
            return Err(Error::InvalidValue);
        }
        self.bus.read_register(reg)
    }

    /// Enable or disable the bypass of the programmable gain amplifier
    /// (PGA).
    pub fn set_pga_bypass(&mut self, state: bool) -> (r: Result<(), Error<E>>)
        requires
            old(self).wf(),
        ensures
            final(self).wf(),
            final(self).config() == (Config { pga_bypass: state, ..old(self).config() }),
            r matches Err(e) ==> e is CommError,
    {
        self.cfg.pga_bypass = state;
        self.update_reg(0)
    }

    /// Read the status of the programmable gain amplifier (PGA) bypass.
    pub fn get_pga_bypass(&mut self) -> (r: Result<bool, Error<E>>)
        ensures
            final(self).config() == old(self).config(),
            r matches Err(e) ==> e is CommError,
    {
        match self.read_reg(0) {
            Ok(val) => Ok(decode_pga_bypass(val)),
            Err(e) => Err(e),
        }
    }

    /// Set the gain.
    pub fn set_gain(&mut self, gain: Gain) -> (r: Result<(), Error<E>>)
        requires
            old(self).wf(),
        ensures
            final(self).wf(),
            final(self).config() == (Config { gain, ..old(self).config() }),
            r matches Err(e) ==> e is CommError,
    {
        self.cfg.gain = gain;
        self.update_reg(0)
    }

    /// Read the gain value.
    pub fn get_gain(&mut self) -> (r: Result<Gain, Error<E>>)
        ensures
            final(self).config() == old(self).config(),
            r matches Err(e) ==> e is CommError,
    {
        match self.read_reg(0) {
            Ok(val) => Ok(decode_gain(val)),
            Err(e) => Err(e),
        }
    }

    /// Set the input multiplexer (MUX).
    pub fn set_input_mux(&mut self, mux: Mux) -> (r: Result<(), Error<E>>)
        requires
            old(self).wf(),
        ensures
            final(self).wf(),
            final(self).config() == (Config { mux, ..old(self).config() }),
            r matches Err(e) ==> e is CommError,
    {
        self.cfg.mux = mux;
        self.update_reg(0)
    }

    /// Read the input multiplexer (MUX) setting as its 4-bit code.
    pub fn get_input_mux(&mut self) -> (r: Result<u8, Error<E>>)
        ensures
            final(self).config() == old(self).config(),
            r matches Err(e) ==> e is CommError,
            r matches Ok(code) ==> code < 16,
    {
        match self.read_reg(0) {
            Ok(val) => Ok(decode_mux_code(val)),
            Err(e) => Err(e),
        }
    }

    /// Enable or disable temperature sensor mode (TS).
    pub fn set_temperature_sensor_mode(&mut self, state: bool) -> (r: Result<(), Error<E>>)
        requires
            old(self).wf(),
        ensures
            final(self).wf(),
            final(self).config() == (Config { temperature_sensor_mode: state, ..old(self).config() }),
            r matches Err(e) ==> e is CommError,
    {
        self.cfg.temperature_sensor_mode = state;
        self.update_reg(1)
    }

    /// Read the temperature sensor mode (TS).
    pub fn get_temperature_sensor_mode(&mut self) -> (r: Result<bool, Error<E>>)
        ensures
            final(self).config() == old(self).config(),
            r matches Err(e) ==> e is CommError,
    {
        match self.read_reg(1) {
            Ok(val) => Ok(decode_temperature_sensor_mode(val)),
            Err(e) => Err(e),
        }
    }

    /// Set the voltage reference (VREF).
    pub fn set_vref(&mut self, v_ref: VRef) -> (r: Result<(), Error<E>>)
        requires
            old(self).wf(),
        ensures
            final(self).wf(),
            final(self).config() == (Config { v_ref, ..old(self).config() }),
            r matches Err(e) ==> e is CommError,
    {
        self.cfg.v_ref = v_ref;
        self.update_reg(1)
    }

    /// Read the voltage reference (VREF). An external or analog-supply
    /// reference carries the voltage the mirror holds, since the device
    /// cannot measure it.
    pub fn get_vref(&mut self) -> (r: Result<VRef, Error<E>>)
        ensures
            final(self).config() == old(self).config(),
            r matches Err(e) ==> e is CommError,
            r matches Ok(v) ==> (v == VRef::Internal || v == VRef::External(
                old(self).config().v_ref.microvolts_spec(),
            ) || v == VRef::AnalogSupply(old(self).config().v_ref.microvolts_spec())),
    {
        match self.read_reg(1) {
            Ok(val) => Ok(decode_vref(val, self.cfg.v_ref.to_microvolts())),
            Err(e) => Err(e),
        }
    }

    /// Set the conversion mode (CM).
    pub fn set_conversion_mode(&mut self, mode: ConversionMode) -> (r: Result<(), Error<E>>)
        requires
            old(self).wf(),
        ensures
            final(self).wf(),
            final(self).config() == (Config { conversion_mode: mode, ..old(self).config() }),
            r matches Err(e) ==> e is CommError,
    {
        self.cfg.conversion_mode = mode;
        self.update_reg(1)
    }

    /// Read the conversion mode (CM).
    pub fn get_conversion_mode(&mut self) -> (r: Result<ConversionMode, Error<E>>)
        ensures
            final(self).config() == old(self).config(),
            r matches Err(e) ==> e is CommError,
    {
        match self.read_reg(1) {
            Ok(val) => Ok(decode_conversion_mode(val)),
            Err(e) => Err(e),
        }
    }

    /// Read the operating mode: whether the turbo-mode flag is set.
    pub fn get_operating_mode(&mut self) -> (r: Result<bool, Error<E>>)
        ensures
            final(self).config() == old(self).config(),
            r matches Err(e) ==> e is CommError,
    {
        match self.read_reg(1) {
            Ok(val) => Ok(decode_operating_mode(val)),
            Err(e) => Err(e),
        }
    }

    /// Set the data rate. Selecting a rate also derives the turbo-mode flag
    /// from the low bit of the rate's code, and both are written together
    /// in register 0x01.
    pub fn set_data_rate(&mut self, rate: DataRate) -> (r: Result<(), Error<E>>)
        ensures
            final(self).wf(),
            final(self).config() == (Config {
                data_rate: rate,
                turbo_mode: rate.is_turbo_spec(),
                ..old(self).config()
            }),
            r matches Err(e) ==> e is CommError,
    {
        self.cfg.data_rate = rate;
        let code = rate.code();
        proof {
            lemma_low_bit_is_parity(code);
        }
        self.cfg.turbo_mode = (code & 0b1) == 1;
        self.update_reg(1)
    }

    /// Read the data rate.
    pub fn get_data_rate(&mut self) -> (r: Result<DataRate, Error<E>>)
        ensures
            final(self).config() == old(self).config(),
            r matches Err(e) ==> e is CommError,
    {
        match self.read_reg(1) {
            Ok(val) => Ok(decode_data_rate(val)),
            Err(e) => Err(e),
        }
    }

    /// Set the current level of the internal excitation current sources.
    pub fn set_current_level(&mut self, current: CurrentSource) -> (r: Result<(), Error<E>>)
        requires
            old(self).wf(),
        ensures
            final(self).wf(),
            final(self).config() == (Config { current_source: current, ..old(self).config() }),
            r matches Err(e) ==> e is CommError,
    {
        self.cfg.current_source = current;
        self.update_reg(2)
    }

    /// Read the current level of the internal excitation current sources.
    pub fn get_current_level(&mut self) -> (r: Result<CurrentSource, Error<E>>)
        ensures
            final(self).config() == old(self).config(),
            r matches Err(e) ==> e is CommError,
    {
        match self.read_reg(2) {
            Ok(val) => Ok(decode_current_level(val)),
            Err(e) => Err(e),
        }
    }

    /// Enable or disable the 10 uA burn-out current sources.
    pub fn set_burnout_current_source(&mut self, state: bool) -> (r: Result<(), Error<E>>)
        requires
            old(self).wf(),
        ensures
            final(self).wf(),
            final(self).config() == (Config {
                burn_out_current_sources: state,
                ..old(self).config()
            }),
            r matches Err(e) ==> e is CommError,
    {
        self.cfg.burn_out_current_sources = state;
        self.update_reg(2)
    }

    /// Read the state of the 10 uA burn-out current sources.
    pub fn get_burnout_current_source(&mut self) -> (r: Result<bool, Error<E>>)
        ensures
            final(self).config() == old(self).config(),
            r matches Err(e) ==> e is CommError,
    {
        match self.read_reg(2) {
            Ok(val) => Ok(decode_burnout_current_source(val)),
            Err(e) => Err(e),
        }
    }

    /// Set the CRC mode.
    pub fn set_crc(&mut self, crc: Crc) -> (r: Result<(), Error<E>>)
        requires
            old(self).wf(),
        ensures
            final(self).wf(),
            final(self).config() == (Config { crc, ..old(self).config() }),
            r matches Err(e) ==> e is CommError,
    {
        self.cfg.crc = crc;
        self.update_reg(2)
    }

    /// Read the CRC mode.
    pub fn get_crc(&mut self) -> (r: Result<Crc, Error<E>>)
        ensures
            final(self).config() == old(self).config(),
            r matches Err(e) ==> e is CommError,
    {
        match self.read_reg(2) {
            Ok(val) => Ok(decode_crc(val)),
            Err(e) => Err(e),
        }
    }

    /// Enable or disable the data counter.
    pub fn set_data_counter(&mut self, state: bool) -> (r: Result<(), Error<E>>)
        requires
            old(self).wf(),
        ensures
            final(self).wf(),
            final(self).config() == (Config { data_counter_enable: state, ..old(self).config() }),
            r matches Err(e) ==> e is CommError,
    {
        self.cfg.data_counter_enable = state;
        self.update_reg(2)
    }

    /// Read the state of the data counter.
    pub fn get_data_counter(&mut self) -> (r: Result<bool, Error<E>>)
        ensures
            final(self).config() == old(self).config(),
            r matches Err(e) ==> e is CommError,
    {
        match self.read_reg(2) {
            Ok(val) => Ok(decode_data_counter(val)),
            Err(e) => Err(e),
        }
    }

    /// Read the data ready (DRDY) flag.
    pub fn get_data_ready(&mut self) -> (r: Result<bool, Error<E>>)
        ensures
            final(self).config() == old(self).config(),
            r matches Err(e) ==> e is CommError,
    {
        match self.read_reg(2) {
            Ok(val) => Ok(decode_data_ready(val)),
            Err(e) => Err(e),
        }
    }

    /// Set the routing of excitation current source 1.
    pub fn set_current_route_1(&mut self, route: CurrentRoute) -> (r: Result<(), Error<E>>)
        requires
            old(self).wf(),
        ensures
            final(self).wf(),
            final(self).config() == (Config { current_route_1: route, ..old(self).config() }),
            r matches Err(e) ==> e is CommError,
    {
        self.cfg.current_route_1 = route;
        self.update_reg(3)
    }

    /// Read the routing of excitation current source 1.
    pub fn get_current_route_1(&mut self) -> (r: Result<CurrentRoute, Error<E>>)
        ensures
            final(self).config() == old(self).config(),
            r matches Err(e) ==> e is CommError,
    {
        match self.read_reg(3) {
            Ok(val) => Ok(decode_current_route_1(val)),
            Err(e) => Err(e),
        }
    }

    /// Set the routing of excitation current source 2.
    pub fn set_current_route_2(&mut self, route: CurrentRoute) -> (r: Result<(), Error<E>>)
        requires
            old(self).wf(),
        ensures
            final(self).wf(),
            final(self).config() == (Config { current_route_2: route, ..old(self).config() }),
            r matches Err(e) ==> e is CommError,
    {
        self.cfg.current_route_2 = route;
        self.update_reg(3)
    }

    /// Read the routing of excitation current source 2.
    pub fn get_current_route_2(&mut self) -> (r: Result<CurrentRoute, Error<E>>)
        ensures
            final(self).config() == old(self).config(),
            r matches Err(e) ==> e is CommError,
    {
        match self.read_reg(3) {
            Ok(val) => Ok(decode_current_route_2(val)),
            Err(e) => Err(e),
        }
    }

    /// Sign-extend the raw 24-bit sample into a signed value: bit 23 is the
    /// sign bit of the two's-complement sample.
    pub fn raw_to_signed(&self, x: u32) -> (r: i32)
        requires
            x <= 0xFFFFFF,
        ensures
            r == sign_extend_24(x),
    {
        if x >= 0x800000 {
            (x as i32) - 0x1000000
        } else {
            x as i32
        }
    }

    /// Read the raw ADC value as a signed sample.
    pub fn get_raw_adc(&mut self) -> (r: Result<i32, Error<E>>)
        ensures
            final(self).config() == old(self).config(),
            r matches Err(e) ==> e is CommError,
            r matches Ok(v) ==> -0x800000 <= v <= 0x7FFFFF,
    {
        match self.bus.read_data() {
            Ok(val) => Ok(self.raw_to_signed(val)),
            Err(e) => Err(e),
        }
    }

    /// Read the ADC and scale the sample to microvolts against the mirrored
    /// reference voltage. A failed raw read yields no value rather than an
    /// error, since the voltage is a derived quantity.
    pub fn get_microvolts(&mut self) -> (r: Option<i64>)
        ensures
            final(self).config() == old(self).config(),
            r matches Some(uv) ==> exists|raw: i32|
                -0x800000 <= raw <= 0x7FFFFF && uv == microvolts_of(
                    old(self).config().v_ref.microvolts_spec(),
                    raw as int,
                ),
    {
        let reference_uv = self.cfg.v_ref.to_microvolts();
        match self.get_raw_adc() {
            Ok(raw) => Some(convert_signed_to_microvolts(reference_uv, raw)),
            Err(_) => None,
        }
    }

    /// Scale an already-read raw sample to microvolts against the mirrored
    /// reference voltage, sign-extending it first.
    pub fn convert_raw_to_microvolts(&self, raw: Option<u32>) -> (r: Option<i64>)
        requires
            raw matches Some(x) ==> x <= 0xFFFFFF,
        ensures
            raw matches Some(x) ==> (r matches Some(uv) && uv == microvolts_of(
                self.config().v_ref.microvolts_spec(),
                sign_extend_24(x),
            )),
            raw is None ==> r is None,
    {
        match raw {
            Some(x) => {
                let signed = self.raw_to_signed(x);
                Some(convert_signed_to_microvolts(self.cfg.v_ref.to_microvolts(), signed))
            },
            None => None,
        }
    }

    /// Reset the device.
    pub fn reset(&mut self) -> (r: Result<(), Error<E>>)
        ensures
            final(self).config() == old(self).config(),
            r matches Err(e) ==> e is CommError,
    {
        self.bus.write_data(Commands::Reset.code())
    }

    /// Start a measurement (or, in continuous mode, a series).
    pub fn start(&mut self) -> (r: Result<(), Error<E>>)
        ensures
            final(self).config() == old(self).config(),
            r matches Err(e) ==> e is CommError,
    {
        self.bus.write_data(Commands::StartSync.code())
    }
}

/// Scale a signed 24-bit sample to microvolts against a reference voltage,
/// in exact integer arithmetic: `reference_uv * raw / 2^23`, truncated
/// toward zero.
pub fn convert_signed_to_microvolts(reference_uv: u32, raw: i32) -> (r: i64)
    requires
        -0x800000 <= raw <= 0x7FFFFF,
    ensures
        r == microvolts_of(reference_uv, raw as int),
{
    let reference = reference_uv as u64;
    if raw >= 0 {
        let sample = raw as u64;
        proof {
            assert(reference * sample <= 0xFFFFFFFFu64 * 0x800000u64) by (nonlinear_arith)
                requires
                    reference <= 0xFFFFFFFF,
                    sample <= 0x800000,
            ;
        }
        let product = reference * sample;
        proof {
            vstd::arithmetic::div_mod::lemma_div_is_ordered(
                product as int,
                0xFFFFFFFFu64 * 0x800000u64,
                0x800000,
            );
        }
        (product / 0x800000) as i64
    } else {
        let magnitude = (-(raw as i64)) as u64;
        proof {
            assert(reference * magnitude <= 0xFFFFFFFFu64 * 0x800000u64) by (nonlinear_arith)
                requires
                    reference <= 0xFFFFFFFF,
                    magnitude <= 0x800000,
            ;
        }
        let product = reference * magnitude;
        proof {
            vstd::arithmetic::div_mod::lemma_div_is_ordered(
                product as int,
                0xFFFFFFFFu64 * 0x800000u64,
                0x800000,
            );
        }
        -((product / 0x800000) as i64)
    }
}

} // verus!
