//! Commands, configuration-register fields, and their bit-level codes.
//!
//! Every field of the four configuration registers is an enumeration paired
//! with two total mappings: `code` packs the variant into its bit-field value,
//! and `from` unpacks a bit-field value back into a variant, sending every
//! undefined code to a documented default (hardware may return undefined bit
//! patterns, so decoding never fails).

use vstd::prelude::*;

verus! {

/// The internal voltage reference of the chip, in microvolts (2.048 V).
pub const INTERNAL_REF_MICROVOLTS: u32 = 2048000;

/// Commands the device accepts as a single opcode byte.
#[derive(Debug, Copy, Clone, PartialEq, Eq, Structural)]
pub enum Commands {
    /// Reset the device.
    Reset,
    /// Start a measurement (or a series, in continuous mode).
    StartSync,
    /// Put the device in power-down mode.
    PowerDown,
    /// Request the conversion data.
    RData,
    /// Read a configuration register (address goes in the high bits).
    RReg,
    /// Write a configuration register (address goes in the high bits).
    WReg,
}

impl Commands {
    /// The opcode byte of this command.
    pub open spec fn code_spec(self) -> u8 {
        match self {
            Commands::Reset => 0b110,
            Commands::StartSync => 0b1000,
            Commands::PowerDown => 0b10,
            Commands::RData => 0b10000,
            Commands::RReg => 0b0100000,
            Commands::WReg => 0b1000000,
        }
    }

    /// Produce the opcode byte of this command.
    pub fn code(self) -> (r: u8)
        ensures
            r == self.code_spec(),
    {
        match self {
            Commands::Reset => 0b110,
            Commands::StartSync => 0b1000,
            Commands::PowerDown => 0b10,
            Commands::RData => 0b10000,
            Commands::RReg => 0b0100000,
            Commands::WReg => 0b1000000,
        }
    }
}

/// Input multiplexer selection: differential pairs, single-ended inputs
/// against AVSS, internal monitors, or shorted inputs. A 4-bit code.
#[derive(Debug, Copy, Clone, PartialEq, Eq, Structural)]
#[allow(missing_docs)]
pub enum Mux {
    Ain0Ain1,
    Ain0Ain2,
    Ain0Ain3,
    Ain1Ain0,
    Ain1Ain2,
    Ain1Ain3,
    Ain2Ain3,
    Ain3Ain2,
    Ain0Avss,
    Ain1Avss,
    Ain2Avss,
    Ain3Avss,
    VrefMonitor,
    AvddMonitor,
    Shorted,
}

impl Mux {
    /// The 4-bit register code of this multiplexer selection.
    pub open spec fn code_spec(self) -> u8 {
        match self {
            Mux::Ain0Ain1 => 0b0000,
            Mux::Ain0Ain2 => 0b0001,
            Mux::Ain0Ain3 => 0b0010,
            Mux::Ain1Ain0 => 0b0011,
            Mux::Ain1Ain2 => 0b0100,
            Mux::Ain1Ain3 => 0b0101,
            Mux::Ain2Ain3 => 0b0110,
            Mux::Ain3Ain2 => 0b0111,
            Mux::Ain0Avss => 0b1000,
            Mux::Ain1Avss => 0b1001,
            Mux::Ain2Avss => 0b1010,
            Mux::Ain3Avss => 0b1011,
            Mux::VrefMonitor => 0b1100,
            Mux::AvddMonitor => 0b1101,
            Mux::Shorted => 0b1110,
        }
    }

    /// The multiplexer selection a 4-bit code denotes; the one undefined
    /// code falls back to the first differential pair.
    pub open spec fn from_spec(val: u8) -> Mux {
        match val {
            0b0000 => Mux::Ain0Ain1,
            0b0001 => Mux::Ain0Ain2,
            0b0010 => Mux::Ain0Ain3,
            0b0011 => Mux::Ain1Ain0,
            0b0100 => Mux::Ain1Ain2,
            0b0101 => Mux::Ain1Ain3,
            0b0110 => Mux::Ain2Ain3,
            0b0111 => Mux::Ain3Ain2,
            0b1000 => Mux::Ain0Avss,
            0b1001 => Mux::Ain1Avss,
            0b1010 => Mux::Ain2Avss,
            0b1011 => Mux::Ain3Avss,
            0b1100 => Mux::VrefMonitor,
            0b1101 => Mux::AvddMonitor,
            0b1110 => Mux::Shorted,
            _ => Mux::Ain0Ain1,
        }
    }

    /// Pack this multiplexer selection into its 4-bit register code.
    pub fn code(self) -> (r: u8)
        ensures
            r == self.code_spec(),
            r < 15,
    {
        match self {
            Mux::Ain0Ain1 => 0b0000,
            Mux::Ain0Ain2 => 0b0001,
            Mux::Ain0Ain3 => 0b0010,
            Mux::Ain1Ain0 => 0b0011,
            Mux::Ain1Ain2 => 0b0100,
            Mux::Ain1Ain3 => 0b0101,
            Mux::Ain2Ain3 => 0b0110,
            Mux::Ain3Ain2 => 0b0111,
            Mux::Ain0Avss => 0b1000,
            Mux::Ain1Avss => 0b1001,
            Mux::Ain2Avss => 0b1010,
            Mux::Ain3Avss => 0b1011,
            Mux::VrefMonitor => 0b1100,
            Mux::AvddMonitor => 0b1101,
            Mux::Shorted => 0b1110,
        }
    }

    /// Decode a 4-bit register code into a multiplexer selection; the one
    /// undefined code falls back to the first differential pair.
    pub fn from(val: u8) -> (r: Self)
        ensures
            r == Self::from_spec(val),
    {
        match val {
            0b0000 => Self::Ain0Ain1,
            0b0001 => Self::Ain0Ain2,
            0b0010 => Self::Ain0Ain3,
            0b0011 => Self::Ain1Ain0,
            0b0100 => Self::Ain1Ain2,
            0b0101 => Self::Ain1Ain3,
            0b0110 => Self::Ain2Ain3,
            0b0111 => Self::Ain3Ain2,
            0b1000 => Self::Ain0Avss,
            0b1001 => Self::Ain1Avss,
            0b1010 => Self::Ain2Avss,
            0b1011 => Self::Ain3Avss,
            0b1100 => Self::VrefMonitor,
            0b1101 => Self::AvddMonitor,
            0b1110 => Self::Shorted,
            _ => Self::Ain0Ain1,
        }
    }
}

/// Sample-rate selection. The 4-bit code joins the 3-bit data-rate field with
/// the turbo-mode flag in its lowest bit: even codes are normal-mode rates,
/// odd codes are turbo-mode rates.
#[derive(Debug, Copy, Clone, PartialEq, Eq, Structural)]
#[allow(missing_docs)]
pub enum DataRate {
    Sps20Normal,
    Sps45Normal,
    Sps90Normal,
    Sps175Normal,
    Sps330Normal,
    Sps600Normal,
    Sps1000Normal,
    Sps40Turbo,
    Sps90Turbo,
    Sps180Turbo,
    Sps350Turbo,
    Sps660Turbo,
    Sps1200Turbo,
    Sps2000Turbo,
}

impl DataRate {
    /// The 4-bit code of this sample rate; bit 0 is the turbo-mode flag.
    pub open spec fn code_spec(self) -> u8 {
        match self {
            DataRate::Sps20Normal => 0b0000,
            DataRate::Sps45Normal => 0b0010,
            DataRate::Sps90Normal => 0b0100,
            DataRate::Sps175Normal => 0b0110,
            DataRate::Sps330Normal => 0b1000,
            DataRate::Sps600Normal => 0b1010,
            DataRate::Sps1000Normal => 0b1100,
            DataRate::Sps40Turbo => 0b0001,
            DataRate::Sps90Turbo => 0b0011,
            DataRate::Sps180Turbo => 0b0101,
            DataRate::Sps350Turbo => 0b0111,
            DataRate::Sps660Turbo => 0b1001,
            DataRate::Sps1200Turbo => 0b1011,
            DataRate::Sps2000Turbo => 0b1101,
        }
    }

    /// Whether this sample rate runs in turbo mode (the low bit of its code).
    pub open spec fn is_turbo_spec(self) -> bool {
        self.code_spec() % 2 == 1
    }

    /// The sample rate a 4-bit code denotes; the two undefined codes fall
    /// back to 20 samples per second in normal mode.
    pub open spec fn from_spec(val: u8) -> DataRate {
        match val {
            0b0000 => DataRate::Sps20Normal,
            0b0010 => DataRate::Sps45Normal,
            0b0100 => DataRate::Sps90Normal,
            0b0110 => DataRate::Sps175Normal,
            0b1000 => DataRate::Sps330Normal,
            0b1010 => DataRate::Sps600Normal,
            0b1100 => DataRate::Sps1000Normal,
            0b0001 => DataRate::Sps40Turbo,
            0b0011 => DataRate::Sps90Turbo,
            0b0101 => DataRate::Sps180Turbo,
            0b0111 => DataRate::Sps350Turbo,
            0b1001 => DataRate::Sps660Turbo,
            0b1011 => DataRate::Sps1200Turbo,
            0b1101 => DataRate::Sps2000Turbo,
            _ => DataRate::Sps20Normal,
        }
    }

    /// Pack this sample rate into its 4-bit code.
    pub fn code(self) -> (r: u8)
        ensures
            r == self.code_spec(),
            r < 14,
    {
        match self {
            DataRate::Sps20Normal => 0b0000,
            DataRate::Sps45Normal => 0b0010,
            DataRate::Sps90Normal => 0b0100,
            DataRate::Sps175Normal => 0b0110,
            DataRate::Sps330Normal => 0b1000,
            DataRate::Sps600Normal => 0b1010,
            DataRate::Sps1000Normal => 0b1100,
            DataRate::Sps40Turbo => 0b0001,
            DataRate::Sps90Turbo => 0b0011,
            DataRate::Sps180Turbo => 0b0101,
            DataRate::Sps350Turbo => 0b0111,
            DataRate::Sps660Turbo => 0b1001,
            DataRate::Sps1200Turbo => 0b1011,
            DataRate::Sps2000Turbo => 0b1101,
        }
    }

    /// Decode a 4-bit code into a sample rate; the two undefined codes fall
    /// back to 20 samples per second in normal mode.
    pub fn from(val: u8) -> (r: Self)
        ensures
            r == Self::from_spec(val),
    {
        match val {
            0b0000 => Self::Sps20Normal,
            0b0010 => Self::Sps45Normal,
            0b0100 => Self::Sps90Normal,
            0b0110 => Self::Sps175Normal,
            0b1000 => Self::Sps330Normal,
            0b1010 => Self::Sps600Normal,
            0b1100 => Self::Sps1000Normal,
            0b0001 => Self::Sps40Turbo,
            0b0011 => Self::Sps90Turbo,
            0b0101 => Self::Sps180Turbo,
            0b0111 => Self::Sps350Turbo,
            0b1001 => Self::Sps660Turbo,
            0b1011 => Self::Sps1200Turbo,
            0b1101 => Self::Sps2000Turbo,
            _ => Self::Sps20Normal,
        }
    }
}

/// Programmable gain amplifier setting: a power of two from 1 to 128,
/// stored as a 3-bit code.
#[derive(Debug, Copy, Clone, PartialEq, Eq, Structural)]
#[allow(missing_docs)]
pub enum Gain {
    Gain1,
    Gain2,
    Gain4,
    Gain8,
    Gain16,
    Gain32,
    Gain64,
    Gain128,
}

impl Gain {
    /// The 3-bit register code of this gain setting.
    pub open spec fn code_spec(self) -> u8 {
        match self {
            Gain::Gain1 => 0b000,
            Gain::Gain2 => 0b001,
            Gain::Gain4 => 0b010,
            Gain::Gain8 => 0b011,
            Gain::Gain16 => 0b100,
            Gain::Gain32 => 0b101,
            Gain::Gain64 => 0b110,
            Gain::Gain128 => 0b111,
        }
    }

    /// The gain setting a 3-bit code denotes; every one of the eight codes
    /// is defined.
    pub open spec fn from_spec(val: u8) -> Gain {
        match val {
            0b000 => Gain::Gain1,
            0b001 => Gain::Gain2,
            0b010 => Gain::Gain4,
            0b011 => Gain::Gain8,
            0b100 => Gain::Gain16,
            0b101 => Gain::Gain32,
            0b110 => Gain::Gain64,
            0b111 => Gain::Gain128,
            _ => Gain::Gain1,
        }
    }

    /// Pack this gain setting into its 3-bit register code.
    pub fn code(self) -> (r: u8)
        ensures
            r == self.code_spec(),
            r < 8,
    {
        match self {
            Gain::Gain1 => 0b000,
            Gain::Gain2 => 0b001,
            Gain::Gain4 => 0b010,
            Gain::Gain8 => 0b011,
            Gain::Gain16 => 0b100,
            Gain::Gain32 => 0b101,
            Gain::Gain64 => 0b110,
            Gain::Gain128 => 0b111,
        }
    }

    /// Decode a 3-bit register code into a gain setting; codes above 7 fall
    /// back to a gain of 1.
    pub fn from(val: u8) -> (r: Self)
        ensures
            r == Self::from_spec(val),
    {
        match val {
            0b000 => Self::Gain1,
            0b001 => Self::Gain2,
            0b010 => Self::Gain4,
            0b011 => Self::Gain8,
            0b100 => Self::Gain16,
            0b101 => Self::Gain32,
            0b110 => Self::Gain64,
            0b111 => Self::Gain128,
            _ => Self::Gain1,
        }
    }
}

/// Excitation current level of the two internal current sources, a 3-bit
/// code from off up to 1.5 mA.
#[derive(Debug, Copy, Clone, PartialEq, Eq, Structural)]
#[allow(missing_docs)]
pub enum CurrentSource {
    Off,
    I10uA,
    I50uA,
    I100uA,
    I250uA,
    I500uA,
    I1000uA,
    I1500uA,
}

impl CurrentSource {
    /// The 3-bit register code of this current level.
    pub open spec fn code_spec(self) -> u8 {
        match self {
            CurrentSource::Off => 0b000,
            CurrentSource::I10uA => 0b001,
            CurrentSource::I50uA => 0b010,
            CurrentSource::I100uA => 0b011,
            CurrentSource::I250uA => 0b100,
            CurrentSource::I500uA => 0b101,
            CurrentSource::I1000uA => 0b110,
            CurrentSource::I1500uA => 0b111,
        }
    }

    /// The current level a 3-bit code denotes; every one of the eight codes
    /// is defined.
    pub open spec fn from_spec(val: u8) -> CurrentSource {
        match val {
            0b001 => CurrentSource::I10uA,
            0b010 => CurrentSource::I50uA,
            0b011 => CurrentSource::I100uA,
            0b100 => CurrentSource::I250uA,
            0b101 => CurrentSource::I500uA,
            0b110 => CurrentSource::I1000uA,
            0b111 => CurrentSource::I1500uA,
            _ => CurrentSource::Off,
        }
    }

    /// Pack this current level into its 3-bit register code.
    pub fn code(self) -> (r: u8)
        ensures
            r == self.code_spec(),
            r < 8,
    {
        match self {
            CurrentSource::Off => 0b000,
            CurrentSource::I10uA => 0b001,
            CurrentSource::I50uA => 0b010,
            CurrentSource::I100uA => 0b011,
            CurrentSource::I250uA => 0b100,
            CurrentSource::I500uA => 0b101,
            CurrentSource::I1000uA => 0b110,
            CurrentSource::I1500uA => 0b111,
        }
    }

    /// Decode a 3-bit register code into a current level; codes above 7
    /// fall back to off.
    pub fn from(val: u8) -> (r: Self)
        ensures
            r == Self::from_spec(val),
    {
        match val {
            0b001 => Self::I10uA,
            0b010 => Self::I50uA,
            0b011 => Self::I100uA,
            0b100 => Self::I250uA,
            0b101 => Self::I500uA,
            0b110 => Self::I1000uA,
            0b111 => Self::I1500uA,
            _ => Self::Off,
        }
    }
}

/// Routing of one excitation current source to an input or reference pin,
/// a 3-bit code.
#[derive(Debug, Copy, Clone, PartialEq, Eq, Structural)]
#[allow(missing_docs)]
pub enum CurrentRoute {
    Off,
    Ain0,
    Ain1,
    Ain2,
    Ain3,
    RefP,
    RefN,
}

impl CurrentRoute {
    /// The 3-bit register code of this routing.
    pub open spec fn code_spec(self) -> u8 {
        match self {
            CurrentRoute::Off => 0b000,
            CurrentRoute::Ain0 => 0b001,
            CurrentRoute::Ain1 => 0b010,
            CurrentRoute::Ain2 => 0b011,
            CurrentRoute::Ain3 => 0b100,
            CurrentRoute::RefP => 0b101,
            CurrentRoute::RefN => 0b110,
        }
    }

    /// The routing a 3-bit code denotes; the undefined code falls back to
    /// off.
    pub open spec fn from_spec(val: u8) -> CurrentRoute {
        match val {
            0b001 => CurrentRoute::Ain0,
            0b010 => CurrentRoute::Ain1,
            0b011 => CurrentRoute::Ain2,
            0b100 => CurrentRoute::Ain3,
            0b101 => CurrentRoute::RefP,
            0b110 => CurrentRoute::RefN,
            _ => CurrentRoute::Off,
        }
    }

    /// Pack this routing into its 3-bit register code.
    pub fn code(self) -> (r: u8)
        ensures
            r == self.code_spec(),
            r < 7,
    {
        match self {
            CurrentRoute::Off => 0b000,
            CurrentRoute::Ain0 => 0b001,
            CurrentRoute::Ain1 => 0b010,
            CurrentRoute::Ain2 => 0b011,
            CurrentRoute::Ain3 => 0b100,
            CurrentRoute::RefP => 0b101,
            CurrentRoute::RefN => 0b110,
        }
    }

    /// Decode a 3-bit register code into a routing; undefined codes fall
    /// back to off.
    pub fn from(val: u8) -> (r: Self)
        ensures
            r == Self::from_spec(val),
    {
        match val {
            0b001 => Self::Ain0,
            0b010 => Self::Ain1,
            0b011 => Self::Ain2,
            0b100 => Self::Ain3,
            0b101 => Self::RefP,
            0b110 => Self::RefN,
            _ => Self::Off,
        }
    }
}

/// Conversion mode: one conversion per start command, or free-running.
#[derive(Debug, Copy, Clone, PartialEq, Eq, Structural)]
pub enum ConversionMode {
    /// One conversion per start command.
    SingleShot,
    /// Conversions run continuously once started.
    Continuous,
}

impl ConversionMode {
    /// The 1-bit register code of this conversion mode.
    pub open spec fn code_spec(self) -> u8 {
        match self {
            ConversionMode::SingleShot => 0,
            ConversionMode::Continuous => 1,
        }
    }

    /// The conversion mode a code denotes: zero is single-shot, everything
    /// else continuous.
    pub open spec fn from_spec(val: u8) -> ConversionMode {
        match val {
            0 => ConversionMode::SingleShot,
            _ => ConversionMode::Continuous,
        }
    }

    /// Pack this conversion mode into its 1-bit register code.
    pub fn code(self) -> (r: u8)
        ensures
            r == self.code_spec(),
            r < 2,
    {
        match self {
            ConversionMode::SingleShot => 0,
            ConversionMode::Continuous => 1,
        }
    }

    /// Decode a code into a conversion mode: zero is single-shot,
    /// everything else continuous.
    pub fn from(val: u8) -> (r: Self)
        ensures
            r == Self::from_spec(val),
    {
        match val {
            0 => Self::SingleShot,
            _ => Self::Continuous,
        }
    }
}

/// Integrity check appended to conversion data, a 2-bit code.
#[derive(Debug, Copy, Clone, PartialEq, Eq, Structural)]
pub enum Crc {
    /// No integrity data.
    Disabled,
    /// Bitwise-inverted copy of the data.
    Inverted,
    /// 16-bit cyclic redundancy check.
    Crc16,
}

impl Crc {
    /// The 2-bit register code of this integrity mode.
    pub open spec fn code_spec(self) -> u8 {
        match self {
            Crc::Disabled => 0b00,
            Crc::Inverted => 0b01,
            Crc::Crc16 => 0b10,
        }
    }

    /// The integrity mode a 2-bit code denotes; the undefined code falls
    /// back to disabled.
    pub open spec fn from_spec(val: u8) -> Crc {
        match val {
            0b01 => Crc::Inverted,
            0b10 => Crc::Crc16,
            _ => Crc::Disabled,
        }
    }

    /// Pack this integrity mode into its 2-bit register code.
    pub fn code(self) -> (r: u8)
        ensures
            r == self.code_spec(),
            r < 3,
    {
        match self {
            Crc::Disabled => 0b00,
            Crc::Inverted => 0b01,
            Crc::Crc16 => 0b10,
        }
    }

    /// Decode a 2-bit register code into an integrity mode; undefined codes
    /// fall back to disabled.
    pub fn from(val: u8) -> (r: Self)
        ensures
            r == Self::from_spec(val),
    {
        match val {
            0b01 => Self::Inverted,
            0b10 => Self::Crc16,
            _ => Self::Disabled,
        }
    }
}

/// Voltage reference selection. The chip cannot measure an external or
/// analog-supply reference, so those variants carry the reference voltage,
/// in microvolts, as supplied by the caller at selection time.
#[derive(Debug, Copy, Clone, PartialEq, Eq, Structural)]
pub enum VRef {
    /// The internal 2.048 V reference.
    Internal,
    /// An external reference on the RefP and RefN pins, in microvolts.
    External(u32),
    /// The analog supply (AVDD minus AVSS) as reference, in microvolts.
    AnalogSupply(u32),
}

impl VRef {
    /// The 2-bit register code of this reference selection.
    pub open spec fn to_val_spec(self) -> u8 {
        match self {
            VRef::Internal => 0b00,
            VRef::External(_) => 0b01,
            VRef::AnalogSupply(_) => 0b10,
        }
    }

    /// The reference voltage in microvolts: the fixed internal value, or
    /// the value the caller supplied.
    pub open spec fn microvolts_spec(self) -> u32 {
        match self {
            VRef::Internal => INTERNAL_REF_MICROVOLTS,
            VRef::External(uv) => uv,
            VRef::AnalogSupply(uv) => uv,
        }
    }

    /// The reference selection a 2-bit code denotes, carrying the given
    /// voltage where one is needed; undefined codes fall back to the
    /// internal reference.
    pub open spec fn from_spec(val: u8, microvolts: u32) -> VRef {
        match val {
            0b00 => VRef::Internal,
            0b01 => VRef::External(microvolts),
            0b10 => VRef::AnalogSupply(microvolts),
            _ => VRef::Internal,
        }
    }

    /// Pack this reference selection into its 2-bit register code.
    pub fn to_val(&self) -> (r: u8)
        ensures
            r == self.to_val_spec(),
            r < 3,
    {
        match self {
            VRef::Internal => 0b00,
            VRef::External(_) => 0b01,
            VRef::AnalogSupply(_) => 0b10,
        }
    }

    /// Produce the reference voltage in microvolts.
    pub fn to_microvolts(&self) -> (r: u32)
        ensures
            r == self.microvolts_spec(),
    {
        match self {
            VRef::Internal => INTERNAL_REF_MICROVOLTS,
            VRef::External(uv) => *uv,
            VRef::AnalogSupply(uv) => *uv,
        }
    }

    /// Decode a 2-bit register code into a reference selection, carrying
    /// the given voltage where one is needed; undefined codes fall back to
    /// the internal reference.
    pub fn from(val: u8, microvolts: u32) -> (r: Self)
        ensures
            r == Self::from_spec(val, microvolts),
    {
        match val {
            0b00 => Self::Internal,
            0b01 => Self::External(microvolts),
            0b10 => Self::AnalogSupply(microvolts),
            _ => Self::Internal,
        }
    }
}

/// Every field code round-trips: decoding the code a setting packs to
/// returns that same setting. The voltage reference keeps its caller-supplied
/// voltage across the round trip.
pub proof fn lemma_field_code_round_trip(
    g: Gain,
    m: Mux,
    dr: DataRate,
    cs: CurrentSource,
    cr: CurrentRoute,
    cm: ConversionMode,
    crc: Crc,
    vr: VRef,
)
    ensures
        Gain::from_spec(g.code_spec()) == g,
        Mux::from_spec(m.code_spec()) == m,
        DataRate::from_spec(dr.code_spec()) == dr,
        CurrentSource::from_spec(cs.code_spec()) == cs,
        CurrentRoute::from_spec(cr.code_spec()) == cr,
        ConversionMode::from_spec(cm.code_spec()) == cm,
        Crc::from_spec(crc.code_spec()) == crc,
        VRef::from_spec(vr.to_val_spec(), vr.microvolts_spec()) == vr,
        m.code_spec() < 15,
{
}

/// Decoding is left-inverse to encoding on every defined code: each field's
/// `from` mapping sends a valid code to the unique setting that packs to it.
pub proof fn lemma_defined_codes_decode_exactly(val: u8)
    ensures
        val < 8 ==> Gain::from_spec(val).code_spec() == val,
        val < 15 ==> Mux::from_spec(val).code_spec() == val,
        val < 14 ==> DataRate::from_spec(val).code_spec() == val,
        val < 8 ==> CurrentSource::from_spec(val).code_spec() == val,
        val < 7 ==> CurrentRoute::from_spec(val).code_spec() == val,
        val < 2 ==> ConversionMode::from_spec(val).code_spec() == val,
        val < 3 ==> Crc::from_spec(val).code_spec() == val,
        forall|uv: u32| val < 3 ==> (#[trigger] VRef::from_spec(val, uv)).to_val_spec() == val,
{
}

} // verus!
