//! Transport layer: the wire frames of every device operation, and the two
//! interchangeable interfaces that carry them.
//!
//! Each operation is first rendered into its exact byte frame by a verified
//! builder, then handed to an underlying driver through one of two capability
//! traits: [`BusPort`] for a bus-addressed request/response medium, or
//! [`StreamPort`] for a framed byte stream. The stream variant prefixes every
//! frame with [`FRAME_MARKER`] and flushes after every write; the frames are
//! otherwise identical, which [`lemma_stream_frames_add_marker_only`] proves.

use vstd::prelude::*;

use crate::{Error, Sealed};
use crate::registers::Commands;

verus! {

/// The framing byte that prefixes every exchange on the byte-stream
/// transport.
pub const FRAME_MARKER: u8 = 0x55;

/// How far the register address is shifted into a register-access opcode on
/// the bus-addressed (I2C) pairing.
pub const I2C_ADDRESS_SHIFT: u8 = 2;

/// How far the register address is shifted into a register-access opcode on
/// the byte-stream (UART) pairing.
pub const SERIAL_ADDRESS_SHIFT: u8 = 2;

/// An address shift width a chip/bus pairing may use: the register address
/// sits one or two bits up in a register-access opcode.
pub open spec fn valid_address_shift(shift: u8) -> bool {
    shift == 1 || shift == 2
}

/// The write-register opcode: the write command with the register address
/// packed into its upper bits.
pub open spec fn wreg_opcode_spec(register: u8, shift: u8) -> u8 {
    Commands::WReg.code_spec() | (register << shift)
}

/// The read-register opcode: the read command with the register address
/// packed into its upper bits.
pub open spec fn rreg_opcode_spec(register: u8, shift: u8) -> u8 {
    Commands::RReg.code_spec() | (register << shift)
}

/// Produce the write-register opcode for a register address.
pub fn wreg_opcode(register: u8, shift: u8) -> (r: u8)
    requires
        register <= 3,
        valid_address_shift(shift),
    ensures
        r == wreg_opcode_spec(register, shift),
{
    Commands::WReg.code() | (register << shift)
}

/// Produce the read-register opcode for a register address.
pub fn rreg_opcode(register: u8, shift: u8) -> (r: u8)
    requires
        register <= 3,
        valid_address_shift(shift),
    ensures
        r == rreg_opcode_spec(register, shift),
{
    Commands::RReg.code() | (register << shift)
}

/// The bytes of a bus write-register transaction: opcode, then the value.
pub open spec fn bus_write_register_frame_spec(register: u8, value: u8, shift: u8) -> Seq<u8> {
    seq![wreg_opcode_spec(register, shift), value]
}

/// The bytes of a bus raw-command transaction: the opcode alone.
pub open spec fn bus_command_frame_spec(opcode: u8) -> Seq<u8> {
    seq![opcode]
}

/// The bytes a bus read-register transaction sends before reading one byte
/// back: the read opcode alone.
pub open spec fn bus_read_register_frame_spec(register: u8, shift: u8) -> Seq<u8> {
    seq![rreg_opcode_spec(register, shift)]
}

/// The bytes a bus read-data transaction sends before reading the three
/// sample bytes back: the request-data opcode alone.
pub open spec fn bus_read_data_frame_spec() -> Seq<u8> {
    seq![Commands::RData.code_spec()]
}

/// The bytes of a stream write-register exchange: the framing marker, the
/// opcode, then the value.
pub open spec fn stream_write_register_frame_spec(register: u8, value: u8, shift: u8) -> Seq<u8> {
    seq![FRAME_MARKER, wreg_opcode_spec(register, shift), value]
}

/// The bytes of a stream raw-command exchange: the framing marker, then the
/// opcode.
pub open spec fn stream_command_frame_spec(opcode: u8) -> Seq<u8> {
    seq![FRAME_MARKER, opcode]
}

/// The bytes a stream read-register exchange sends before reading one byte
/// back: the framing marker, then the read opcode.
pub open spec fn stream_read_register_frame_spec(register: u8, shift: u8) -> Seq<u8> {
    seq![FRAME_MARKER, rreg_opcode_spec(register, shift)]
}

/// The bytes a stream read-data exchange sends before reading the three
/// sample bytes back: the framing marker, then the request-data opcode.
pub open spec fn stream_read_data_frame_spec() -> Seq<u8> {
    seq![FRAME_MARKER, Commands::RData.code_spec()]
}

/// For every operation, the stream transport sends exactly the bytes of the
/// bus transaction with the framing marker prepended: opcode and payload are
/// identical on the two media.
pub proof fn lemma_stream_frames_add_marker_only(register: u8, value: u8, shift: u8, opcode: u8)
    ensures
        stream_write_register_frame_spec(register, value, shift)
            == seq![FRAME_MARKER].add(bus_write_register_frame_spec(register, value, shift)),
        stream_command_frame_spec(opcode) == seq![FRAME_MARKER].add(bus_command_frame_spec(opcode)),
        stream_read_register_frame_spec(register, shift)
            == seq![FRAME_MARKER].add(bus_read_register_frame_spec(register, shift)),
        stream_read_data_frame_spec() == seq![FRAME_MARKER].add(bus_read_data_frame_spec()),
{
    assert(stream_write_register_frame_spec(register, value, shift)
        =~= seq![FRAME_MARKER].add(bus_write_register_frame_spec(register, value, shift)));
    assert(stream_command_frame_spec(opcode)
        =~= seq![FRAME_MARKER].add(bus_command_frame_spec(opcode)));
    assert(stream_read_register_frame_spec(register, shift)
        =~= seq![FRAME_MARKER].add(bus_read_register_frame_spec(register, shift)));
    assert(stream_read_data_frame_spec() =~= seq![FRAME_MARKER].add(bus_read_data_frame_spec()));
}

/// Build the bus write-register frame.
pub fn bus_write_register_frame(register: u8, value: u8, shift: u8) -> (r: Vec<u8>)
    requires
        register <= 3,
        valid_address_shift(shift),
    ensures
        r@ == bus_write_register_frame_spec(register, value, shift),
{
    let mut frame: Vec<u8> = Vec::new();
    frame.push(wreg_opcode(register, shift));
    frame.push(value);
    proof {
        assert(frame@ =~= bus_write_register_frame_spec(register, value, shift));
    }
    frame
}

/// Build the frame of a bus raw-command transaction.
pub fn bus_command_frame(opcode: u8) -> (r: Vec<u8>)
    ensures
        r@ == bus_command_frame_spec(opcode),
{
    let mut frame: Vec<u8> = Vec::new();
    frame.push(opcode);
    proof {
        assert(frame@ =~= bus_command_frame_spec(opcode));
    }
    frame
}

/// Build the bytes a bus read-register transaction sends.
pub fn bus_read_register_frame(register: u8, shift: u8) -> (r: Vec<u8>)
    requires
        register <= 3,
        valid_address_shift(shift),
    ensures
        r@ == bus_read_register_frame_spec(register, shift),
{
    let mut frame: Vec<u8> = Vec::new();
    frame.push(rreg_opcode(register, shift));
    proof {
        assert(frame@ =~= bus_read_register_frame_spec(register, shift));
    }
    frame
}

/// Build the bytes a bus read-data transaction sends.
pub fn bus_read_data_frame() -> (r: Vec<u8>)
    ensures
        r@ == bus_read_data_frame_spec(),
{
    let mut frame: Vec<u8> = Vec::new();
    frame.push(Commands::RData.code());
    proof {
        assert(frame@ =~= bus_read_data_frame_spec());
    }
    frame
}

/// Build the stream write-register frame.
pub fn stream_write_register_frame(register: u8, value: u8, shift: u8) -> (r: Vec<u8>)
    requires
        register <= 3,
        valid_address_shift(shift),
    ensures
        r@ == stream_write_register_frame_spec(register, value, shift),
{
    let mut frame: Vec<u8> = Vec::new();
    frame.push(FRAME_MARKER);
    frame.push(wreg_opcode(register, shift));
    frame.push(value);
    proof {
        assert(frame@ =~= stream_write_register_frame_spec(register, value, shift));
    }
    frame
}

/// Build the frame of a stream raw-command exchange.
pub fn stream_command_frame(opcode: u8) -> (r: Vec<u8>)
    ensures
        r@ == stream_command_frame_spec(opcode),
{
    let mut frame: Vec<u8> = Vec::new();
    frame.push(FRAME_MARKER);
    frame.push(opcode);
    proof {
        assert(frame@ =~= stream_command_frame_spec(opcode));
    }
    frame
}

/// Build the bytes a stream read-register exchange sends.
pub fn stream_read_register_frame(register: u8, shift: u8) -> (r: Vec<u8>)
    requires
        register <= 3,
        valid_address_shift(shift),
    ensures
        r@ == stream_read_register_frame_spec(register, shift),
{
    let mut frame: Vec<u8> = Vec::new();
    frame.push(FRAME_MARKER);
    frame.push(rreg_opcode(register, shift));
    proof {
        assert(frame@ =~= stream_read_register_frame_spec(register, shift));
    }
    frame
}

/// Build the bytes a stream read-data exchange sends.
pub fn stream_read_data_frame() -> (r: Vec<u8>)
    ensures
        r@ == stream_read_data_frame_spec(),
{
    let mut frame: Vec<u8> = Vec::new();
    frame.push(FRAME_MARKER);
    frame.push(Commands::RData.code());
    proof {
        assert(frame@ =~= stream_read_data_frame_spec());
    }
    frame
}

/// The 24-bit sample value carried by three response bytes, reassembled
/// MSB first into the low bits of a word.
pub open spec fn sample_of_bytes(msb: u8, csb: u8, lsb: u8) -> u32 {
    ((msb as u32) << 16) | ((csb as u32) << 8) | (lsb as u32)
}

/// Reassemble the three response bytes of a conversion result, MSB first.
pub fn assemble_sample(msb: u8, csb: u8, lsb: u8) -> (r: u32)
    ensures
        r == sample_of_bytes(msb, csb, lsb),
        r <= 0xFFFFFF,
{
    proof {
        lemma_sample_of_bytes_is_24_bit(msb, csb, lsb);
    }
    ((msb as u32) << 16) | ((csb as u32) << 8) | (lsb as u32)
}

/// Three bytes reassemble to at most 24 significant bits.
proof fn lemma_sample_of_bytes_is_24_bit(msb: u8, csb: u8, lsb: u8)
    by (bit_vector)
    ensures
        ((msb as u32) << 16) | ((csb as u32) << 8) | (lsb as u32) <= 0xFFFFFF,
{
}

/// Capability of a bus-addressed request/response medium: write a byte
/// sequence to a target address as one transaction, or write then read back
/// a fixed number of bytes as one transaction.
///
/// The underlying bus driver is an external collaborator: implementations
/// live outside this crate, and an implementation must return exactly
/// `read_len` bytes from a successful `write_read`.
pub trait BusPort {
    /// The bus driver's own error type.
    type BusError;

    /// Write the bytes to the target address as a single transaction.
    fn write(&mut self, address: u8, bytes: &[u8]) -> Result<(), Self::BusError>;

    /// Write the bytes to the target address, then read exactly `read_len`
    /// bytes back, as a single transaction.
    fn write_read(&mut self, address: u8, bytes: &[u8], read_len: usize) -> (r: Result<
        Vec<u8>,
        Self::BusError,
    >)
        ensures
            r matches Ok(v) ==> v@.len() == read_len,
    ;
}

/// Capability of a byte-stream medium: write a byte sequence, force it out,
/// and block until an exact number of response bytes arrived.
///
/// The underlying stream driver is an external collaborator: implementations
/// live outside this crate, and an implementation must return exactly
/// `read_len` bytes from a successful `read_exact`.
pub trait StreamPort {
    /// The stream driver's own error type.
    type StreamError;

    /// Write all the bytes to the stream.
    fn write_all(&mut self, bytes: &[u8]) -> Result<(), Self::StreamError>;

    /// Guarantee that every written byte has been sent.
    fn flush(&mut self) -> Result<(), Self::StreamError>;

    /// Block until exactly `read_len` bytes arrived, and return them.
    fn read_exact(&mut self, read_len: usize) -> (r: Result<Vec<u8>, Self::StreamError>)
        ensures
            r matches Ok(v) ==> v@.len() == read_len,
    ;
}

/// Write side of a transport: emit a register write or a bare command.
pub trait WriteData: Sealed {
    /// The underlying driver's error type.
    type IoError;

    /// Emit a write-command opcode carrying the register address, followed
    /// by the value byte.
    fn write_register(&mut self, register: u8, data: u8) -> (r: Result<(), Error<Self::IoError>>)
        requires
            register <= 3,
        ensures
            r matches Err(e) ==> e is CommError,
    ;

    /// Emit a single command byte with no payload.
    fn write_data(&mut self, payload: u8) -> (r: Result<(), Error<Self::IoError>>)
        ensures
            r matches Err(e) ==> e is CommError,
    ;
}

/// Read side of a transport: fetch a register byte or a raw conversion
/// result.
pub trait ReadData: Sealed {
    /// The underlying driver's error type.
    type IoError;

    /// Emit a read-command opcode carrying the register address, then
    /// retrieve exactly one response byte.
    fn read_register(&mut self, register: u8) -> (r: Result<u8, Error<Self::IoError>>)
        requires
            register <= 3,
        ensures
            r matches Err(e) ==> e is CommError,
    ;

    /// Emit the request-data opcode, then retrieve exactly three response
    /// bytes, reassembled MSB first into the low 24 bits of the result.
    fn read_data(&mut self) -> (r: Result<u32, Error<Self::IoError>>)
        ensures
            r matches Err(e) ==> e is CommError,
            r matches Ok(v) ==> v <= 0xFFFFFF,
    ;
}

/// Transport over a bus-addressed medium: one atomic transaction per
/// operation, the target address supplied once per transaction, no explicit
/// flush.
#[derive(Debug)]
pub struct I2cInterface<B> {
    pub(crate) i2c: B,
    pub(crate) address: u8,
}

/// Transport over a byte-stream medium: every frame starts with the framing
/// marker, every write ends in a flush, every read waits for the exact byte
/// count.
#[derive(Debug)]
pub struct SerialInterface<S> {
    pub(crate) serial: S,
}

impl<B> Sealed for I2cInterface<B> {

}

impl<S> Sealed for SerialInterface<S> {

}

impl<B: BusPort> WriteData for I2cInterface<B> {
    type IoError = B::BusError;

    fn write_register(&mut self, register: u8, data: u8) -> (r: Result<(), Error<B::BusError>>) {
        let frame = bus_write_register_frame(register, data, I2C_ADDRESS_SHIFT);
        match self.i2c.write(self.address, frame.as_slice()) {
            Ok(()) => Ok(()),
            Err(e) => Err(Error::CommError(e)),
        }
    }

    fn write_data(&mut self, payload: u8) -> (r: Result<(), Error<B::BusError>>) {
        let frame = bus_command_frame(payload);
        match self.i2c.write(self.address, frame.as_slice()) {
            Ok(()) => Ok(()),
            Err(e) => Err(Error::CommError(e)),
        }
    }
}

impl<B: BusPort> ReadData for I2cInterface<B> {
    type IoError = B::BusError;

    fn read_register(&mut self, register: u8) -> (r: Result<u8, Error<B::BusError>>) {
        let frame = bus_read_register_frame(register, I2C_ADDRESS_SHIFT);
        match self.i2c.write_read(self.address, frame.as_slice(), 1) {
            Ok(buffer) => Ok(buffer[0]),
            Err(e) => Err(Error::CommError(e)),
        }
    }

    fn read_data(&mut self) -> (r: Result<u32, Error<B::BusError>>) {
        let frame = bus_read_data_frame();
        match self.i2c.write_read(self.address, frame.as_slice(), 3) {
            Ok(buffer) => Ok(assemble_sample(buffer[0], buffer[1], buffer[2])),
            Err(e) => Err(Error::CommError(e)),
        }
    }
}

impl<S: StreamPort> WriteData for SerialInterface<S> {
    type IoError = S::StreamError;

    fn write_register(&mut self, register: u8, data: u8) -> (r: Result<(), Error<S::StreamError>>) {
        let frame = stream_write_register_frame(register, data, SERIAL_ADDRESS_SHIFT);
        match self.serial.write_all(frame.as_slice()) {
            Ok(()) => {},
            Err(e) => {
                return Err(Error::CommError(e));
            },
        }
        match self.serial.flush() {
            Ok(()) => Ok(()),
            Err(e) => Err(Error::CommError(e)),
        }
    }

    fn write_data(&mut self, payload: u8) -> (r: Result<(), Error<S::StreamError>>) {
        let frame = stream_command_frame(payload);
        match self.serial.write_all(frame.as_slice()) {
            Ok(()) => {},
            Err(e) => {
                return Err(Error::CommError(e));
            },
        }
        match self.serial.flush() {
            Ok(()) => Ok(()),
            Err(e) => Err(Error::CommError(e)),
        }
    }
}

impl<S: StreamPort> ReadData for SerialInterface<S> {
    type IoError = S::StreamError;

    fn read_register(&mut self, register: u8) -> (r: Result<u8, Error<S::StreamError>>) {
        let frame = stream_read_register_frame(register, SERIAL_ADDRESS_SHIFT);
        match self.serial.write_all(frame.as_slice()) {
            Ok(()) => {},
            Err(e) => {
                return Err(Error::CommError(e));
            },
        }
        match self.serial.flush() {
            Ok(()) => {},
            Err(e) => {
                return Err(Error::CommError(e));
            },
        }
        match self.serial.read_exact(1) {
            Ok(buffer) => Ok(buffer[0]),
            Err(e) => Err(Error::CommError(e)),
        }
    }

    fn read_data(&mut self) -> (r: Result<u32, Error<S::StreamError>>) {
        let frame = stream_read_data_frame();
        match self.serial.write_all(frame.as_slice()) {
            Ok(()) => {},
            Err(e) => {
                return Err(Error::CommError(e));
            },
        }
        match self.serial.flush() {
            Ok(()) => {},
            Err(e) => {
                return Err(Error::CommError(e));
            },
        }
        match self.serial.read_exact(3) {
            Ok(buffer) => Ok(assemble_sample(buffer[0], buffer[1], buffer[2])),
            Err(e) => Err(Error::CommError(e)),
        }
    }
}

} // verus!
