//! The Modbus protocol data unit: requests, responses and exceptions, and
//! their byte form.

use vstd::prelude::*;
use vstd::slice::slice_subrange;
use vstd::string::*;
use bytes::{Bytes, BytesMut};
use crate::buffer::{
    buf_contents, buf_freeze, buf_put_u16, buf_put_u8, buf_with_capacity, bytes_as_slice,
    bytes_contents, read_u16_be, spec_u16_be, spec_u16_from_be,
};
use crate::error::{decimal_nat, push_decimal};
use crate::coils::{
    bool_to_coil, coil_to_bool, pack_coils, packed_len, spec_bool_to_coil, spec_coil_to_bool,
    spec_pack_coils, spec_unpack_coils, unpack_coils,
};

verus! {

/// A request of a client, one variant for each function code. The first field
/// is the zero-based address; the writes of many values borrow them.
#[derive(Debug, Clone, PartialEq, Eq)]
pub enum Request<'a> {
    ReadCoils(u16, u16),
    ReadDiscreteInputs(u16, u16),
    ReadHoldingRegisters(u16, u16),
    ReadInputRegisters(u16, u16),
    WriteSingleCoil(u16, bool),
    WriteSingleRegister(u16, u16),
    WriteMultipleCoils(u16, &'a [bool]),
    WriteMultipleRegisters(u16, &'a [u16]),
}

/// The response of a server to a request that it carried out.
#[derive(Debug, Clone, PartialEq, Eq)]
pub enum Response {
    ReadCoils(Vec<bool>),
    ReadDiscreteInputs(Vec<bool>),
    WriteSingleCoil(u16, bool),
    WriteMultipleCoils(u16, u16),
    ReadInputRegisters(Vec<u16>),
    ReadHoldingRegisters(Vec<u16>),
    WriteSingleRegister(u16, u16),
    WriteMultipleRegisters(u16, u16),
}

/// A response as a mathematical value.
pub enum ResponseView {
    ReadCoils(Seq<bool>),
    ReadDiscreteInputs(Seq<bool>),
    WriteSingleCoil(u16, bool),
    WriteMultipleCoils(u16, u16),
    ReadInputRegisters(Seq<u16>),
    ReadHoldingRegisters(Seq<u16>),
    WriteSingleRegister(u16, u16),
    WriteMultipleRegisters(u16, u16),
}

impl View for Response {
    type V = ResponseView;

    open spec fn view(&self) -> ResponseView {
        match *self {
            Response::ReadCoils(coils) => ResponseView::ReadCoils(coils@),
            Response::ReadDiscreteInputs(coils) => ResponseView::ReadDiscreteInputs(coils@),
            Response::WriteSingleCoil(a, v) => ResponseView::WriteSingleCoil(a, v),
            Response::WriteMultipleCoils(a, n) => ResponseView::WriteMultipleCoils(a, n),
            Response::ReadInputRegisters(words) => ResponseView::ReadInputRegisters(words@),
            Response::ReadHoldingRegisters(words) => ResponseView::ReadHoldingRegisters(words@),
            Response::WriteSingleRegister(a, v) => ResponseView::WriteSingleRegister(a, v),
            Response::WriteMultipleRegisters(a, n) => ResponseView::WriteMultipleRegisters(a, n),
        }
    }
}

/// The reason that a server gives for refusing a request.
#[derive(Debug, Copy, Clone, PartialEq, Eq, Structural)]
pub enum Exception {
    IllegalFunction,
    IllegalDataAddress,
    IllegalDataValue,
    ServerDeviceFailure,
    Acknowledge,
    ServerDeviceBusy,
    MemoryParityError,
    GateWayPathUnavailable,
    GatewayTargetDevice,
}

/// The refusal of a request: the function code of the request and the reason.
#[derive(Debug, Copy, Clone, PartialEq, Eq, Structural)]
pub struct ExceptionResponse {
    pub function: u8,
    pub exception: Exception,
}

/// A request on its way into a frame.
#[derive(Debug, Clone, PartialEq, Eq)]
pub struct RequestPdu<'a>(pub Request<'a>);

/// What a server answered: a response, or the refusal of the request.
#[derive(Debug, PartialEq, Eq)]
pub struct ResponsePdu(pub Result<Response, ExceptionResponse>);

/// Why bytes were not decoded.
#[derive(Debug, Copy, Clone, PartialEq, Eq, Structural)]
pub enum DecodeError {
    /// The bytes end before the unit does.
    UnexpectedEof,
    /// The function code is none that this engine knows.
    InvalidFunction(u8),
    /// The exception code is none of the protocol, or the unit is no exception.
    InvalidException(u8),
    /// The frame header names another protocol than Modbus.
    InvalidProtocolId(u16),
    /// The frame header gives a length of zero.
    InvalidLength,
}

/// The most coils that one write request can carry: their packed form must
/// fit the one-byte count of the unit.
pub const MAX_WRITE_COILS: usize = 2040;

/// The most registers that one write request can carry: two bytes each must
/// fit the one-byte count of the unit.
pub const MAX_WRITE_REGISTERS: usize = 127;

/// The wire code of an exception.
pub open spec fn spec_exception_code(e: Exception) -> u8 {
    match e {
        Exception::IllegalFunction => 0x01,
        Exception::IllegalDataAddress => 0x02,
        Exception::IllegalDataValue => 0x03,
        Exception::ServerDeviceFailure => 0x04,
        Exception::Acknowledge => 0x05,
        Exception::ServerDeviceBusy => 0x06,
        Exception::MemoryParityError => 0x08,
        Exception::GateWayPathUnavailable => 0x0A,
        Exception::GatewayTargetDevice => 0x0B,
    }
}

/// The exception that a wire code names, if any.
pub open spec fn spec_exception(code: u8) -> Option<Exception> {
    if code == 0x01 {
        Some(Exception::IllegalFunction)
    } else if code == 0x02 {
        Some(Exception::IllegalDataAddress)
    } else if code == 0x03 {
        Some(Exception::IllegalDataValue)
    } else if code == 0x04 {
        Some(Exception::ServerDeviceFailure)
    } else if code == 0x05 {
        Some(Exception::Acknowledge)
    } else if code == 0x06 {
        Some(Exception::ServerDeviceBusy)
    } else if code == 0x08 {
        Some(Exception::MemoryParityError)
    } else if code == 0x0A {
        Some(Exception::GateWayPathUnavailable)
    } else if code == 0x0B {
        Some(Exception::GatewayTargetDevice)
    } else {
        None
    }
}

/// The words that describe an exception.
pub open spec fn spec_description(e: Exception) -> Seq<char> {
    match e {
        Exception::IllegalFunction => "Illegal function"@,
        Exception::IllegalDataAddress => "Illegal data address"@,
        Exception::IllegalDataValue => "Illegal data value"@,
        Exception::ServerDeviceFailure => "Server device failure"@,
        Exception::Acknowledge => "Acknowledge"@,
        Exception::ServerDeviceBusy => "Server device busy"@,
        Exception::MemoryParityError => "Memory parity error"@,
        Exception::GateWayPathUnavailable => "Gate way path unavailable"@,
        Exception::GatewayTargetDevice => "Gateway target device failed to respond"@,
    }
}

/// Registers as bytes, each register high byte first.
pub open spec fn spec_registers_bytes(words: Seq<u16>) -> Seq<u8> {
    Seq::new(
        2 * words.len(),
        |i: int| if i % 2 == 0 { (words[i / 2] / 256) as u8 } else { (words[i / 2] % 256) as u8 },
    )
}

/// The registers written in the first `2 * count` bytes.
pub open spec fn spec_registers(bytes: Seq<u8>, count: nat) -> Seq<u16> {
    Seq::new(count, |i: int| spec_u16_from_be(bytes[2 * i], bytes[2 * i + 1]))
}

impl Exception {
    pub fn description(&self) -> (text: &'static str)
        ensures
            text@ == spec_description(*self),
    {
        match *self {
            Exception::IllegalFunction => "Illegal function",
            Exception::IllegalDataAddress => "Illegal data address",
            Exception::IllegalDataValue => "Illegal data value",
            Exception::ServerDeviceFailure => "Server device failure",
            Exception::Acknowledge => "Acknowledge",
            Exception::ServerDeviceBusy => "Server device busy",
            Exception::MemoryParityError => "Memory parity error",
            Exception::GateWayPathUnavailable => "Gate way path unavailable",
            Exception::GatewayTargetDevice => "Gateway target device failed to respond",
        }
    }

    /// The wire code of the exception.
    pub fn code(&self) -> (c: u8)
        ensures
            c == spec_exception_code(*self),
    {
        match *self {
            Exception::IllegalFunction => 0x01,
            Exception::IllegalDataAddress => 0x02,
            Exception::IllegalDataValue => 0x03,
            Exception::ServerDeviceFailure => 0x04,
            Exception::Acknowledge => 0x05,
            Exception::ServerDeviceBusy => 0x06,
            Exception::MemoryParityError => 0x08,
            Exception::GateWayPathUnavailable => 0x0A,
            Exception::GatewayTargetDevice => 0x0B,
        }
    }

    /// The exception that a wire code names.
    pub fn try_from_code(code: u8) -> (r: Result<Exception, DecodeError>)
        ensures
            r == (match spec_exception(code) {
                Some(e) => Ok::<Exception, DecodeError>(e),
                None => Err(DecodeError::InvalidException(code)),
            }),
    {
        match code {
            0x01 => Ok(Exception::IllegalFunction),
            0x02 => Ok(Exception::IllegalDataAddress),
            0x03 => Ok(Exception::IllegalDataValue),
            0x04 => Ok(Exception::ServerDeviceFailure),
            0x05 => Ok(Exception::Acknowledge),
            0x06 => Ok(Exception::ServerDeviceBusy),
            0x08 => Ok(Exception::MemoryParityError),
            0x0A => Ok(Exception::GateWayPathUnavailable),
            0x0B => Ok(Exception::GatewayTargetDevice),
            _ => Err(DecodeError::InvalidException(code)),
        }
    }
}

impl<'a> Request<'a> {
    /// The function code of the request.
    pub open spec fn spec_code(self) -> u8 {
        match self {
            Request::ReadCoils(_, _) => 0x01,
            Request::ReadDiscreteInputs(_, _) => 0x02,
            Request::ReadHoldingRegisters(_, _) => 0x03,
            Request::ReadInputRegisters(_, _) => 0x04,
            Request::WriteSingleCoil(_, _) => 0x05,
            Request::WriteSingleRegister(_, _) => 0x06,
            Request::WriteMultipleCoils(_, _) => 0x0F,
            Request::WriteMultipleRegisters(_, _) => 0x10,
        }
    }

    /// Whether the values of the request fit one unit.
    pub open spec fn wf(self) -> bool {
        match self {
            Request::WriteMultipleCoils(_, coils) => coils@.len() <= MAX_WRITE_COILS,
            Request::WriteMultipleRegisters(_, words) => words@.len() <= MAX_WRITE_REGISTERS,
            _ => true,
        }
    }

    /// The size that a buffer for the request is made with: five bytes, or six
    /// and one for each value written.
    pub open spec fn spec_req_size(self) -> nat {
        match self {
            Request::WriteMultipleCoils(_, coils) => 6 + coils@.len(),
            Request::WriteMultipleRegisters(_, words) => 6 + words@.len(),
            _ => 5,
        }
    }

    /// The bytes of the request: the function code, the address, then the
    /// quantity or the value; a write of many values gives their count, the
    /// number of bytes that follow, and the values.
    pub open spec fn spec_encode(self) -> Seq<u8> {
        match self {
            Request::ReadCoils(a, q) | Request::ReadDiscreteInputs(a, q)
            | Request::ReadHoldingRegisters(a, q) | Request::ReadInputRegisters(a, q) => seq![
                self.spec_code(),
            ] + spec_u16_be(a) + spec_u16_be(q),
            Request::WriteSingleCoil(a, state) => seq![self.spec_code()] + spec_u16_be(a)
                + spec_u16_be(spec_bool_to_coil(state)),
            Request::WriteSingleRegister(a, word) => seq![self.spec_code()] + spec_u16_be(a)
                + spec_u16_be(word),
            Request::WriteMultipleCoils(a, coils) => seq![self.spec_code()] + spec_u16_be(a)
                + spec_u16_be(coils@.len() as u16) + seq![packed_len(coils@.len()) as u8]
                + spec_pack_coils(coils@),
            Request::WriteMultipleRegisters(a, words) => seq![self.spec_code()] + spec_u16_be(a)
                + spec_u16_be(words@.len() as u16) + seq![(2 * words@.len()) as u8]
                + spec_registers_bytes(words@),
        }
    }

    pub fn code(&self) -> (c: u8)
        ensures
            c == self.spec_code(),
    {
        match self {
            Request::ReadCoils(_, _) => 0x01,
            Request::ReadDiscreteInputs(_, _) => 0x02,
            Request::ReadHoldingRegisters(_, _) => 0x03,
            Request::ReadInputRegisters(_, _) => 0x04,
            Request::WriteSingleCoil(_, _) => 0x05,
            Request::WriteSingleRegister(_, _) => 0x06,
            Request::WriteMultipleCoils(_, _) => 0x0F,
            Request::WriteMultipleRegisters(_, _) => 0x10,
        }
    }

    /// Whether the values of the request fit one unit.
    pub fn is_wf(&self) -> (b: bool)
        ensures
            b == self.wf(),
    {
        match self {
            Request::WriteMultipleCoils(_, coils) => coils.len() <= MAX_WRITE_COILS,
            Request::WriteMultipleRegisters(_, words) => words.len() <= MAX_WRITE_REGISTERS,
            _ => true,
        }
    }

    pub fn req_size(&self) -> (n: usize)
        requires
            self.wf(),
        ensures
            n == self.spec_req_size(),
    {
        match self {
            Request::ReadCoils(_, _)
            | Request::ReadDiscreteInputs(_, _)
            | Request::ReadHoldingRegisters(_, _)
            | Request::ReadInputRegisters(_, _)
            | Request::WriteSingleCoil(_, _)
            | Request::WriteSingleRegister(_, _) => 5,
            Request::WriteMultipleCoils(_, data) => 6 + data.len(),
            Request::WriteMultipleRegisters(_, data) => 6 + data.len(),
        }
    }
}

/// The response written in the bytes of a unit. Bytes after the unit are not
/// looked at.
pub open spec fn spec_decode_response(bytes: Seq<u8>) -> Result<ResponseView, DecodeError> {
    if bytes.len() < 1 {
        Err(DecodeError::UnexpectedEof)
    } else {
        let f = bytes[0];
        if f == 0x01 || f == 0x02 {
            if bytes.len() < 2 || bytes.len() < 2 + bytes[1] {
                Err(DecodeError::UnexpectedEof)
            } else {
                let coils = spec_unpack_coils(bytes.skip(2), (bytes[1] * 8) as nat);
                Ok(
                    if f == 0x01 {
                        ResponseView::ReadCoils(coils)
                    } else {
                        ResponseView::ReadDiscreteInputs(coils)
                    },
                )
            }
        } else if f == 0x03 || f == 0x04 {
            if bytes.len() < 2 || bytes.len() < 2 + 2 * (bytes[1] / 2) {
                Err(DecodeError::UnexpectedEof)
            } else {
                let words = spec_registers(bytes.skip(2), (bytes[1] / 2) as nat);
                Ok(
                    if f == 0x03 {
                        ResponseView::ReadHoldingRegisters(words)
                    } else {
                        ResponseView::ReadInputRegisters(words)
                    },
                )
            }
        } else if f == 0x05 || f == 0x06 || f == 0x0F || f == 0x10 {
            if bytes.len() < 5 {
                Err(DecodeError::UnexpectedEof)
            } else {
                let a = spec_u16_from_be(bytes[1], bytes[2]);
                let v = spec_u16_from_be(bytes[3], bytes[4]);
                Ok(
                    if f == 0x05 {
                        ResponseView::WriteSingleCoil(a, spec_coil_to_bool(v))
                    } else if f == 0x06 {
                        ResponseView::WriteSingleRegister(a, v)
                    } else if f == 0x0F {
                        ResponseView::WriteMultipleCoils(a, v)
                    } else {
                        ResponseView::WriteMultipleRegisters(a, v)
                    },
                )
            }
        } else {
            Err(DecodeError::InvalidFunction(f))
        }
    }
}

/// The refusal written in the bytes of a unit: the function code with its high
/// bit set, then the exception code.
pub open spec fn spec_decode_exception(bytes: Seq<u8>) -> Result<ExceptionResponse, DecodeError> {
    if bytes.len() < 1 {
        Err(DecodeError::UnexpectedEof)
    } else if bytes[0] < 0x80 {
        Err(DecodeError::InvalidException(bytes[0]))
    } else if bytes.len() < 2 {
        Err(DecodeError::UnexpectedEof)
    } else {
        match spec_exception(bytes[1]) {
            Some(exception) => Ok(
                ExceptionResponse { function: (bytes[0] - 0x80) as u8, exception },
            ),
            None => Err(DecodeError::InvalidException(bytes[1])),
        }
    }
}

/// What the bytes of a unit say: a response where the function code is below
/// 0x80, a refusal from there on.
pub open spec fn spec_decode_pdu(bytes: Seq<u8>) -> Result<
    Result<ResponseView, ExceptionResponse>,
    DecodeError,
> {
    if bytes.len() < 1 {
        Err(DecodeError::UnexpectedEof)
    } else if bytes[0] < 0x80 {
        match spec_decode_response(bytes) {
            Ok(v) => Ok(Ok(v)),
            Err(e) => Err(e),
        }
    } else {
        match spec_decode_exception(bytes) {
            Ok(x) => Ok(Err(x)),
            Err(e) => Err(e),
        }
    }
}

/// Whether a decoder's result is the one that the bytes call for.
pub open spec fn response_matches(
    r: Result<Response, DecodeError>,
    expected: Result<ResponseView, DecodeError>,
) -> bool {
    match expected {
        Ok(v) => r is Ok && r->Ok_0@ == v,
        Err(e) => r is Err && r->Err_0 == e,
    }
}

/// Whether a decoded unit is the one that the bytes call for.
pub open spec fn pdu_matches(
    r: Result<ResponsePdu, DecodeError>,
    expected: Result<Result<ResponseView, ExceptionResponse>, DecodeError>,
) -> bool {
    match expected {
        Ok(Ok(v)) => r is Ok && r->Ok_0.0 is Ok && r->Ok_0.0->Ok_0@ == v,
        Ok(Err(x)) => r is Ok && r->Ok_0.0 is Err && r->Ok_0.0->Err_0 == x,
        Err(e) => r is Err && r->Err_0 == e,
    }
}

/// The bytes of one more register follow those of the registers before it.
proof fn lemma_registers_bytes_step(words: Seq<u16>, i: int)
    requires
        0 <= i < words.len(),
    ensures
        spec_registers_bytes(words.take(i + 1)) == spec_registers_bytes(words.take(i))
            + spec_u16_be(words[i]),
{
    assert(spec_registers_bytes(words.take(i + 1)) =~= spec_registers_bytes(words.take(i))
        + spec_u16_be(words[i]));
}

impl<'a> Request<'a> {
    /// Writes the request out as the bytes of a unit.
    pub fn to_bytes(&self) -> (out: Bytes)
        requires
            self.wf(),
        ensures
            bytes_contents(out) == self.spec_encode(),
    {
        let mut data: BytesMut = buf_with_capacity(self.req_size());
        buf_put_u8(&mut data, self.code());
        assert(buf_contents(data) =~= seq![self.spec_code()]);
        match self {
            Request::ReadCoils(address, quantity)
            | Request::ReadDiscreteInputs(address, quantity)
            | Request::ReadInputRegisters(address, quantity)
            | Request::ReadHoldingRegisters(address, quantity) => {
                buf_put_u16(&mut data, *address);
                buf_put_u16(&mut data, *quantity);
            },
            Request::WriteSingleCoil(address, state) => {
                buf_put_u16(&mut data, *address);
                buf_put_u16(&mut data, bool_to_coil(*state));
            },
            Request::WriteMultipleCoils(address, coils) => {
                buf_put_u16(&mut data, *address);
                buf_put_u16(&mut data, coils.len() as u16);
                let packed = pack_coils(coils);
                buf_put_u8(&mut data, packed.len() as u8);
                let ghost head = buf_contents(data);
                let mut i: usize = 0;
                while i < packed.len()
                    invariant
                        i <= packed.len() <= 255,
                        head.len() == 6,
                        buf_contents(data) == head + packed@.take(i as int),
                    decreases packed.len() - i,
                {
                    buf_put_u8(&mut data, packed[i]);
                    proof {
                        assert(packed@.take(i + 1) =~= packed@.take(i as int).push(packed[i as int]));
                        assert(buf_contents(data) =~= head + packed@.take(i + 1));
                    }
                    i += 1;
                }
                proof {
                    assert(packed@.take(packed.len() as int) =~= packed@);
                }
            },
            Request::WriteSingleRegister(address, word) => {
                buf_put_u16(&mut data, *address);
                buf_put_u16(&mut data, *word);
            },
            Request::WriteMultipleRegisters(address, words) => {
                buf_put_u16(&mut data, *address);
                buf_put_u16(&mut data, words.len() as u16);
                buf_put_u8(&mut data, (words.len() * 2) as u8);
                let ghost head = buf_contents(data);
                let mut i: usize = 0;
                while i < words.len()
                    invariant
                        i <= words.len() <= MAX_WRITE_REGISTERS,
                        head.len() == 6,
                        buf_contents(data) == head + spec_registers_bytes(words@.take(i as int)),
                    decreases words.len() - i,
                {
                    buf_put_u16(&mut data, words[i]);
                    proof {
                        lemma_registers_bytes_step(words@, i as int);
                        assert(buf_contents(data) =~= head + spec_registers_bytes(
                            words@.take(i + 1),
                        ));
                    }
                    i += 1;
                }
                proof {
                    assert(words@.take(words.len() as int) =~= words@);
                }
            },
        }
        let out = buf_freeze(data);
        proof {
            assert(bytes_contents(out) =~= self.spec_encode());
        }
        out
    }
}

impl<'a> Request<'a> {
    /// The byte form of a request is at least five and at most 261 bytes long.
    pub proof fn lemma_encode_len(self)
        requires
            self.wf(),
        ensures
            5 <= self.spec_encode().len() <= 261,
            self.spec_encode()[0] == self.spec_code(),
    {
    }
}

impl<'a> RequestPdu<'a> {
    /// Writes the request out as the bytes of a unit.
    pub fn to_bytes(&self) -> (out: Bytes)
        requires
            self.0.wf(),
        ensures
            bytes_contents(out) == self.0.spec_encode(),
    {
        self.0.to_bytes()
    }
}

/// Reads `count` registers out of the bytes from `from` on.
fn read_registers(data: &[u8], from: usize, count: usize) -> (words: Vec<u16>)
    requires
        count <= 127,
        from + 2 * count <= data.len(),
    ensures
        words@ == spec_registers(data@.skip(from as int), count as nat),
{
    let mut words: Vec<u16> = Vec::with_capacity(count);
    let mut i: usize = 0;
    while i < count
        invariant
            i <= count <= 127,
            from + 2 * count <= data.len(),
            words.len() == i,
            forall|k: int|
                0 <= k < i ==> words[k] == spec_u16_from_be(
                    data[from + 2 * k],
                    data[from + 2 * k + 1],
                ),
        decreases count - i,
    {
        let at: usize = from + 2 * i;
        words.push(read_u16_be(slice_subrange(data, at, at + 2)));
        i += 1;
    }
    proof {
        assert(words@ =~= spec_registers(data@.skip(from as int), count as nat));
    }
    words
}

impl Response {
    /// Reads a response out of the bytes of a unit.
    pub fn decode(data: &[u8]) -> (r: Result<Response, DecodeError>)
        ensures
            response_matches(r, spec_decode_response(data@)),
    {
        if data.len() < 1 {
            return Err(DecodeError::UnexpectedEof);
        }
        let function: u8 = data[0];
        match function {
            0x01 | 0x02 => {
                if data.len() < 2 {
                    return Err(DecodeError::UnexpectedEof);
                }
                let byte_count: u8 = data[1];
                if data.len() < 2 + byte_count as usize {
                    return Err(DecodeError::UnexpectedEof);
                }
                let quantity: u16 = (byte_count as u16) * 8;
                let x = slice_subrange(data, 2, data.len());
                proof {
                    assert(x@ =~= data@.skip(2));
                }
                let coils = unpack_coils(x, quantity);
                if function == 0x01 {
                    Ok(Response::ReadCoils(coils))
                } else {
                    Ok(Response::ReadDiscreteInputs(coils))
                }
            },
            0x03 | 0x04 => {
                if data.len() < 2 {
                    return Err(DecodeError::UnexpectedEof);
                }
                let byte_count: u8 = data[1];
                let quantity: usize = (byte_count / 2) as usize;
                if data.len() < 2 + 2 * quantity {
                    return Err(DecodeError::UnexpectedEof);
                }
                let words = read_registers(data, 2, quantity);
                if function == 0x03 {
                    Ok(Response::ReadHoldingRegisters(words))
                } else {
                    Ok(Response::ReadInputRegisters(words))
                }
            },
            0x05 | 0x06 | 0x0F | 0x10 => {
                if data.len() < 5 {
                    return Err(DecodeError::UnexpectedEof);
                }
                let address: u16 = read_u16_be(slice_subrange(data, 1, 3));
                let value: u16 = read_u16_be(slice_subrange(data, 3, 5));
                if function == 0x05 {
                    Ok(Response::WriteSingleCoil(address, coil_to_bool(value)))
                } else if function == 0x06 {
                    Ok(Response::WriteSingleRegister(address, value))
                } else if function == 0x0F {
                    Ok(Response::WriteMultipleCoils(address, value))
                } else {
                    Ok(Response::WriteMultipleRegisters(address, value))
                }
            },
            _ => Err(DecodeError::InvalidFunction(function)),
        }
    }

    /// Reads a response out of a buffer that holds the bytes of a unit.
    pub fn try_from_bytes(bytes: Bytes) -> (r: Result<Response, DecodeError>)
        ensures
            response_matches(r, spec_decode_response(bytes_contents(bytes))),
    {
        Response::decode(bytes_as_slice(&bytes))
    }
}

impl ExceptionResponse {
    /// The words that report the refusal: the function code in decimal and
    /// the description of the exception.
    pub open spec fn spec_message(self) -> Seq<char> {
        "Modbus function "@ + decimal_nat(self.function as nat) + ": "@ + spec_description(
            self.exception,
        )
    }

    /// The words that report the refusal.
    pub fn message(&self) -> (text: String)
        ensures
            text@ == self.spec_message(),
    {
        let mut out = String::from_str("Modbus function ");
        push_decimal(&mut out, self.function as u32);
        out.append(": ");
        out.append(self.exception.description());
        proof {
            assert(out@ =~= self.spec_message());
        }
        out
    }

    /// Reads a refusal out of the bytes of a unit.
    pub fn decode(data: &[u8]) -> (r: Result<ExceptionResponse, DecodeError>)
        ensures
            r == spec_decode_exception(data@),
    {
        if data.len() < 1 {
            return Err(DecodeError::UnexpectedEof);
        }
        let err_code: u8 = data[0];
        if err_code < 0x80 {
            return Err(DecodeError::InvalidException(err_code));
        }
        if data.len() < 2 {
            return Err(DecodeError::UnexpectedEof);
        }
        let function: u8 = err_code - 0x80;
        match Exception::try_from_code(data[1]) {
            Ok(exception) => Ok(ExceptionResponse { function, exception }),
            Err(e) => Err(e),
        }
    }

    /// Reads a refusal out of a buffer that holds the bytes of a unit.
    pub fn try_from_bytes(bytes: Bytes) -> (r: Result<ExceptionResponse, DecodeError>)
        ensures
            r == spec_decode_exception(bytes_contents(bytes)),
    {
        ExceptionResponse::decode(bytes_as_slice(&bytes))
    }
}

impl ResponsePdu {
    /// Reads what a server answered out of the bytes of a unit.
    pub fn decode(data: &[u8]) -> (r: Result<ResponsePdu, DecodeError>)
        ensures
            pdu_matches(r, spec_decode_pdu(data@)),
    {
        if data.len() < 1 {
            return Err(DecodeError::UnexpectedEof);
        }
        if data[0] < 0x80 {
            match Response::decode(data) {
                Ok(response) => Ok(ResponsePdu(Ok(response))),
                Err(e) => Err(e),
            }
        } else {
            match ExceptionResponse::decode(data) {
                Ok(refusal) => Ok(ResponsePdu(Err(refusal))),
                Err(e) => Err(e),
            }
        }
    }

    /// Reads what a server answered out of a buffer that holds the bytes of a unit.
    pub fn try_from_bytes(bytes: Bytes) -> (r: Result<ResponsePdu, DecodeError>)
        ensures
            pdu_matches(r, spec_decode_pdu(bytes_contents(bytes))),
    {
        ResponsePdu::decode(bytes_as_slice(&bytes))
    }
}

/// A refusal decodes to the function code of the request and the exception
/// that the server gave, whatever follows the two bytes.
pub proof fn lemma_exception_round_trip(function: u8, exception: Exception, rest: Seq<u8>)
    requires
        function < 0x80,
    ensures
        spec_decode_pdu(
            seq![(function + 0x80) as u8, spec_exception_code(exception)] + rest,
        ) == Ok::<Result<ResponseView, ExceptionResponse>, DecodeError>(
            Err(ExceptionResponse { function, exception }),
        ),
{
}

} // verus!
