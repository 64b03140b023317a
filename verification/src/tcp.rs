//! Modbus TCP framing: the header that goes before each unit on a stream.
//!
//! A frame is seven header bytes and the unit: the transaction id, the
//! protocol id (always zero), a length that counts the unit id and the unit,
//! and the unit id. All numbers are big-endian.

use vstd::prelude::*;
use vstd::slice::slice_subrange;
use bytes::{Bytes, BytesMut};
use crate::buffer::{
    buf_as_slice, buf_contents, buf_freeze, buf_put_slice, buf_put_u16, buf_put_u8, buf_reserve,
    buf_split_to,
    bytes_as_slice, bytes_contents, read_u16_be, spec_u16_be, spec_u16_from_be,
};
use crate::pdu::{
    pdu_matches, spec_decode_pdu, DecodeError, ExceptionResponse, Request, RequestPdu,
    ResponsePdu, ResponseView,
};

verus! {

pub const HEADER_LEN: usize = 7;

pub const PROTOCOL_ID: u16 = 0x0000;

/// What a frame header says beyond the protocol and the length.
#[derive(Debug, Copy, Clone, PartialEq, Eq, Structural)]
pub struct Header {
    pub transaction_id: u16,
    pub unit_id: u8,
}

/// A request with the header it is sent under.
#[derive(Debug, Clone)]
pub struct RequestAdu<'a> {
    pub header: Header,
    pub pdu: RequestPdu<'a>,
}

/// An answer with the header it came under.
#[derive(Debug)]
pub struct ResponseAdu {
    pub header: Header,
    pub pdu: ResponsePdu,
}

/// Takes frames off a stream buffer.
#[derive(Debug)]
pub struct AduDecoder;

/// Encodes requests into frames and decodes frames into answers.
#[derive(Debug)]
pub struct ClientCodec {
    pub decoder: AduDecoder,
}

/// The frame of a unit under a header.
pub open spec fn spec_encode_frame(header: Header, pdu: Seq<u8>) -> Seq<u8> {
    spec_u16_be(header.transaction_id) + spec_u16_be(PROTOCOL_ID) + spec_u16_be(
        (pdu.len() + 1) as u16,
    ) + seq![header.unit_id] + pdu
}

/// What the start of a stream buffer holds. `Ok(None)` asks for more bytes: the
/// header is not complete, or the unit is not. Otherwise the header is checked
/// and the frame is given as the header, the bytes of the unit, and the bytes
/// that stay in the buffer.
pub open spec fn spec_decode_frame(buf: Seq<u8>) -> Result<
    Option<(Header, Seq<u8>, Seq<u8>)>,
    DecodeError,
> {
    if buf.len() < HEADER_LEN {
        Ok(None)
    } else {
        let len = spec_u16_from_be(buf[4], buf[5]);
        let protocol_id = spec_u16_from_be(buf[2], buf[3]);
        if buf.len() < HEADER_LEN + len - 1 {
            Ok(None)
        } else if protocol_id != PROTOCOL_ID {
            Err(DecodeError::InvalidProtocolId(protocol_id))
        } else if len == 0 {
            Err(DecodeError::InvalidLength)
        } else {
            Ok(
                Some(
                    (
                        Header {
                            transaction_id: spec_u16_from_be(buf[0], buf[1]),
                            unit_id: buf[6],
                        },
                        buf.subrange(HEADER_LEN as int, HEADER_LEN + len - 1),
                        buf.skip(HEADER_LEN + len - 1),
                    ),
                ),
            )
        }
    }
}

/// Whether the decoder did to a buffer what its first bytes call for: on a
/// frame it hands out the header and the unit and leaves the rest; in every
/// other case it leaves the buffer as it was.
pub open spec fn frame_matches(
    r: Result<Option<(Header, Bytes)>, DecodeError>,
    before: Seq<u8>,
    after: Seq<u8>,
) -> bool {
    match spec_decode_frame(before) {
        Ok(None) => r is Ok && r->Ok_0 is None && after == before,
        Err(e) => r is Err && r->Err_0 == e && after == before,
        Ok(Some((header, pdu, rest))) => {
            &&& r is Ok
            &&& r->Ok_0 is Some
            &&& r->Ok_0->Some_0.0 == header
            &&& bytes_contents(r->Ok_0->Some_0.1) == pdu
            &&& after == rest
        },
    }
}

/// Whether the codec did to a buffer what its first bytes call for. A frame
/// leaves the buffer even where its unit does not decode.
pub open spec fn adu_matches(
    r: Result<Option<ResponseAdu>, DecodeError>,
    before: Seq<u8>,
    after: Seq<u8>,
) -> bool {
    match spec_decode_frame(before) {
        Ok(None) => r is Ok && r->Ok_0 is None && after == before,
        Err(e) => r is Err && r->Err_0 == e && after == before,
        Ok(Some((header, pdu, rest))) => {
            &&& after == rest
            &&& match spec_decode_pdu(pdu) {
                Err(e) => r is Err && r->Err_0 == e,
                Ok(answer) => {
                    &&& r is Ok
                    &&& r->Ok_0 is Some
                    &&& r->Ok_0->Some_0.header == header
                    &&& pdu_matches(
                        Ok::<ResponsePdu, DecodeError>(r->Ok_0->Some_0.pdu),
                        Ok::<Result<ResponseView, ExceptionResponse>, DecodeError>(answer),
                    )
                },
            }
        },
    }
}

impl AduDecoder {
    /// Takes the next frame off the buffer, if it is complete.
    pub fn decode(&mut self, src: &mut BytesMut) -> (r: Result<
        Option<(Header, Bytes)>,
        DecodeError,
    >)
        ensures
            frame_matches(r, buf_contents(*old(src)), buf_contents(*final(src))),
    {
        let data: &[u8] = buf_as_slice(src);
        let buffered: usize = data.len();
        if buffered < HEADER_LEN {
            return Ok(None);
        }
        let len: u16 = read_u16_be(slice_subrange(data, 4, 6));
        if buffered < HEADER_LEN + len as usize - 1 {
            return Ok(None);
        }
        let protocol_id: u16 = read_u16_be(slice_subrange(data, 2, 4));
        if protocol_id != PROTOCOL_ID {
            return Err(DecodeError::InvalidProtocolId(protocol_id));
        }
        if len == 0 {
            return Err(DecodeError::InvalidLength);
        }
        let transaction_id: u16 = read_u16_be(slice_subrange(data, 0, 2));
        let unit_id: u8 = data[6];
        let ghost before = buf_contents(*src);
        let _header = buf_split_to(src, HEADER_LEN);
        let pdu_data: Bytes = buf_freeze(buf_split_to(src, len as usize - 1));
        let header = Header { transaction_id, unit_id };
        proof {
            assert(bytes_contents(pdu_data) =~= before.subrange(
                HEADER_LEN as int,
                HEADER_LEN + len - 1,
            ));
            assert(buf_contents(*src) =~= before.skip(HEADER_LEN + len - 1));
        }
        Ok(Some((header, pdu_data)))
    }
}

impl Default for ClientCodec {
    fn default() -> (codec: Self)
        ensures
            codec.decoder == AduDecoder,
    {
        ClientCodec { decoder: AduDecoder }
    }
}

impl ClientCodec {
    /// Takes the next frame off the buffer, if it is complete, and decodes its unit.
    pub fn decode(&mut self, src: &mut BytesMut) -> (r: Result<Option<ResponseAdu>, DecodeError>)
        ensures
            adu_matches(r, buf_contents(*old(src)), buf_contents(*final(src))),
    {
        match self.decoder.decode(src) {
            Err(e) => Err(e),
            Ok(None) => Ok(None),
            Ok(Some((header, pdu_data))) => {
                match ResponsePdu::try_from_bytes(pdu_data) {
                    Ok(pdu) => Ok(Some(ResponseAdu { header, pdu })),
                    Err(e) => Err(e),
                }
            },
        }
    }

    /// Appends the frame of a request to the buffer. The unit is written out
    /// first, since the header gives its length.
    pub fn encode(&mut self, item: RequestAdu<'_>, dst: &mut BytesMut) -> (r: Result<
        (),
        DecodeError,
    >)
        requires
            item.pdu.0.wf(),
            buf_contents(*old(dst)).len() + HEADER_LEN + item.pdu.0.spec_encode().len()
                <= isize::MAX,
        ensures
            r is Ok,
            buf_contents(*final(dst)) == buf_contents(*old(dst)) + spec_encode_frame(
                item.header,
                item.pdu.0.spec_encode(),
            ),
    {
        let RequestAdu { header, pdu } = item;
        let pdu_data: Bytes = pdu.to_bytes();
        let body: &[u8] = bytes_as_slice(&pdu_data);
        proof {
            pdu.0.lemma_encode_len();
        }
        buf_reserve(dst, body.len() + HEADER_LEN);
        buf_put_u16(dst, header.transaction_id);
        buf_put_u16(dst, PROTOCOL_ID);
        buf_put_u16(dst, body.len() as u16 + 1);
        buf_put_u8(dst, header.unit_id);
        buf_put_slice(dst, body);
        proof {
            assert(buf_contents(*dst) =~= buf_contents(*old(dst)) + spec_encode_frame(
                header,
                pdu.0.spec_encode(),
            ));
        }
        Ok(())
    }
}

/// A frame that arrives in pieces yields nothing while a byte is missing, and
/// yields its header and unit once it is whole. Bytes that follow the frame
/// stay in the buffer, so that nothing is lost and nothing is read twice.
pub proof fn lemma_frame_round_trip(header: Header, pdu: Seq<u8>, tail: Seq<u8>, k: int)
    requires
        pdu.len() + 1 <= u16::MAX,
        0 <= k < spec_encode_frame(header, pdu).len(),
    ensures
        spec_encode_frame(header, pdu).len() == HEADER_LEN + pdu.len(),
        spec_decode_frame(spec_encode_frame(header, pdu).take(k)) == Ok::<
            Option<(Header, Seq<u8>, Seq<u8>)>,
            DecodeError,
        >(None),
        pdu.len() >= 1 ==> spec_decode_frame(spec_encode_frame(header, pdu) + tail) == Ok::<
            Option<(Header, Seq<u8>, Seq<u8>)>,
            DecodeError,
        >(Some((header, pdu, tail))),
{
    let frame = spec_encode_frame(header, pdu);
    let len = (pdu.len() + 1) as u16;
    assert(frame.len() == HEADER_LEN + pdu.len());
    assert(frame[0] == (header.transaction_id / 256) as u8);
    assert(frame[1] == (header.transaction_id % 256) as u8);
    assert(frame[2] == 0 && frame[3] == 0);
    assert(frame[4] == (len / 256) as u8);
    assert(frame[5] == (len % 256) as u8);
    assert(frame[6] == header.unit_id);
    assert(spec_u16_from_be(frame[4], frame[5]) == len);
    assert(spec_u16_from_be(frame[0], frame[1]) == header.transaction_id);
    let part = frame.take(k);
    if k >= HEADER_LEN {
        assert(part[4] == frame[4] && part[5] == frame[5]);
    }
    if pdu.len() >= 1 {
        let all = frame + tail;
        assert(all[0] == frame[0] && all[1] == frame[1] && all[2] == frame[2] && all[3]
            == frame[3] && all[4] == frame[4] && all[5] == frame[5] && all[6] == frame[6]);
        assert(all.subrange(HEADER_LEN as int, HEADER_LEN + len - 1) =~= pdu);
        assert(all.skip(HEADER_LEN + len - 1) =~= tail);
    }
}

/// The frame that the encoder writes for a request, fed to the decoder one
/// byte at a time, yields no frame until its last byte is in, and then yields
/// the header and the unit of the request and leaves the buffer empty.
pub proof fn lemma_request_frame_byte_by_byte(header: Header, request: Request<'_>, k: int)
    requires
        request.wf(),
        0 <= k < spec_encode_frame(header, request.spec_encode()).len(),
    ensures
        spec_decode_frame(spec_encode_frame(header, request.spec_encode()).take(k)) == Ok::<
            Option<(Header, Seq<u8>, Seq<u8>)>,
            DecodeError,
        >(None),
        spec_decode_frame(spec_encode_frame(header, request.spec_encode())) == Ok::<
            Option<(Header, Seq<u8>, Seq<u8>)>,
            DecodeError,
        >(Some((header, request.spec_encode(), Seq::<u8>::empty()))),
{
    request.lemma_encode_len();
    let pdu = request.spec_encode();
    lemma_frame_round_trip(header, pdu, Seq::<u8>::empty(), k);
    assert(spec_encode_frame(header, pdu) + Seq::<u8>::empty() =~= spec_encode_frame(
        header,
        pdu,
    ));
}

} // verus!
