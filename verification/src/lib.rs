//! Ingestion pipeline for DLT (Diagnostic Log and Trace) message streams.
//!
//! The library holds the verified core of the pipeline: the frame reader that
//! finds the exact byte span of one DLT message inside a raw byte stream, the
//! storage-header gate used for stored log files, the conversion of decoded
//! messages into named attribute lists, and the timeline registry that groups
//! messages into timelines and sequences their events.

pub mod convert;
pub mod message;
pub mod send;

use vstd::prelude::*;
use vstd::slice::{slice_index_get, slice_subrange};

verus! {

/// A framing failure: the stream ended before one whole message was
/// available, or the standard header's length field contradicts itself.
#[derive(Debug, Clone, Copy, PartialEq, Eq, Structural)]
pub enum FrameError {
    /// The stream ended before the bytes that the header calls for arrived.
    ShortRead,
    /// The overall-length field is smaller than the headers it must cover.
    MalformedHeader,
}

/// The fixed 16-byte record prefix of a stored log did not have the
/// expected shape.
#[derive(Debug, Clone, Copy, PartialEq, Eq, Structural)]
pub enum StorageHeaderError {
    InvalidStorageHeader,
}

/// Failure while framing and decoding one message from a buffer.
#[derive(Debug, Clone, Copy, PartialEq, Eq, Structural)]
pub enum ReadMessageError {
    /// The frame could not be delimited.
    Frame(FrameError),
    /// The decoder rejected the framed bytes outright.
    Decode,
    /// The decoder left some of the framed bytes unconsumed.
    TrailingBytes,
}

/// Length in bytes of the standard header for a given header-type byte:
/// a 4-byte base, plus 4 bytes for each of the ecu-id, session-id and
/// timestamp fields that its flag bits announce.
pub open spec fn spec_standard_header_len(header_type_byte: u8) -> int {
    4 + (if header_type_byte & 0x04u8 != 0 {
        4int
    } else {
        0int
    }) + (if header_type_byte & 0x08u8 != 0 {
        4int
    } else {
        0int
    }) + (if header_type_byte & 0x10u8 != 0 {
        4int
    } else {
        0int
    })
}

/// Length in bytes of all headers for a given header-type byte: the
/// standard header, plus the 10-byte extended header when announced.
pub open spec fn spec_all_headers_len(header_type_byte: u8) -> int {
    spec_standard_header_len(header_type_byte) + (if header_type_byte & 0x01u8 != 0 {
        10int
    } else {
        0int
    })
}

/// The big-endian 16-bit overall-length field of the standard header,
/// found at byte offsets 2 and 3. It counts all headers plus the payload.
pub open spec fn spec_overall_len(data: Seq<u8>) -> int
    recommends
        data.len() >= 4,
{
    data[2] * 256 + data[3]
}

/// The payload length that the header bytes encode: the overall length
/// minus the length of the headers themselves.
pub open spec fn spec_payload_len(data: Seq<u8>) -> int
    recommends
        data.len() >= 4,
{
    spec_overall_len(data) - spec_all_headers_len(data[0])
}

/// `data` begins with one complete, self-consistent frame.
pub open spec fn spec_frame_ok(data: Seq<u8>) -> bool {
    &&& data.len() >= 1
    &&& data.len() >= spec_all_headers_len(data[0])
    &&& spec_overall_len(data) >= spec_all_headers_len(data[0])
    &&& data.len() >= spec_overall_len(data)
}

/// The headers are complete but the overall-length field is smaller than
/// the headers it has to cover.
pub open spec fn spec_frame_malformed(data: Seq<u8>) -> bool {
    &&& data.len() >= 1
    &&& data.len() >= spec_all_headers_len(data[0])
    &&& spec_overall_len(data) < spec_all_headers_len(data[0])
}

/// Compute the combined header length that a header-type byte announces.
pub fn all_headers_length(header_type_byte: u8) -> (n: u16)
    ensures
        n as int == spec_all_headers_len(header_type_byte),
        4 <= n <= 26,
{
    let mut n: u16 = 4;
    if header_type_byte & 0x04u8 != 0 {
        n += 4;
    }
    if header_type_byte & 0x08u8 != 0 {
        n += 4;
    }
    if header_type_byte & 0x10u8 != 0 {
        n += 4;
    }
    if header_type_byte & 0x01u8 != 0 {
        n += 10;
    }
    n
}

/// The header bytes are complete and their overall-length field covers
/// them: the frame's total size can be read off.
pub open spec fn spec_header_ok(header: Seq<u8>) -> bool {
    &&& header.len() >= 1
    &&& header.len() >= spec_all_headers_len(header[0])
    &&& spec_overall_len(header) >= spec_all_headers_len(header[0])
}

/// Read the frame's total size off its complete header bytes: the overall
/// length that the header encodes, which counts the headers themselves and
/// the payload. `header` must hold at least the combined headers; payload
/// bytes after them may be present or still missing.
pub fn frame_total_length(header: &[u8]) -> (r: Result<usize, FrameError>)
    ensures
        spec_header_ok(header@) <==> (r matches Ok(n) && n as int == spec_overall_len(header@)
            && n as int >= spec_all_headers_len(header@[0])),
        spec_frame_malformed(header@) <==> r == Err::<usize, FrameError>(
            FrameError::MalformedHeader,
        ),
        !spec_header_ok(header@) && !spec_frame_malformed(header@) <==> r == Err::<
            usize,
            FrameError,
        >(FrameError::ShortRead),
{
    if header.len() == 0 {
        return Err(FrameError::ShortRead);
    }
    let b0: u8 = *slice_index_get(header, 0);
    let hl: usize = all_headers_length(b0) as usize;
    if header.len() < hl {
        return Err(FrameError::ShortRead);
    }
    let overall: usize = (*slice_index_get(header, 2) as usize) * 256 + (*slice_index_get(
        header,
        3,
    ) as usize);
    if overall < hl {
        return Err(FrameError::MalformedHeader);
    }
    Ok(overall)
}

/// Delimit one message frame at the start of `data`.
///
/// On success the result is the frame's total size: the combined header
/// length that the first byte announces plus the payload length that the
/// header bytes encode. The caller's first `r` bytes are the frame.
pub fn read_dlt_frame(data: &[u8]) -> (r: Result<usize, FrameError>)
    ensures
        spec_frame_ok(data@) <==> (r matches Ok(n) && n as int == spec_all_headers_len(data@[0])
            + spec_payload_len(data@) && n as int == spec_overall_len(data@) && n <= data@.len()),
        spec_frame_malformed(data@) <==> r == Err::<usize, FrameError>(FrameError::MalformedHeader),
        !spec_frame_ok(data@) && !spec_frame_malformed(data@) <==> r == Err::<
            usize,
            FrameError,
        >(FrameError::ShortRead),
{
    let n = match frame_total_length(data) {
        Ok(n) => n,
        Err(e) => {
            return Err(e);
        },
    };
    if data.len() < n {
        return Err(FrameError::ShortRead);
    }
    Ok(n)
}

/// A stream that breaks off anywhere inside a well-formed frame — mid-header
/// or mid-payload — always reads as a short read: the truncated bytes are
/// never taken for a complete frame, nor for a malformed header.
pub proof fn lemma_truncated_frame_is_short_read(data: Seq<u8>, n: int)
    requires
        spec_frame_ok(data),
        1 <= n < spec_overall_len(data),
    ensures
        !spec_frame_ok(data.take(n)),
        !spec_frame_malformed(data.take(n)),
{
    let t = data.take(n);
    assert(t[0] == data[0]);
    if n >= spec_all_headers_len(data[0]) {
        assert(t[2] == data[2] && t[3] == data[3]);
        assert(spec_overall_len(t) == spec_overall_len(data));
    }
}

/// Declares dlt_core::parse::ParsedMessage, the decoder's verdict on one
/// frame; its contents are opaque here and are read only outside the
/// library.
#[verifier::external_type_specification]
#[verifier::external_body]
pub struct ExParsedMessage(dlt_core::parse::ParsedMessage);

/// Declares dlt_core::parse::DltParseError, the error the decoder's entry
/// points return; it is opaque here and mapped to the library's own errors.
#[verifier::external_type_specification]
#[verifier::external_body]
pub struct ExDltParseError(dlt_core::parse::DltParseError);

/// `block` starts with the 4-byte marker of a stored-log record:
/// the letters `DLT` followed by the byte 1.
pub open spec fn spec_storage_pattern_ok(block: Seq<u8>) -> bool {
    &&& block.len() >= 16
    &&& block[0] == 68u8
    &&& block[1] == 76u8
    &&& block[2] == 84u8
    &&& block[3] == 1u8
}

/// Relies on dlt_core::parse::skip_storage_header: it consumes exactly 16
/// bytes when, and only when, the input is at least 16 bytes long and starts
/// with the `DLT` + 0x01 pattern; the unconsumed tail is what follows them.
#[verifier::external_body]
fn skip_storage_header_raw(block: &[u8]) -> (r: Result<
    (usize, u64),
    dlt_core::parse::DltParseError,
>)
    ensures
        r is Ok <==> spec_storage_pattern_ok(block@),
        r matches Ok((rest, n)) ==> rest as int == block@.len() - 16 && n == 16,
{
    match dlt_core::parse::skip_storage_header(block) {
        Ok((rest, n)) => Ok((rest.len(), n)),
        Err(e) => Err(dlt_core::parse::DltParseError::from(e)),
    }
}

/// Validate the fixed 16-byte record prefix that precedes each frame in a
/// stored log. `block` must hold exactly the 16 bytes that were read for it.
pub fn consume_dlt_storage_header(block: &[u8]) -> (r: Result<(), StorageHeaderError>)
    ensures
        r is Ok <==> block@.len() == 16 && spec_storage_pattern_ok(block@),
{
    match skip_storage_header_raw(block) {
        Ok((rest, n)) => {
            if rest == 0 && n == 16 {
                Ok(())
            } else {
                Err(StorageHeaderError::InvalidStorageHeader)
            }
        },
        Err(_) => Err(StorageHeaderError::InvalidStorageHeader),
    }
}

/// Whether the decoder accepts an exactly-delimited frame. The decoder's
/// verdict depends on the frame's bytes alone, so it can bear a name; what
/// the verdict is on given bytes is stated nowhere.
pub uninterp spec fn spec_decode_accepts(frame: Seq<u8>) -> bool;

/// How many of an exactly-delimited frame's trailing bytes the decoder
/// leaves unconsumed when it accepts the frame. Like the verdict itself,
/// this count depends on the frame's bytes alone.
pub uninterp spec fn spec_decode_trailing(frame: Seq<u8>) -> int;

/// Relies on dlt_core::parse::dlt_message to decode one frame that carries
/// no storage header and with no filtering configured: it returns a message
/// exactly when it accepts the frame, and the returned count — how many of
/// the frame's trailing bytes it did not consume — is a function of the
/// frame's bytes alone. The requires admit only frames the frame reader
/// delimited, whose length equals their overall-length field: the decoder's
/// own arithmetic does not guard against slices longer than that field
/// announces.
#[verifier::external_body]
fn decode_dlt_frame(frame: &[u8]) -> (r: Result<
    (usize, dlt_core::parse::ParsedMessage),
    dlt_core::parse::DltParseError,
>)
    requires
        spec_frame_ok(frame@),
        frame@.len() == spec_overall_len(frame@),
    ensures
        r is Ok <==> spec_decode_accepts(frame@),
        r matches Ok((rest, _)) ==> rest as int == spec_decode_trailing(frame@) && rest
            <= frame@.len(),
{
    match dlt_core::parse::dlt_message(frame, None, false) {
        Ok((rest, msg)) => Ok((rest.len(), msg)),
        Err(e) => Err(e),
    }
}

/// Read a single, complete DLT message from the start of `data`, and decode
/// it. On success the result carries the frame's size in bytes next to the
/// decoded message; the frame's span is exactly that prefix of `data`.
///
/// The span handed to the decoder is delimited by [`read_dlt_frame`] alone;
/// a decoder that leaves part of it unconsumed is reported as an error, not
/// absorbed.
pub fn read_dlt_message(data: &[u8]) -> (r: Result<
    (usize, dlt_core::parse::ParsedMessage),
    ReadMessageError,
>)
    ensures
        r matches Ok((n, _)) ==> spec_frame_ok(data@) && n as int == spec_all_headers_len(data@[0])
            + spec_payload_len(data@) && n <= data@.len(),
        spec_frame_malformed(data@) <==> r == Err::<
            (usize, dlt_core::parse::ParsedMessage),
            ReadMessageError,
        >(ReadMessageError::Frame(FrameError::MalformedHeader)),
        !spec_frame_ok(data@) && !spec_frame_malformed(data@) <==> r == Err::<
            (usize, dlt_core::parse::ParsedMessage),
            ReadMessageError,
        >(ReadMessageError::Frame(FrameError::ShortRead)),
        spec_frame_ok(data@) ==> {
            let frame = data@.take(spec_overall_len(data@));
            &&& (r is Ok <==> spec_decode_accepts(frame) && spec_decode_trailing(frame) == 0)
            &&& (r == Err::<(usize, dlt_core::parse::ParsedMessage), ReadMessageError>(
                ReadMessageError::TrailingBytes,
            ) <==> spec_decode_accepts(frame) && spec_decode_trailing(frame) != 0)
            &&& (r == Err::<(usize, dlt_core::parse::ParsedMessage), ReadMessageError>(
                ReadMessageError::Decode,
            ) <==> !spec_decode_accepts(frame))
        },
{
    let n = match read_dlt_frame(data) {
        Ok(n) => n,
        Err(e) => {
            return Err(ReadMessageError::Frame(e));
        },
    };
    let frame = slice_subrange(data, 0, n);
    proof {
        assert(frame@ =~= data@.take(n as int));
        assert(frame@[0] == data@[0] && frame@[2] == data@[2] && frame@[3] == data@[3]);
        assert(spec_overall_len(frame@) == spec_overall_len(data@));
        assert(spec_frame_ok(frame@));
    }
    match decode_dlt_frame(frame) {
        Ok((rest, msg)) => {
            if rest == 0 {
                Ok((n, msg))
            } else {
                Err(ReadMessageError::TrailingBytes)
            }
        },
        Err(_) => Err(ReadMessageError::Decode),
    }
}

/// Configuration shared by the network collector and the file importer:
/// which DLT header fields take part in timeline identity.
#[derive(Clone)]
pub struct CommonConfig {
    /// Should the ecu id be used as part of timeline identity and naming? Defaults to true.
    pub timeline_from_ecu_id: Option<bool>,

    /// Should the session be used as part of timeline identity? (not naming) Defaults to true.
    pub timeline_from_session_id: Option<bool>,

    /// Should the application id field be used as part of timeline identity and naming? Defaults to false.
    pub timeline_from_application_id: Option<bool>,

    /// Should the context id field be used as part of timeline identity and naming? Defaults to false.
    pub timeline_from_context_id: Option<bool>,
}

impl CommonConfig {
    /// Effective value of the ecu-id switch (on by default).
    pub open spec fn spec_use_ecu_id(&self) -> bool {
        match self.timeline_from_ecu_id {
            Some(b) => b,
            None => true,
        }
    }

    /// Effective value of the session-id switch (on by default).
    pub open spec fn spec_use_session_id(&self) -> bool {
        match self.timeline_from_session_id {
            Some(b) => b,
            None => true,
        }
    }

    /// Effective value of the application-id switch (off by default).
    pub open spec fn spec_use_application_id(&self) -> bool {
        match self.timeline_from_application_id {
            Some(b) => b,
            None => false,
        }
    }

    /// Effective value of the context-id switch (off by default).
    pub open spec fn spec_use_context_id(&self) -> bool {
        match self.timeline_from_context_id {
            Some(b) => b,
            None => false,
        }
    }

    pub fn use_ecu_id(&self) -> (r: bool)
        ensures
            r == self.spec_use_ecu_id(),
    {
        match self.timeline_from_ecu_id {
            Some(b) => b,
            None => true,
        }
    }

    pub fn use_session_id(&self) -> (r: bool)
        ensures
            r == self.spec_use_session_id(),
    {
        match self.timeline_from_session_id {
            Some(b) => b,
            None => true,
        }
    }

    pub fn use_application_id(&self) -> (r: bool)
        ensures
            r == self.spec_use_application_id(),
    {
        match self.timeline_from_application_id {
            Some(b) => b,
            None => false,
        }
    }

    pub fn use_context_id(&self) -> (r: bool)
        ensures
            r == self.spec_use_context_id(),
    {
        match self.timeline_from_context_id {
            Some(b) => b,
            None => false,
        }
    }
}

} // verus!
