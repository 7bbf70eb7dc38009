use modality_dlt::{
    all_headers_length, consume_dlt_storage_header, read_dlt_frame, read_dlt_message, FrameError,
    ReadMessageError,
};

/// Build a frame buffer: the given header-type byte, a counter byte, the
/// big-endian overall length, then zero filler up to `total` bytes.
fn frame_bytes(header_type: u8, total: u16) -> Vec<u8> {
    let mut data = vec![0u8; total as usize];
    data[0] = header_type;
    data[2] = (total >> 8) as u8;
    data[3] = (total & 0xff) as u8;
    data
}

#[test]
fn header_length_follows_flag_bits() {
    assert_eq!(all_headers_length(0x00), 4);
    assert_eq!(all_headers_length(0x04), 8); // ecu id
    assert_eq!(all_headers_length(0x08), 8); // session id
    assert_eq!(all_headers_length(0x10), 8); // timestamp
    assert_eq!(all_headers_length(0x01), 14); // extended header
    assert_eq!(all_headers_length(0x35), 22); // ecu + timestamp + extended
    assert_eq!(all_headers_length(0x1d), 26); // ecu + session + timestamp + extended
}

#[test]
fn valid_frame_span_length() {
    // Span length == header length of the first byte + payload length
    // decoded from the header, for several header shapes.
    for &(b0, payload) in &[(0x00u8, 4u16), (0x35, 9), (0x1d, 0), (0x04, 100)] {
        let hl = all_headers_length(b0);
        let total = hl + payload;
        let data = frame_bytes(b0, total);
        assert_eq!(read_dlt_frame(&data), Ok(total as usize));
    }
}

#[test]
fn frame_with_trailing_stream_bytes_keeps_exact_span() {
    let mut data = frame_bytes(0x00, 8);
    data.extend_from_slice(&[0xaa; 32]); // start of the next message
    assert_eq!(read_dlt_frame(&data), Ok(8));
}

#[test]
fn truncated_mid_header_is_short_read() {
    // Header byte announces 22 header bytes but only 5 arrived.
    let mut data = frame_bytes(0x35, 31);
    data.truncate(5);
    assert_eq!(read_dlt_frame(&data), Err(FrameError::ShortRead));
}

#[test]
fn truncated_mid_payload_is_short_read() {
    let mut data = frame_bytes(0x00, 12);
    data.truncate(9);
    assert_eq!(read_dlt_frame(&data), Err(FrameError::ShortRead));
}

#[test]
fn empty_input_is_short_read() {
    assert_eq!(read_dlt_frame(&[]), Err(FrameError::ShortRead));
}

#[test]
fn length_field_below_header_length_is_malformed() {
    // Overall length 3 cannot even cover the 4 standard header bytes.
    let mut data = frame_bytes(0x00, 8);
    data[2] = 0;
    data[3] = 3;
    assert_eq!(read_dlt_frame(&data), Err(FrameError::MalformedHeader));
}

#[test]
fn storage_header_accepts_the_dlt_pattern() {
    let mut block = vec![0u8; 16];
    block[0] = b'D';
    block[1] = b'L';
    block[2] = b'T';
    block[3] = 0x01;
    assert!(consume_dlt_storage_header(&block).is_ok());
}

#[test]
fn storage_header_rejects_bad_magic() {
    let block = [0u8; 16];
    assert!(consume_dlt_storage_header(&block).is_err());
}

#[test]
fn storage_header_rejects_short_block() {
    let mut block = vec![0u8; 15];
    block[0] = b'D';
    block[1] = b'L';
    block[2] = b'T';
    block[3] = 0x01;
    assert!(consume_dlt_storage_header(&block).is_err());
}

#[test]
fn storage_header_rejects_oversized_block() {
    let mut block = vec![0u8; 17];
    block[0] = b'D';
    block[1] = b'L';
    block[2] = b'T';
    block[3] = 0x01;
    assert!(consume_dlt_storage_header(&block).is_err());
}

#[test]
fn read_message_decodes_a_non_verbose_frame() {
    // Minimal non-verbose message: 4 header bytes, then a little-endian
    // message id and no further payload.
    let data: Vec<u8> = vec![0x00, 0x00, 0x00, 0x08, 0x2a, 0x00, 0x00, 0x00];
    let (consumed, parsed) = read_dlt_message(&data).expect("frame should decode");
    assert_eq!(consumed, 8);
    match parsed {
        dlt_core::parse::ParsedMessage::Item(msg) => {
            assert_eq!(msg.header.payload_length, 4);
            match msg.payload {
                dlt_core::dlt::PayloadContent::NonVerbose(id, rest) => {
                    assert_eq!(id, 42);
                    assert!(rest.is_empty());
                }
                other => panic!("unexpected payload: {:?}", other),
            }
        }
        other => panic!("unexpected parse result: {:?}", other),
    }
}

#[test]
fn undecodable_frame_is_a_decode_error() {
    // Extended header announces one verbose argument, but the payload is
    // empty: the frame is well delimited yet not decodable.
    let data: Vec<u8> = vec![
        0x01, 0x00, 0x00, 0x0e, // standard header, overall length 14
        0x01, 0x01, // message info (verbose), one argument
        b'A', b'P', b'P', 0x00, // application id
        b'C', b'T', b'X', 0x00, // context id
    ];
    assert_eq!(read_dlt_message(&data).unwrap_err(), ReadMessageError::Decode);
}

#[test]
fn leftover_bytes_after_decoding_are_an_error() {
    // Zero verbose arguments but one payload byte: the decoder succeeds
    // without consuming the whole span the frame reader delimited.
    let data: Vec<u8> = vec![
        0x01, 0x00, 0x00, 0x0f, // standard header, overall length 15
        0x01, 0x00, // message info (verbose), no arguments
        b'A', b'P', b'P', 0x00, // application id
        b'C', b'T', b'X', 0x00, // context id
        0xff, // stray payload byte
    ];
    assert_eq!(read_dlt_message(&data).unwrap_err(), ReadMessageError::TrailingBytes);
}

#[test]
fn read_message_reports_framing_errors() {
    let data: Vec<u8> = vec![0x00, 0x00, 0x00];
    assert_eq!(
        read_dlt_message(&data).unwrap_err(),
        ReadMessageError::Frame(FrameError::ShortRead)
    );
    let bad: Vec<u8> = vec![0x00, 0x00, 0x00, 0x02, 0x00, 0x00, 0x00, 0x00];
    assert_eq!(
        read_dlt_message(&bad).unwrap_err(),
        ReadMessageError::Frame(FrameError::MalformedHeader)
    );
}
