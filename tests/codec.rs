use cdrs::consistency::Consistency;
use cdrs::error::{CdrsError, ProtocolErrorKind};
use cdrs::frame::{decode_frame, decode_header, match_response, Frame, FrameHeader, Opcode, StreamIds};
use cdrs::query::{ParamsReqQuery, QueryFlags};
use cdrs::types::{CBytes, CBytesShort, Value};

fn params_all() -> ParamsReqQuery {
    ParamsReqQuery::new(
        Consistency::Quorum,
        Some(vec![Value::Bytes(vec![1, 2]), Value::Null, Value::NotSet]),
        None,
        Some(100),
        Some(CBytes::new(vec![9])),
        Some(Consistency::LocalSerial),
        Some(1),
    )
}

fn params_none() -> ParamsReqQuery {
    ParamsReqQuery::new(Consistency::One, None, None, None, None, None, None)
}

#[test]
fn consistency_codes() {
    assert_eq!(Consistency::Any.code(), 0x0000);
    assert_eq!(Consistency::Quorum.code(), 0x0004);
    assert_eq!(Consistency::LocalQuorum.code(), 0x0006);
    assert_eq!(Consistency::LocalOne.code(), 0x000A);
}

#[test]
fn value_encodings() {
    let mut out = Vec::new();
    Value::Bytes(vec![7, 8]).serialize(&mut out);
    Value::Null.serialize(&mut out);
    Value::NotSet.serialize(&mut out);
    assert_eq!(out, vec![0, 0, 0, 2, 7, 8, 0xff, 0xff, 0xff, 0xff, 0xff, 0xff, 0xff, 0xfe]);
}

#[test]
fn blob_encodings() {
    let mut out = Vec::new();
    CBytes::new(vec![]).serialize(&mut out);
    CBytes::new_empty().serialize(&mut out);
    CBytesShort::new(vec![5]).serialize(&mut out);
    CBytesShort { bytes: None }.serialize(&mut out);
    assert_eq!(out, vec![0, 0, 0, 0, 0xff, 0xff, 0xff, 0xff, 0, 1, 5, 0xff, 0xff]);
}

#[test]
fn flags_of_empty_bundle() {
    let p = params_none();
    assert_eq!(p.flags().to_byte(), 0);
    let mut out = Vec::new();
    p.serialize(&mut out);
    assert_eq!(out, vec![0, 1, 0]);
}

#[test]
fn flags_of_full_bundle() {
    let p = params_all();
    assert_eq!(p.flags().to_byte(), 0x01 | 0x04 | 0x08 | 0x10 | 0x20);
    let mut out = Vec::new();
    p.serialize(&mut out);
    let expected: Vec<u8> = vec![
        0, 4, 0x3d, // consistency, flags
        0, 3, 0, 0, 0, 2, 1, 2, 0xff, 0xff, 0xff, 0xff, 0xff, 0xff, 0xff, 0xfe, // values
        0, 0, 0, 100, // page size
        0, 0, 0, 1, 9, // paging state
        0, 9, // serial consistency
        0, 0, 0, 0, 0, 0, 0, 1, // timestamp
    ];
    assert_eq!(out, expected);
}

#[test]
fn flags_of_every_subset_read_back() {
    for mask in 0u8..32 {
        let p = ParamsReqQuery::new(
            Consistency::One,
            if mask & 1 != 0 { Some(vec![]) } else { None },
            None,
            if mask & 2 != 0 { Some(5) } else { None },
            if mask & 4 != 0 { Some(CBytes::new(vec![1])) } else { None },
            if mask & 8 != 0 { Some(Consistency::Serial) } else { None },
            if mask & 16 != 0 { Some(-3) } else { None },
        );
        let mut out = Vec::new();
        p.serialize(&mut out);
        let read = QueryFlags::from_byte(out[2]);
        assert_eq!(read, p.flags());
        assert_eq!(read.values, mask & 1 != 0);
        assert_eq!(read.page_size, mask & 2 != 0);
        assert_eq!(read.paging_state, mask & 4 != 0);
        assert_eq!(read.serial_consistency, mask & 8 != 0);
        assert_eq!(read.timestamp, mask & 16 != 0);
        assert!(!read.skip_metadata && !read.with_names);
    }
}

#[test]
fn with_names_and_skip_metadata_bits() {
    let mut p = params_none();
    p.with_names = Some(true);
    p.skip_metadata = true;
    assert_eq!(p.flags().to_byte(), 0x42);
    p.with_names = Some(false);
    assert_eq!(p.flags().to_byte(), 0x02);
}

#[test]
fn invalid_bundle_is_detected() {
    assert!(params_all().is_valid());
    let mut p = params_none();
    p.values = Some(vec![Value::Null; 0x8000]);
    assert!(!p.is_valid());
}

#[test]
fn options_frame_bytes() {
    let f = Frame::new_req_options(5);
    assert_eq!(f.into_cbytes(), vec![0x04, 0, 0, 5, 0x05, 0, 0, 0, 0]);
}

#[test]
fn startup_frame_bytes() {
    let f = Frame::new_req_startup(0, None);
    let mut expected: Vec<u8> = vec![0x04, 0, 0, 0, 0x01, 0, 0, 0, 22, 0, 1, 0, 11];
    expected.extend_from_slice(b"CQL_VERSION");
    expected.extend_from_slice(&[0, 5]);
    expected.extend_from_slice(b"3.0.0");
    assert_eq!(f.into_cbytes(), expected);
}

#[test]
fn startup_frame_names_compression() {
    let f = Frame::new_req_startup(0, Some("lz4"));
    let mut body: Vec<u8> = vec![0, 2, 0, 11];
    body.extend_from_slice(b"CQL_VERSION");
    body.extend_from_slice(&[0, 5]);
    body.extend_from_slice(b"3.0.0");
    body.extend_from_slice(&[0, 11]);
    body.extend_from_slice(b"COMPRESSION");
    body.extend_from_slice(&[0, 3]);
    body.extend_from_slice(b"lz4");
    assert_eq!(f.body, body);
}

#[test]
fn prepare_frame_bytes() {
    let f = Frame::new_req_prepare(1, "SELECT * FROM t");
    let mut expected: Vec<u8> = vec![0x04, 0, 0, 1, 0x09, 0, 0, 0, 19, 0, 0, 0, 15];
    expected.extend_from_slice(b"SELECT * FROM t");
    assert_eq!(f.into_cbytes(), expected);
}

#[test]
fn execute_frame_body() {
    let f = Frame::new_req_execute(2, &CBytesShort::new(vec![0xab, 0xcd]), &params_none());
    assert_eq!(f.opcode, Opcode::Execute);
    assert_eq!(f.stream, 2);
    assert_eq!(f.body, vec![0, 2, 0xab, 0xcd, 0, 1, 0]);
}

#[test]
fn query_frame_header_round_trip() {
    let f = Frame::new_req_query(300, "SELECT 1", &params_all());
    let bytes = f.into_cbytes();
    let h = decode_header(&bytes).unwrap();
    assert_eq!(h.opcode, Opcode::Query);
    assert_eq!(h.stream, 300);
    assert_eq!(h.length as usize, f.body.len());
    assert_eq!(h.length as usize, bytes.len() - 9);
    let g = decode_frame(h, bytes[9..].to_vec()).unwrap();
    assert_eq!(g.body, f.body);
}

#[test]
fn negative_stream_round_trip() {
    let mut f = Frame::new_req_options(-1);
    f.body = vec![1, 2, 3];
    let bytes = f.into_cbytes();
    let h = decode_header(&bytes).unwrap();
    assert_eq!(h.stream, -1);
    assert_eq!(h.length, 3);
}

#[test]
fn header_errors() {
    let short = decode_header(&[0x84, 0, 0, 0]);
    assert!(matches!(short, Err(CdrsError::Protocol(ProtocolErrorKind::ShortHeader))));
    let unknown = decode_header(&[0x84, 0, 0, 0, 0x04, 0, 0, 0, 0]);
    assert!(matches!(unknown, Err(CdrsError::Protocol(ProtocolErrorKind::UnknownOpcode))));
    let negative = decode_header(&[0x84, 0, 0, 0, 0x08, 0xff, 0xff, 0xff, 0xff]);
    assert!(matches!(negative, Err(CdrsError::Protocol(ProtocolErrorKind::BadLength))));
    let huge = decode_header(&[0x84, 0, 0, 0, 0x08, 0x10, 0, 0, 1]);
    assert!(matches!(huge, Err(CdrsError::Protocol(ProtocolErrorKind::BadLength))));
    let largest = decode_header(&[0x84, 0, 0, 0, 0x08, 0x10, 0, 0, 0]);
    assert_eq!(largest.unwrap().length, 0x1000_0000);
}

fn header(opcode: Opcode, flags: u8, length: u32) -> FrameHeader {
    FrameHeader { version: 0x84, flags, stream: 0, opcode, length }
}

#[test]
fn ready_with_empty_body() {
    let h = decode_header(&[0x84, 0, 0, 0, 0x02, 0, 0, 0, 0]).unwrap();
    let f = decode_frame(h, vec![]).unwrap();
    assert_eq!(f.opcode, Opcode::Ready);
    assert!(f.body.is_empty());
}

#[test]
fn body_errors() {
    let mismatch = decode_frame(header(Opcode::Result, 0, 4), vec![1, 2]);
    assert!(matches!(mismatch, Err(CdrsError::Protocol(ProtocolErrorKind::LengthMismatch))));
    let compressed = decode_frame(header(Opcode::Result, 0x01, 1), vec![1]);
    assert!(matches!(compressed, Err(CdrsError::Protocol(ProtocolErrorKind::CompressedBody))));
    let traced = decode_frame(header(Opcode::Result, 0x02, 1), vec![1]);
    assert!(traced.is_ok());
}

#[test]
fn error_frame_is_server_error() {
    let body: Vec<u8> = vec![0, 0, 0x22, 0, 0, 3, b'b', b'a', b'd'];
    match decode_frame(header(Opcode::Error, 0, 9), body) {
        Err(CdrsError::Server { code, message }) => {
            assert_eq!(code, 0x2200);
            assert_eq!(message, b"bad".to_vec());
        }
        _ => panic!("expected a server error"),
    }
    let broken = decode_frame(header(Opcode::Error, 0, 7), vec![0, 0, 0, 1, 0, 5, b'x']);
    assert!(matches!(broken, Err(CdrsError::Protocol(ProtocolErrorKind::BadErrorBody))));
}

#[test]
fn execute_answer_carries_its_stream() {
    let mut ids = StreamIds::new();
    let prepare_stream = ids.allocate();
    let prepare = Frame::new_req_prepare(prepare_stream, "SELECT * FROM t");
    assert_eq!(prepare.stream, 0);
    let execute_stream = ids.allocate();
    let execute = Frame::new_req_execute(execute_stream, &CBytesShort::new(vec![1]), &params_none());
    let bytes = execute.into_cbytes();
    assert_eq!(decode_header(&bytes).unwrap().stream, 1);
    let reply = [0x84u8, 0, 0, 1, 0x08, 0, 0, 0, 4, 0, 0, 0, 1];
    let h = decode_header(&reply).unwrap();
    let f = decode_frame(h, reply[9..].to_vec()).unwrap();
    let r = match_response(execute.stream, f.clone()).unwrap();
    assert_eq!(r.opcode, Opcode::Result);
    assert_eq!(r.stream, execute.stream);
    assert!(matches!(
        match_response(prepare.stream, f),
        Err(CdrsError::Protocol(ProtocolErrorKind::StreamMismatch))
    ));
}

#[test]
fn stream_ids_wrap_to_zero() {
    let mut ids = StreamIds::new();
    for expected in 0..=0x7fff_i32 {
        assert_eq!(ids.allocate() as i32, expected);
    }
    assert_eq!(ids.allocate(), 0);
}
