use evdebounce::codec::{
    decode, decode_with, encode, encode_with, native_byte_order, order_of_layout, ByteOrder,
    FramingError, RawEvent, Timestamp, RECORD_SIZE,
};

fn sample_little() -> Vec<u8> {
    vec![
        0x15, 0xcd, 0x5b, 0x07, 0x00, 0x00, 0x00, 0x00, // seconds = 123456789
        0x40, 0xe2, 0x01, 0x00, 0x00, 0x00, 0x00, 0x00, // microseconds = 123456
        0x01, 0x00, // type = 1
        0x13, 0x01, // code = 0x113
        0x01, 0x00, 0x00, 0x00, // value = 1
    ]
}

fn sample_event() -> RawEvent {
    RawEvent {
        time: Timestamp { seconds: 123456789, microseconds: 123456 },
        event_type: 1,
        code: 0x113,
        value: 1,
    }
}

#[test]
fn record_size_is_twenty_four_bytes() {
    assert_eq!(RECORD_SIZE, 24);
}

#[test]
fn decode_little_endian_fields() {
    assert_eq!(decode_with(&sample_little(), ByteOrder::Little), Ok(sample_event()));
}

#[test]
fn decode_big_endian_fields() {
    let bytes = vec![
        0x00, 0x00, 0x00, 0x00, 0x07, 0x5b, 0xcd, 0x15, //
        0x00, 0x00, 0x00, 0x00, 0x00, 0x01, 0xe2, 0x40, //
        0x00, 0x01, //
        0x01, 0x13, //
        0x00, 0x00, 0x00, 0x01,
    ];
    assert_eq!(decode_with(&bytes, ByteOrder::Big), Ok(sample_event()));
}

#[test]
fn decode_reads_each_byte_order_differently() {
    let event = decode_with(&sample_little(), ByteOrder::Big).unwrap();
    assert_eq!(event.event_type, 0x0100);
    assert_eq!(event.code, 0x1301);
    assert_eq!(event.value, 0x0100_0000);
    assert_eq!(event.time.seconds, 0x15cd_5b07_0000_0000);
}

#[test]
fn decode_signed_fields_in_twos_complement() {
    let mut bytes = vec![0xffu8; 24];
    let event = decode_with(&bytes, ByteOrder::Little).unwrap();
    assert_eq!(event.time.seconds, -1);
    assert_eq!(event.time.microseconds, -1);
    assert_eq!(event.event_type, 0xffff);
    assert_eq!(event.code, 0xffff);
    assert_eq!(event.value, -1);

    bytes = vec![0u8; 24];
    bytes[7] = 0x80;
    bytes[23] = 0x80;
    let event = decode_with(&bytes, ByteOrder::Little).unwrap();
    assert_eq!(event.time.seconds, i64::MIN);
    assert_eq!(event.time.microseconds, 0);
    assert_eq!(event.value, i32::MIN);

    bytes = vec![0xffu8; 24];
    bytes[7] = 0x7f;
    bytes[23] = 0x7f;
    let event = decode_with(&bytes, ByteOrder::Little).unwrap();
    assert_eq!(event.time.seconds, i64::MAX);
    assert_eq!(event.value, i32::MAX);

    bytes = vec![0xffu8; 24];
    bytes[20] = 0xff;
    bytes[21] = 0xff;
    bytes[22] = 0xff;
    bytes[23] = 0xfe;
    let event = decode_with(&bytes, ByteOrder::Big).unwrap();
    assert_eq!(event.value, -2);
}

#[test]
fn decode_rejects_every_other_length() {
    for len in 0..64usize {
        let bytes = vec![0u8; len];
        for order in [ByteOrder::Little, ByteOrder::Big] {
            let result = decode_with(&bytes, order);
            if len == 24 {
                assert!(result.is_ok());
            } else {
                assert_eq!(result, Err(FramingError { len }));
            }
        }
        let result = decode(&bytes);
        if len == 24 {
            assert!(result.is_ok());
        } else {
            assert_eq!(result, Err(FramingError { len }));
        }
    }
}

#[test]
fn decode_rejects_empty_buffer() {
    assert_eq!(decode_with(&[], ByteOrder::Little), Err(FramingError { len: 0 }));
}

#[test]
fn decode_rejects_one_byte_short_and_long() {
    assert_eq!(decode_with(&[0u8; 23], ByteOrder::Little), Err(FramingError { len: 23 }));
    assert_eq!(decode_with(&[0u8; 25], ByteOrder::Big), Err(FramingError { len: 25 }));
}

#[test]
fn encode_little_endian_bytes() {
    assert_eq!(encode_with(&sample_event(), ByteOrder::Little), sample_little());
}

#[test]
fn encode_big_endian_bytes() {
    let event = RawEvent {
        time: Timestamp { seconds: -2, microseconds: 0x0102_0304_0506_0708 },
        event_type: 0xabcd,
        code: 0x0113,
        value: -256,
    };
    let expected = vec![
        0xff, 0xff, 0xff, 0xff, 0xff, 0xff, 0xff, 0xfe, //
        0x01, 0x02, 0x03, 0x04, 0x05, 0x06, 0x07, 0x08, //
        0xab, 0xcd, //
        0x01, 0x13, //
        0xff, 0xff, 0xff, 0x00,
    ];
    assert_eq!(encode_with(&event, ByteOrder::Big), expected);
}

#[test]
fn decode_then_encode_reproduces_the_bytes() {
    let mut bytes = vec![0u8; 24];
    let mut seed: u32 = 0x2545_f491;
    for _ in 0..200 {
        for b in bytes.iter_mut() {
            seed = seed.wrapping_mul(1_664_525).wrapping_add(1_013_904_223);
            *b = (seed >> 24) as u8;
        }
        for order in [ByteOrder::Little, ByteOrder::Big] {
            let event = decode_with(&bytes, order).unwrap();
            assert_eq!(encode_with(&event, order), bytes);
        }
        let event = decode(&bytes).unwrap();
        assert_eq!(encode(&event), bytes);
    }
}

#[test]
fn encode_then_decode_gives_the_record_back() {
    let events = [
        sample_event(),
        RawEvent {
            time: Timestamp { seconds: i64::MIN, microseconds: i64::MAX },
            event_type: 0,
            code: u16::MAX,
            value: i32::MIN,
        },
        RawEvent {
            time: Timestamp { seconds: -1, microseconds: 0 },
            event_type: u16::MAX,
            code: 0,
            value: i32::MAX,
        },
    ];
    for event in events {
        for order in [ByteOrder::Little, ByteOrder::Big] {
            let bytes = encode_with(&event, order);
            assert_eq!(bytes.len(), RECORD_SIZE);
            assert_eq!(decode_with(&bytes, order), Ok(event));
        }
        assert_eq!(decode(&encode(&event)), Ok(event));
    }
}

#[test]
fn order_of_layout_looks_at_the_first_byte() {
    assert_eq!(order_of_layout(&[1, 0]), ByteOrder::Little);
    assert_eq!(order_of_layout(&[0, 1]), ByteOrder::Big);
}

#[test]
fn native_byte_order_is_that_of_the_machine() {
    let expected = if u32::from_ne_bytes([1, 0, 0, 0]) == 1 {
        ByteOrder::Little
    } else {
        ByteOrder::Big
    };
    assert_eq!(native_byte_order(), expected);
}

#[test]
fn decode_reads_what_the_machine_wrote() {
    let mut bytes = Vec::new();
    bytes.extend_from_slice(&1_700_000_000i64.to_ne_bytes());
    bytes.extend_from_slice(&(-999_999i64).to_ne_bytes());
    bytes.extend_from_slice(&1u16.to_ne_bytes());
    bytes.extend_from_slice(&0x113u16.to_ne_bytes());
    bytes.extend_from_slice(&(-7i32).to_ne_bytes());
    let expected = RawEvent {
        time: Timestamp { seconds: 1_700_000_000, microseconds: -999_999 },
        event_type: 1,
        code: 0x113,
        value: -7,
    };
    assert_eq!(decode(&bytes), Ok(expected));
    assert_eq!(encode(&expected), bytes);
}
