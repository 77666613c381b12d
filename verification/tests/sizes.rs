use atmega32u4_usb::error::UsbError;
use atmega32u4_usb::size::{bucket_bytes, code_to_bytes, size_to_code};

#[test]
fn requested_sizes_round_up_to_their_buckets() {
    let cases: [(u16, u8); 15] = [
        (1, 0),
        (8, 0),
        (9, 1),
        (16, 1),
        (17, 2),
        (32, 2),
        (33, 3),
        (64, 3),
        (65, 4),
        (128, 4),
        (129, 5),
        (256, 5),
        (257, 6),
        (511, 6),
        (512, 6),
    ];
    for (size, code) in cases {
        assert_eq!(size_to_code(size), Ok(code), "size {}", size);
    }
}

#[test]
fn sizes_beyond_the_largest_bucket_are_rejected() {
    for size in [513u16, 600, 1024, u16::MAX] {
        assert_eq!(size_to_code(size), Err(UsbError::EndpointMemoryOverflow));
    }
}

#[test]
fn codes_decode_to_their_byte_counts() {
    let buckets: [u16; 7] = [8, 16, 32, 64, 128, 256, 512];
    for (code, bytes) in buckets.iter().enumerate() {
        assert_eq!(code_to_bytes(code as u8), Ok(*bytes));
        assert_eq!(bucket_bytes(code as u8), *bytes);
    }
}

#[test]
fn unrecognized_codes_are_rejected() {
    assert_eq!(code_to_bytes(7), Err(UsbError::EndpointMemoryOverflow));
    assert_eq!(code_to_bytes(255), Err(UsbError::EndpointMemoryOverflow));
    assert_eq!(bucket_bytes(7), 0);
}

#[test]
fn encode_then_decode_gives_the_least_bucket_at_least_the_request() {
    for size in 0u16..=512 {
        let code = size_to_code(size).unwrap();
        let bucket = code_to_bytes(code).unwrap();
        assert!(bucket >= size);
        if code > 0 {
            // The next smaller bucket would not hold the request.
            assert!(bucket_bytes(code - 1) < size);
        }
    }
}
