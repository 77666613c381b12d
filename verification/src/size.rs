use vstd::prelude::*;

use crate::error::UsbError;

verus! {

/// The hardware size-bucket code that a requested max-packet size rounds up
/// to. The FIFO allocator understands only the seven bucket sizes
/// 8, 16, 32, 64, 128, 256 and 512 bytes; a request is never rounded down,
/// which would truncate application data. Meaningful only for requests of at
/// most 512 bytes.
pub open spec fn size_code(size: u16) -> u8 {
    if size <= 8 {
        0
    } else if size <= 16 {
        1
    } else if size <= 32 {
        2
    } else if size <= 64 {
        3
    } else if size <= 128 {
        4
    } else if size <= 256 {
        5
    } else {
        6
    }
}

/// The byte count a size-bucket code stands for; 0 for a code outside the
/// seven buckets, which names no size.
pub open spec fn code_bytes(code: u8) -> u16 {
    if code == 0 {
        8
    } else if code == 1 {
        16
    } else if code == 2 {
        32
    } else if code == 3 {
        64
    } else if code == 4 {
        128
    } else if code == 5 {
        256
    } else if code == 6 {
        512
    } else {
        0
    }
}

/// Encodes a requested max-packet size as the hardware bucket code, rounding
/// up; a request beyond the largest bucket is rejected.
pub fn size_to_code(size: u16) -> (r: Result<u8, UsbError>)
    ensures
        size <= 512 ==> r == Ok::<u8, UsbError>(size_code(size)),
        size > 512 ==> r == Err::<u8, UsbError>(UsbError::EndpointMemoryOverflow),
{
    if size <= 8 {
        Ok(0)
    } else if size <= 16 {
        Ok(1)
    } else if size <= 32 {
        Ok(2)
    } else if size <= 64 {
        Ok(3)
    } else if size <= 128 {
        Ok(4)
    } else if size <= 256 {
        Ok(5)
    } else if size <= 512 {
        Ok(6)
    } else {
        Err(UsbError::EndpointMemoryOverflow)
    }
}

/// The byte count of a bucket code, with 0 for an unrecognized code.
pub fn bucket_bytes(code: u8) -> (r: u16)
    ensures
        r == code_bytes(code),
{
    if code == 0 {
        8
    } else if code == 1 {
        16
    } else if code == 2 {
        32
    } else if code == 3 {
        64
    } else if code == 4 {
        128
    } else if code == 5 {
        256
    } else if code == 6 {
        512
    } else {
        0
    }
}

/// Decodes a stored bucket code back to its byte count. An unrecognized code
/// is rejected; defensive, since only the encoder ever writes the field.
pub fn code_to_bytes(code: u8) -> (r: Result<u16, UsbError>)
    ensures
        code <= 6 ==> r == Ok::<u16, UsbError>(code_bytes(code)),
        code > 6 ==> r == Err::<u16, UsbError>(UsbError::EndpointMemoryOverflow),
{
    if code <= 6 {
        Ok(bucket_bytes(code))
    } else {
        Err(UsbError::EndpointMemoryOverflow)
    }
}

/// Round-trip law of the size encoding: for every request within the
/// hardware limit, encoding and then decoding yields the least bucket at
/// least as large as the request.
pub proof fn lemma_size_round_trip(size: u16)
    requires
        size <= 512,
    ensures
        size_code(size) <= 6,
        code_bytes(size_code(size)) >= size,
        forall|c: u8| c <= 6 && #[trigger] code_bytes(c) >= size ==> code_bytes(size_code(size)) <= code_bytes(c),
{
}

} // verus!
