//! Checked, lossless numeric conversion between the host's signed integer
//! widths and the native library's unsigned widths.
//!
//! A successful conversion always denotes the exact value that went in; a
//! value that cannot be represented in the target width is rejected with
//! [`BridgeError::IntegerOverflow`], recording its sign, magnitude and the
//! width it was aimed at. Nothing is ever silently truncated.

use vstd::prelude::*;

use crate::error::{BridgeError, IntWidth, NativeError};

verus! {

/// The overflow error recorded when the mathematical value `v` does not fit
/// the target width.
pub open spec fn overflow_error(v: int, target: IntWidth) -> BridgeError {
    BridgeError::IntegerOverflow {
        negative: v < 0,
        magnitude: (if v >= 0 { v } else { -v }) as u64,
        target,
    }
}

/// What converting a host 32-bit signed integer to `u32` yields.
pub open spec fn jint_to_u32_spec(v: i32) -> Result<u32, BridgeError> {
    if v >= 0 {
        Ok(v as u32)
    } else {
        Err(overflow_error(v as int, IntWidth::U32))
    }
}

/// What converting a host 64-bit signed integer to `u64` yields.
pub open spec fn jlong_to_u64_spec(v: i64) -> Result<u64, BridgeError> {
    if v >= 0 {
        Ok(v as u64)
    } else {
        Err(overflow_error(v as int, IntWidth::U64))
    }
}

/// What converting a host 32-bit signed integer to `u8` yields.
pub open spec fn jint_to_u8_spec(v: i32) -> Result<u8, BridgeError> {
    if 0 <= v && v <= 255 {
        Ok(v as u8)
    } else {
        Err(overflow_error(v as int, IntWidth::U8))
    }
}

/// What re-widening a native `u32` result to the host's signed 32-bit width
/// yields: a native error is forwarded unchanged, and a value whose signed
/// re-interpretation would need the sign bit is rejected.
pub open spec fn jint_from_u32_spec(value: Result<u32, NativeError>) -> Result<i32, BridgeError> {
    match value {
        Ok(u) => {
            if u as int <= i32::MAX as int {
                Ok(u as i32)
            } else {
                Err(overflow_error(u as int, IntWidth::I32))
            }
        },
        Err(e) => Err(BridgeError::Native(e)),
    }
}

/// What re-widening a native `u64` result to the host's signed 64-bit width
/// yields.
pub open spec fn jlong_from_u64_spec(value: Result<u64, NativeError>) -> Result<i64, BridgeError> {
    match value {
        Ok(u) => {
            if u as int <= i64::MAX as int {
                Ok(u as i64)
            } else {
                Err(overflow_error(u as int, IntWidth::I64))
            }
        },
        Err(e) => Err(BridgeError::Native(e)),
    }
}

/// Converts a host 32-bit signed integer to `u32`, rejecting negative values.
pub fn jint_to_u32(v: i32) -> (r: Result<u32, BridgeError>)
    ensures
        r == jint_to_u32_spec(v),
{
    if v < 0 {
        let magnitude: u64 = (-(v as i64)) as u64;
        Err(BridgeError::IntegerOverflow { negative: true, magnitude, target: IntWidth::U32 })
    } else {
        Ok(v as u32)
    }
}

/// Converts a host 64-bit signed integer to `u64`, rejecting negative values.
pub fn jlong_to_u64(v: i64) -> (r: Result<u64, BridgeError>)
    ensures
        r == jlong_to_u64_spec(v),
{
    if v < 0 {
        let magnitude: u64 = if v == i64::MIN {
            0x8000_0000_0000_0000u64
        } else {
            (-v) as u64
        };
        Err(BridgeError::IntegerOverflow { negative: true, magnitude, target: IntWidth::U64 })
    } else {
        Ok(v as u64)
    }
}

/// Converts a host 32-bit signed integer to `u8`, rejecting values outside
/// the byte range.
pub fn jint_to_u8(v: i32) -> (r: Result<u8, BridgeError>)
    ensures
        r == jint_to_u8_spec(v),
{
    if v < 0 {
        let magnitude: u64 = (-(v as i64)) as u64;
        Err(BridgeError::IntegerOverflow { negative: true, magnitude, target: IntWidth::U8 })
    } else if v > 255 {
        Err(BridgeError::IntegerOverflow { negative: false, magnitude: v as u64, target: IntWidth::U8 })
    } else {
        Ok(v as u8)
    }
}

/// Re-widens a native `u32` result to the host's signed 32-bit width,
/// verifying the round trip before accepting it; a native error is forwarded
/// unchanged.
pub fn jint_from_u32(value: Result<u32, NativeError>) -> (r: Result<i32, BridgeError>)
    ensures
        r == jint_from_u32_spec(value),
{
    match value {
        Ok(u) => {
            if u > 0x7fff_ffffu32 {
                return Err(BridgeError::IntegerOverflow {
                    negative: false,
                    magnitude: u as u64,
                    target: IntWidth::I32,
                });
            }
            Ok(u as i32)
        },
        Err(e) => Err(BridgeError::Native(e)),
    }
}

/// Re-widens a native `u64` result to the host's signed 64-bit width,
/// verifying the round trip before accepting it; a native error is forwarded
/// unchanged.
pub fn jlong_from_u64(value: Result<u64, NativeError>) -> (r: Result<i64, BridgeError>)
    ensures
        r == jlong_from_u64_spec(value),
{
    match value {
        Ok(u) => {
            if u > 0x7fff_ffff_ffff_ffffu64 {
                return Err(BridgeError::IntegerOverflow {
                    negative: false,
                    magnitude: u,
                    target: IntWidth::I64,
                });
            }
            Ok(u as i64)
        },
        Err(e) => Err(BridgeError::Native(e)),
    }
}

/// Law: every non-negative host 32-bit integer survives the trip to `u32`
/// and back unchanged.
pub proof fn lemma_u32_round_trip(v: i32)
    requires
        v >= 0,
    ensures
        jint_to_u32_spec(v) == Ok::<u32, BridgeError>(v as u32),
        jint_from_u32_spec(Ok(v as u32)) == Ok::<i32, BridgeError>(v),
{
}

/// Law: every non-negative host 64-bit integer survives the trip to `u64`
/// and back unchanged.
pub proof fn lemma_u64_round_trip(v: i64)
    requires
        v >= 0,
    ensures
        jlong_to_u64_spec(v) == Ok::<u64, BridgeError>(v as u64),
        jlong_from_u64_spec(Ok(v as u64)) == Ok::<i64, BridgeError>(v),
{
}

/// Law: every host integer in the byte range survives the trip to `u8` and
/// back unchanged (the signed re-interpretation of a byte is the byte).
pub proof fn lemma_u8_round_trip(v: i32)
    requires
        0 <= v && v <= 255,
    ensures
        jint_to_u8_spec(v) matches Ok(b) && b as i32 == v,
{
}

/// Law: every native `u32` whose signed re-interpretation stays non-negative
/// survives the trip to the host's width and back unchanged.
pub proof fn lemma_from_u32_round_trip(u: u32)
    requires
        u as int <= i32::MAX as int,
    ensures
        jint_from_u32_spec(Ok(u)) == Ok::<i32, BridgeError>(u as i32),
        jint_to_u32_spec(u as i32) == Ok::<u32, BridgeError>(u),
{
}

/// Law: every native `u64` whose signed re-interpretation stays non-negative
/// survives the trip to the host's width and back unchanged.
pub proof fn lemma_from_u64_round_trip(u: u64)
    requires
        u as int <= i64::MAX as int,
    ensures
        jlong_from_u64_spec(Ok(u)) == Ok::<i64, BridgeError>(u as i64),
        jlong_to_u64_spec(u as i64) == Ok::<u64, BridgeError>(u),
{
}

} // verus!
