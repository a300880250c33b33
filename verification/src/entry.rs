//! Boundary entry-point patterns.
//!
//! Every native operation exposed to the host follows the same crossing
//! shape: cast the incoming handle, run the operation against the cast
//! reference, convert the result to a boundary-safe value, and translate
//! any native error into the boundary error type. Each pattern here is a
//! higher-order function parameterized by the operation, so a new exposed
//! operation is a one-line instantiation rather than a hand-rolled crossing.

use vstd::prelude::*;

use crate::error::{BridgeError, NativeError};
use crate::handle::{ObjectHandle, Registry};
use crate::numeric::{jint_from_u32, jint_from_u32_spec, jlong_from_u64, jlong_from_u64_spec};

verus! {

/// A native result re-wrapped as a boundary result: the value passes
/// through, a native error is forwarded unchanged.
pub open spec fn forward_native<V>(x: Result<V, NativeError>) -> Result<V, BridgeError> {
    match x {
        Ok(v) => Ok(v),
        Err(e) => Err(BridgeError::Native(e)),
    }
}

/// Entry-point pattern for an operation returning a native `u32`, surfaced
/// to the host as its signed 32-bit integer after checked conversion.
pub fn jni_fn_get_jint<T, F: Fn(&T) -> Result<u32, NativeError>>(
    registry: &Registry<T>,
    handle: ObjectHandle,
    body: F,
) -> (r: Result<i32, BridgeError>)
    requires
        handle == 0 || registry.live(handle as int),
        forall|t: &T| #[trigger] call_requires(body, (t,)),
    ensures
        handle == 0 ==> r == Err::<i32, BridgeError>(BridgeError::NullHandle),
        handle != 0 ==> exists|mid: Result<u32, NativeError>|
            #[trigger] call_ensures(body, (&registry.at(handle as int),), mid) && r
                == jint_from_u32_spec(mid),
{
    let obj: &T = match registry.native_handle_cast(handle) {
        Ok(t) => t,
        Err(e) => return Err(e),
    };
    jint_from_u32(body(obj))
}

/// Entry-point pattern for an operation returning a native `u64`, surfaced
/// to the host as its signed 64-bit integer after checked conversion.
pub fn jni_fn_get_jlong<T, F: Fn(&T) -> Result<u64, NativeError>>(
    registry: &Registry<T>,
    handle: ObjectHandle,
    body: F,
) -> (r: Result<i64, BridgeError>)
    requires
        handle == 0 || registry.live(handle as int),
        forall|t: &T| #[trigger] call_requires(body, (t,)),
    ensures
        handle == 0 ==> r == Err::<i64, BridgeError>(BridgeError::NullHandle),
        handle != 0 ==> exists|mid: Result<u64, NativeError>|
            #[trigger] call_ensures(body, (&registry.at(handle as int),), mid) && r
                == jlong_from_u64_spec(mid),
{
    let obj: &T = match registry.native_handle_cast(handle) {
        Ok(t) => t,
        Err(e) => return Err(e),
    };
    jlong_from_u64(body(obj))
}

/// Entry-point pattern for an operation returning a boolean.
pub fn jni_fn_get_jboolean<T, F: Fn(&T) -> Result<bool, NativeError>>(
    registry: &Registry<T>,
    handle: ObjectHandle,
    body: F,
) -> (r: Result<bool, BridgeError>)
    requires
        handle == 0 || registry.live(handle as int),
        forall|t: &T| #[trigger] call_requires(body, (t,)),
    ensures
        handle == 0 ==> r == Err::<bool, BridgeError>(BridgeError::NullHandle),
        handle != 0 ==> exists|mid: Result<bool, NativeError>|
            #[trigger] call_ensures(body, (&registry.at(handle as int),), mid) && r
                == forward_native(mid),
{
    let obj: &T = match registry.native_handle_cast(handle) {
        Ok(t) => t,
        Err(e) => return Err(e),
    };
    match body(obj) {
        Ok(b) => Ok(b),
        Err(e) => Err(BridgeError::Native(e)),
    }
}

/// Entry-point pattern for an operation returning a required string,
/// surfaced to the host as interned text.
pub fn jni_fn_get_jstring<T, F: Fn(&T) -> Result<String, NativeError>>(
    registry: &Registry<T>,
    handle: ObjectHandle,
    body: F,
) -> (r: Result<String, BridgeError>)
    requires
        handle == 0 || registry.live(handle as int),
        forall|t: &T| #[trigger] call_requires(body, (t,)),
    ensures
        handle == 0 ==> r == Err::<String, BridgeError>(BridgeError::NullHandle),
        handle != 0 ==> exists|mid: Result<String, NativeError>|
            #[trigger] call_ensures(body, (&registry.at(handle as int),), mid) && r
                == forward_native(mid),
{
    let obj: &T = match registry.native_handle_cast(handle) {
        Ok(t) => t,
        Err(e) => return Err(e),
    };
    match body(obj) {
        Ok(s) => Ok(s),
        Err(e) => Err(BridgeError::Native(e)),
    }
}

/// Entry-point pattern for an operation returning an optional string; the
/// absent case crosses the boundary as a null.
pub fn jni_fn_get_optional_jstring<T, F: Fn(&T) -> Result<Option<String>, NativeError>>(
    registry: &Registry<T>,
    handle: ObjectHandle,
    body: F,
) -> (r: Result<Option<String>, BridgeError>)
    requires
        handle == 0 || registry.live(handle as int),
        forall|t: &T| #[trigger] call_requires(body, (t,)),
    ensures
        handle == 0 ==> r == Err::<Option<String>, BridgeError>(BridgeError::NullHandle),
        handle != 0 ==> exists|mid: Result<Option<String>, NativeError>|
            #[trigger] call_ensures(body, (&registry.at(handle as int),), mid) && r
                == forward_native(mid),
{
    let obj: &T = match registry.native_handle_cast(handle) {
        Ok(t) => t,
        Err(e) => return Err(e),
    };
    match body(obj) {
        Ok(s) => Ok(s),
        Err(e) => Err(BridgeError::Native(e)),
    }
}

/// Entry-point pattern for an operation returning a serialized byte buffer,
/// with any native error converted into the boundary error type.
pub fn jni_fn_get_jbytearray<T, F: Fn(&T) -> Result<Vec<u8>, NativeError>>(
    registry: &Registry<T>,
    handle: ObjectHandle,
    body: F,
) -> (r: Result<Vec<u8>, BridgeError>)
    requires
        handle == 0 || registry.live(handle as int),
        forall|t: &T| #[trigger] call_requires(body, (t,)),
    ensures
        handle == 0 ==> r == Err::<Vec<u8>, BridgeError>(BridgeError::NullHandle),
        handle != 0 ==> exists|mid: Result<Vec<u8>, NativeError>|
            #[trigger] call_ensures(body, (&registry.at(handle as int),), mid) && r
                == forward_native(mid),
{
    let obj: &T = match registry.native_handle_cast(handle) {
        Ok(t) => t,
        Err(e) => return Err(e),
    };
    crate::marshal::to_jbytearray(body(obj))
}

/// Entry-point pattern for an operation constructing derived native state:
/// the result is boxed into the output registry and its fresh handle is
/// returned to the host.
pub fn jni_fn_get_new_boxed_obj<T, R, F: Fn(&T) -> Result<R, NativeError>>(
    registry: &Registry<T>,
    out: &mut Registry<R>,
    handle: ObjectHandle,
    body: F,
) -> (r: Result<ObjectHandle, BridgeError>)
    requires
        handle == 0 || registry.live(handle as int),
        forall|t: &T| #[trigger] call_requires(body, (t,)),
        old(out)@.len() < i64::MAX,
    ensures
        handle == 0 ==> r == Err::<ObjectHandle, BridgeError>(BridgeError::NullHandle)
            && final(out)@ == old(out)@,
        handle != 0 ==> exists|mid: Result<R, NativeError>|
            #[trigger] call_ensures(body, (&registry.at(handle as int),), mid) && (match mid {
                Ok(v) => final(out)@ == old(out)@.push(v) && r == Ok::<ObjectHandle, BridgeError>(
                    (old(out)@.len() + 1) as i64,
                ),
                Err(e) => final(out)@ == old(out)@ && r == Err::<ObjectHandle, BridgeError>(
                    BridgeError::Native(e),
                ),
            }),
{
    let obj: &T = match registry.native_handle_cast(handle) {
        Ok(t) => t,
        Err(e) => return Err(e),
    };
    match body(obj) {
        Ok(v) => Ok(out.box_object(v)),
        Err(e) => Err(BridgeError::Native(e)),
    }
}

/// Entry-point pattern for an operation constructing optional derived
/// native state: an absent result crosses the boundary as the null handle,
/// and nothing is boxed for it.
pub fn jni_fn_get_new_boxed_optional_obj<T, R, F: Fn(&T) -> Result<Option<R>, NativeError>>(
    registry: &Registry<T>,
    out: &mut Registry<R>,
    handle: ObjectHandle,
    body: F,
) -> (r: Result<ObjectHandle, BridgeError>)
    requires
        handle == 0 || registry.live(handle as int),
        forall|t: &T| #[trigger] call_requires(body, (t,)),
        old(out)@.len() < i64::MAX,
    ensures
        handle == 0 ==> r == Err::<ObjectHandle, BridgeError>(BridgeError::NullHandle)
            && final(out)@ == old(out)@,
        handle != 0 ==> exists|mid: Result<Option<R>, NativeError>|
            #[trigger] call_ensures(body, (&registry.at(handle as int),), mid) && (match mid {
                Ok(Some(v)) => final(out)@ == old(out)@.push(v) && r == Ok::<
                    ObjectHandle,
                    BridgeError,
                >((old(out)@.len() + 1) as i64),
                Ok(None) => final(out)@ == old(out)@ && r == Ok::<ObjectHandle, BridgeError>(0),
                Err(e) => final(out)@ == old(out)@ && r == Err::<ObjectHandle, BridgeError>(
                    BridgeError::Native(e),
                ),
            }),
{
    let obj: &T = match registry.native_handle_cast(handle) {
        Ok(t) => t,
        Err(e) => return Err(e),
    };
    match body(obj) {
        Ok(Some(v)) => Ok(out.box_object(v)),
        Ok(None) => Ok(0),
        Err(e) => Err(BridgeError::Native(e)),
    }
}

} // verus!
