//! Object marshalling bridges.
//!
//! These compose the handle registry, the checked conversions and the
//! exception-checked call protocol to move whole objects across the
//! boundary: fetching a host-held object back as a native clone or as a
//! serialized byte buffer, and constructing host wrapper instances from a
//! native byte buffer or an already-boxed native handle.

use vstd::prelude::*;

use crate::error::{BridgeError, HostFault, NativeError};
use crate::handle::{ObjectHandle, Registry};
use crate::host::{has_class, shape_spec, value_shape, CallOutcome, HostEnv, HostValue, ObjId};
use crate::protocol::{
    benign_matches, call_method_checked, call_method_with_exception_as_null, opt_str_view,
    translated_to, unexpected_to,
};

verus! {

/// The object the scripted callback hands back, if it returns one.
pub open spec fn callback_object(h: HostEnv, store: int, cb: Seq<char>) -> Option<int> {
    match h.outcome_of(store, cb) {
        Some(CallOutcome::Return(HostValue::Object(o))) => Some(o as int),
        _ => None,
    }
}

/// The native handle behind the callback's returned object, if the chain of
/// the callback and the object's native-handle accessor yields one.
pub open spec fn callback_handle(h: HostEnv, store: int, cb: Seq<char>) -> Option<i64> {
    match callback_object(h, store, cb) {
        Some(o) => match h.outcome_of(o, "nativeHandle"@) {
            Some(CallOutcome::Return(HostValue::Long(hd))) => Some(hd),
            _ => None,
        },
        None => None,
    }
}

/// What fetching a host-held object as a native clone yields, as a function
/// of the host's script: "no value" for a null return, a benign exception,
/// or a zero handle; the registry's object for a live handle; the protocol's
/// translated or shape-mismatch error otherwise.
pub open spec fn fetch_handle_matches<T>(
    r: Result<Option<T>, BridgeError>,
    h: HostEnv,
    registry: Registry<T>,
    store: int,
    cb: Seq<char>,
    benign: Option<Seq<char>>,
) -> bool {
    match h.outcome_of(store, cb) {
        None => r == Err::<Option<T>, BridgeError>(BridgeError::Host(HostFault::MissingMethod)),
        Some(CallOutcome::Throw(e)) => {
            if benign_matches(h, e as int, benign) {
                r == Ok::<Option<T>, BridgeError>(None)
            } else {
                translated_to(r, h, cb, e as int)
            }
        },
        Some(CallOutcome::Return(HostValue::Null)) => r == Ok::<Option<T>, BridgeError>(None),
        Some(CallOutcome::Return(HostValue::Object(o))) => match h.outcome_of(
            o as int,
            "nativeHandle"@,
        ) {
            None => r == Err::<Option<T>, BridgeError>(
                BridgeError::Host(HostFault::MissingMethod),
            ),
            Some(CallOutcome::Throw(e2)) => translated_to(r, h, "nativeHandle"@, e2 as int),
            Some(CallOutcome::Return(HostValue::Long(hd))) => {
                if hd == 0 {
                    r == Ok::<Option<T>, BridgeError>(None)
                } else {
                    (r matches Ok(Some(t)) && t == registry.at(hd as int))
                }
            },
            Some(CallOutcome::Return(v2)) => unexpected_to(r, "nativeHandle"@, shape_spec(v2)),
        },
        Some(CallOutcome::Return(v)) => unexpected_to(r, cb, shape_spec(v)),
    }
}

/// Fetches a host-held object as a clone of the native object it wraps.
///
/// The callback is invoked under the exception-checked protocol (with an
/// optional benign exception class); a null return or a zero native handle
/// is the legitimate "no value" outcome. A nonzero handle is cast through
/// the registry and the object it names is copied out, so no reference
/// escapes the host object's own lifetime.
pub fn get_object_with_native_handle<T: Copy>(
    host: &mut HostEnv,
    registry: &Registry<T>,
    store_obj: ObjId,
    callback_args: &Vec<HostValue>,
    callback_fn: &str,
    exception_to_treat_as_none: Option<&str>,
) -> (r: Result<Option<T>, BridgeError>)
    requires
        old(host).wf(),
        old(host).valid_obj(store_obj as int),
        old(host).pending is None,
        callback_handle(*old(host), store_obj as int, callback_fn@) matches Some(hd) ==> hd == 0
            || registry.live(hd as int),
    ensures
        final(host).objects == old(host).objects,
        final(host).classes == old(host).classes,
        final(host).pending is None,
        final(host).wf(),
        fetch_handle_matches(
            r,
            *old(host),
            *registry,
            store_obj as int,
            callback_fn@,
            opt_str_view(exception_to_treat_as_none),
        ),
{
    let ghost h0: HostEnv = *host;
    let rvalue = match call_method_with_exception_as_null(
        host,
        store_obj,
        callback_fn,
        callback_args,
        exception_to_treat_as_none,
    ) {
        Ok(v) => v,
        Err(e) => return Err(e),
    };

    let obj: ObjId = match rvalue {
        HostValue::Null => return Ok(None),
        HostValue::Object(o) => o,
        other => {
            return Err(
                BridgeError::UnexpectedResultType {
                    method: callback_fn.to_owned(),
                    got: value_shape(other),
                },
            );
        },
    };
    proof {
        assert(h0.outcome_of(store_obj as int, callback_fn@) == Some(
            CallOutcome::Return(HostValue::Object(obj)),
        ));
        h0.lemma_outcome_valid(
            store_obj as int,
            callback_fn@,
            CallOutcome::Return(HostValue::Object(obj)),
        );
        assert(*host == h0);
    }

    let no_args: Vec<HostValue> = Vec::new();
    let handle_val = match call_method_checked(host, obj, "nativeHandle", &no_args) {
        Ok(v) => v,
        Err(e) => return Err(e),
    };
    match handle_val {
        HostValue::Long(handle) => {
            if handle == 0 {
                return Ok(None);
            }
            proof {
                assert(callback_handle(h0, store_obj as int, callback_fn@) == Some(handle));
            }
            let object: &T = match registry.native_handle_cast(handle) {
                Ok(t) => t,
                Err(_) => vstd::pervasive::unreached(),
            };
            Ok(Some(*object))
        },
        other => Err(
            BridgeError::UnexpectedResultType {
                method: "nativeHandle".to_owned(),
                got: value_shape(other),
            },
        ),
    }
}

/// What fetching a host-held object as a byte buffer yields, as a function
/// of the host's script.
pub open spec fn fetch_bytes_matches(
    r: Result<Option<Vec<u8>>, BridgeError>,
    h: HostEnv,
    store: int,
    cb: Seq<char>,
) -> bool {
    match h.outcome_of(store, cb) {
        None => r == Err::<Option<Vec<u8>>, BridgeError>(
            BridgeError::Host(HostFault::MissingMethod),
        ),
        Some(CallOutcome::Throw(e)) => translated_to(r, h, cb, e as int),
        Some(CallOutcome::Return(HostValue::Null)) => r == Ok::<Option<Vec<u8>>, BridgeError>(
            None,
        ),
        Some(CallOutcome::Return(HostValue::Object(o))) => match h.outcome_of(
            o as int,
            "serialize"@,
        ) {
            None => r == Err::<Option<Vec<u8>>, BridgeError>(
                BridgeError::Host(HostFault::MissingMethod),
            ),
            Some(CallOutcome::Throw(e2)) => translated_to(r, h, "serialize"@, e2 as int),
            Some(CallOutcome::Return(HostValue::Object(b))) => {
                if h.valid_obj(b as int) && h.objects@[b as int].bytes is Some {
                    (r matches Ok(Some(bs)) && bs@ == h.objects@[b as int].bytes->0@)
                } else {
                    r == Err::<Option<Vec<u8>>, BridgeError>(BridgeError::Host(HostFault::NotBytes))
                }
            },
            Some(CallOutcome::Return(v2)) => unexpected_to(r, "serialize"@, shape_spec(v2)),
        },
        Some(CallOutcome::Return(v)) => unexpected_to(r, cb, shape_spec(v)),
    }
}

/// Fetches a host-held object as the byte buffer its serialization method
/// produces; a null return from the callback is the legitimate "no value"
/// outcome. The callback runs under the simplified protocol: any exception
/// is a hard failure.
pub fn get_object_with_serialization(
    host: &mut HostEnv,
    store_obj: ObjId,
    callback_args: &Vec<HostValue>,
    callback_fn: &str,
) -> (r: Result<Option<Vec<u8>>, BridgeError>)
    requires
        old(host).wf(),
        old(host).valid_obj(store_obj as int),
        old(host).pending is None,
    ensures
        final(host).objects == old(host).objects,
        final(host).classes == old(host).classes,
        final(host).pending is None,
        final(host).wf(),
        fetch_bytes_matches(r, *old(host), store_obj as int, callback_fn@),
{
    let ghost h0: HostEnv = *host;
    let rvalue = match call_method_checked(host, store_obj, callback_fn, callback_args) {
        Ok(v) => v,
        Err(e) => return Err(e),
    };

    let obj: ObjId = match rvalue {
        HostValue::Null => return Ok(None),
        HostValue::Object(o) => o,
        other => {
            return Err(
                BridgeError::UnexpectedResultType {
                    method: callback_fn.to_owned(),
                    got: value_shape(other),
                },
            );
        },
    };
    proof {
        h0.lemma_outcome_valid(
            store_obj as int,
            callback_fn@,
            CallOutcome::Return(HostValue::Object(obj)),
        );
        assert(*host == h0);
    }

    let no_args: Vec<HostValue> = Vec::new();
    let bytes_val = match call_method_checked(host, obj, "serialize", &no_args) {
        Ok(v) => v,
        Err(e) => return Err(e),
    };
    match bytes_val {
        HostValue::Object(b) => {
            proof {
                h0.lemma_outcome_valid(
                    obj as int,
                    "serialize"@,
                    CallOutcome::Return(HostValue::Object(b)),
                );
            }
            match host.convert_byte_array(b) {
                Ok(buf) => Ok(Some(buf)),
                Err(f) => Err(BridgeError::Host(f)),
            }
        },
        other => Err(
            BridgeError::UnexpectedResultType {
                method: "serialize".to_owned(),
                got: value_shape(other),
            },
        ),
    }
}

/// Re-wraps a native serialization result as the boundary's byte-buffer
/// result, converting a native-library error into the boundary error type.
pub fn to_jbytearray(data: Result<Vec<u8>, NativeError>) -> (r: Result<Vec<u8>, BridgeError>)
    ensures
        data matches Ok(d) ==> r == Ok::<Vec<u8>, BridgeError>(d),
        data matches Err(e) ==> r == Err::<Vec<u8>, BridgeError>(BridgeError::Native(e)),
{
    match data {
        Ok(d) => Ok(d),
        Err(e) => Err(BridgeError::Native(e)),
    }
}

/// Constructs a host instance of the named class from a byte buffer, by the
/// class's byte-buffer constructor; fails if the class cannot be found.
pub fn jobject_from_serialized(
    host: &mut HostEnv,
    class_name: &str,
    serialized: &Vec<u8>,
) -> (r: Result<ObjId, BridgeError>)
    ensures
        final(host).classes == old(host).classes,
        final(host).pending == old(host).pending,
        old(host).wf() ==> final(host).wf(),
        !has_class(old(host).classes@, class_name@) ==> r == Err::<ObjId, BridgeError>(
            BridgeError::Host(HostFault::UnknownClass),
        ) && final(host).objects == old(host).objects,
        has_class(old(host).classes@, class_name@) ==> (r matches Ok(id) && {
            &&& id == old(host).objects@.len()
            &&& final(host).objects@.len() == old(host).objects@.len() + 1
            &&& forall|i: int|
                0 <= i < old(host).objects@.len() ==> final(host).objects@[i] == old(
                    host,
                ).objects@[i]
            &&& final(host).objects@[id as int].class_name@ == class_name@
            &&& (final(host).objects@[id as int].bytes matches Some(b) && b@ == serialized@)
            &&& final(host).objects@[id as int].methods@.len() == 1
            &&& final(host).objects@[id as int].methods@[0].name@ == "serialize"@
            &&& final(host).objects@[id as int].methods@[0].outcome == CallOutcome::Return(
                HostValue::Object(id),
            )
        }),
{
    let class = match host.find_class(class_name) {
        Ok(c) => c,
        Err(f) => return Err(BridgeError::Host(f)),
    };
    let id = host.new_serialized_object(class, serialized);
    Ok(id)
}

/// Constructs a host instance of the named class around an already-boxed
/// native handle, by the class's handle-accepting constructor; the wrapper
/// takes the handle rather than re-deserializing the object. Fails if the
/// class cannot be found.
pub fn jobject_from_native_handle(
    host: &mut HostEnv,
    class_name: &str,
    boxed_handle: ObjectHandle,
) -> (r: Result<ObjId, BridgeError>)
    ensures
        final(host).classes == old(host).classes,
        final(host).pending == old(host).pending,
        old(host).wf() ==> final(host).wf(),
        !has_class(old(host).classes@, class_name@) ==> r == Err::<ObjId, BridgeError>(
            BridgeError::Host(HostFault::UnknownClass),
        ) && final(host).objects == old(host).objects,
        has_class(old(host).classes@, class_name@) ==> (r matches Ok(id) && {
            &&& id == old(host).objects@.len()
            &&& final(host).objects@.len() == old(host).objects@.len() + 1
            &&& forall|i: int|
                0 <= i < old(host).objects@.len() ==> final(host).objects@[i] == old(
                    host,
                ).objects@[i]
            &&& final(host).objects@[id as int].class_name@ == class_name@
            &&& final(host).objects@[id as int].methods@.len() == 1
            &&& final(host).objects@[id as int].methods@[0].name@ == "nativeHandle"@
            &&& final(host).objects@[id as int].methods@[0].outcome == CallOutcome::Return(
                HostValue::Long(boxed_handle),
            )
        }),
{
    let class = match host.find_class(class_name) {
        Ok(c) => c,
        Err(f) => return Err(BridgeError::Host(f)),
    };
    let id = host.new_handle_object(class, boxed_handle);
    Ok(id)
}

} // verus!
