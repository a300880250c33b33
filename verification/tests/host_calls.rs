//! Tests for the exception-checked invocation protocol and the object
//! marshalling bridges, against scripted host runtimes.

use jni_bridge::error::{BridgeError, HostFault, NativeError, ValueShape};
use jni_bridge::handle::Registry;
use jni_bridge::host::{CallOutcome, HostEnv, HostObject, HostValue, MethodBehavior};
use jni_bridge::marshal::{
    get_object_with_native_handle, get_object_with_serialization, jobject_from_native_handle,
    jobject_from_serialized, to_jbytearray,
};
use jni_bridge::protocol::{
    call_method_checked, call_method_with_exception_as_null, check_jobject_type,
};

fn plain_object(class: &str) -> HostObject {
    HostObject { class_name: class.to_string(), text: None, bytes: None, methods: vec![] }
}

fn string_object(text: &str) -> HostObject {
    let mut o = plain_object("java.lang.String");
    o.text = Some(text.to_string());
    o
}

fn bytes_object(bytes: &[u8]) -> HostObject {
    let mut o = plain_object("byte[]");
    o.bytes = Some(bytes.to_vec());
    o
}

fn behavior(name: &str, outcome: CallOutcome) -> MethodBehavior {
    MethodBehavior { name: name.to_string(), outcome }
}

fn host_with(objects: Vec<HostObject>) -> HostEnv {
    HostEnv { objects, classes: vec![], pending: None }
}

/// A host whose object 0 is a callback store, object 1 an exception of the
/// given class with a fully working diagnostic chain (getClass -> object 2,
/// getCanonicalName -> object 3, getMessage -> object 4).
fn host_with_throwing_callback(exn_class: &str, message: Option<&str>) -> HostEnv {
    let mut store = plain_object("org.example.Store");
    store.methods.push(behavior("loadRecord", CallOutcome::Throw(1)));
    let mut exn = plain_object(exn_class);
    exn.methods.push(behavior("getClass", CallOutcome::Return(HostValue::Object(2))));
    let mut class_obj = plain_object("java.lang.Class");
    class_obj.methods.push(behavior("getCanonicalName", CallOutcome::Return(HostValue::Object(3))));
    let class_name_obj = string_object(exn_class);
    match message {
        Some(m) => {
            exn.methods.push(behavior("getMessage", CallOutcome::Return(HostValue::Object(4))));
            host_with(vec![store, exn, class_obj, class_name_obj, string_object(m)])
        },
        None => host_with(vec![store, exn, class_obj, class_name_obj]),
    }
}

#[test]
fn call_without_exception_returns_value_unchanged() {
    let mut store = plain_object("org.example.Store");
    store.methods.push(behavior("getValue", CallOutcome::Return(HostValue::Int(42))));
    let mut host = host_with(vec![store]);
    let r = call_method_with_exception_as_null(&mut host, 0, "getValue", &vec![], None);
    assert_eq!(r, Ok(HostValue::Int(42)));
    assert_eq!(host.pending, None);
}

#[test]
fn call_on_missing_method_reports_host_fault() {
    let mut host = host_with(vec![plain_object("org.example.Store")]);
    let r = call_method_checked(&mut host, 0, "getValue", &vec![]);
    assert_eq!(r, Err(BridgeError::Host(HostFault::MissingMethod)));
    assert_eq!(host.pending, None);
}

#[test]
fn benign_exception_becomes_no_value_and_leaves_nothing_pending() {
    let mut host = host_with_throwing_callback("org.example.NoSuchRecord", Some("unused"));
    let r = call_method_with_exception_as_null(
        &mut host,
        0,
        "loadRecord",
        &vec![],
        Some("org.example.NoSuchRecord"),
    );
    assert_eq!(r, Ok(HostValue::Null));
    assert_eq!(host.pending, None);
}

#[test]
fn other_exception_becomes_translated_error_with_method_class_and_message() {
    let mut host = host_with_throwing_callback("org.example.Boom", Some("kaboom"));
    let r = call_method_with_exception_as_null(
        &mut host,
        0,
        "loadRecord",
        &vec![],
        Some("org.example.NoSuchRecord"),
    );
    assert_eq!(
        r,
        Err(BridgeError::TranslatedException {
            method: "loadRecord".to_string(),
            exception_class: Some("org.example.Boom".to_string()),
            message: "kaboom".to_string(),
        })
    );
    assert_eq!(host.pending, None);
}

#[test]
fn exception_without_message_gets_placeholder() {
    let mut host = host_with_throwing_callback("org.example.Boom", None);
    let r = call_method_checked(&mut host, 0, "loadRecord", &vec![]);
    assert_eq!(
        r,
        Err(BridgeError::TranslatedException {
            method: "loadRecord".to_string(),
            exception_class: Some("org.example.Boom".to_string()),
            message: "<exception did not implement getMessage>".to_string(),
        })
    );
    assert_eq!(host.pending, None);
}

#[test]
fn exception_with_failing_diagnostics_still_translates() {
    // The exception's own getClass and getMessage throw a secondary
    // exception; the protocol degrades to an unknown class and the
    // placeholder message, and still drains the exception state.
    let mut store = plain_object("org.example.Store");
    store.methods.push(behavior("loadRecord", CallOutcome::Throw(1)));
    let mut exn = plain_object("org.example.Boom");
    exn.methods.push(behavior("getClass", CallOutcome::Throw(2)));
    exn.methods.push(behavior("getMessage", CallOutcome::Throw(2)));
    let secondary = plain_object("org.example.Secondary");
    let mut host = host_with(vec![store, exn, secondary]);
    let r = call_method_checked(&mut host, 0, "loadRecord", &vec![]);
    assert_eq!(
        r,
        Err(BridgeError::TranslatedException {
            method: "loadRecord".to_string(),
            exception_class: None,
            message: "<exception did not implement getMessage>".to_string(),
        })
    );
    assert_eq!(host.pending, None);
}

#[test]
fn check_jobject_type_rejects_null() {
    let host = host_with(vec![]);
    let r = check_jobject_type(&host, HostValue::Null, "org.example.Key");
    assert_eq!(r, Err(BridgeError::NullHandle));
}

#[test]
fn check_jobject_type_reports_unknown_class() {
    let host = host_with(vec![plain_object("org.example.Key")]);
    let r = check_jobject_type(&host, HostValue::Object(0), "org.example.Key");
    assert_eq!(r, Err(BridgeError::Host(HostFault::UnknownClass)));
}

#[test]
fn check_jobject_type_accepts_matching_class() {
    let mut host = host_with(vec![plain_object("org.example.Key")]);
    host.classes.push("org.example.Key".to_string());
    let r = check_jobject_type(&host, HostValue::Object(0), "org.example.Key");
    assert_eq!(r, Ok(()));
}

#[test]
fn check_jobject_type_rejects_other_class() {
    let mut host = host_with(vec![plain_object("org.example.Session")]);
    host.classes.push("org.example.Key".to_string());
    let r = check_jobject_type(&host, HostValue::Object(0), "org.example.Key");
    assert_eq!(
        r,
        Err(BridgeError::BadJniParameter { expected_class: "org.example.Key".to_string() })
    );
}

#[test]
fn fetch_as_handle_of_null_callback_is_no_value() {
    let mut store = plain_object("org.example.Store");
    store.methods.push(behavior("loadKey", CallOutcome::Return(HostValue::Null)));
    let mut host = host_with(vec![store]);
    let registry: Registry<u64> = Registry::new();
    let r = get_object_with_native_handle(&mut host, &registry, 0, &vec![], "loadKey", None);
    assert_eq!(r, Ok(None));
    assert_eq!(host.pending, None);
}

#[test]
fn fetch_as_handle_of_zero_handle_is_no_value() {
    let mut store = plain_object("org.example.Store");
    store.methods.push(behavior("loadKey", CallOutcome::Return(HostValue::Object(1))));
    let mut wrapper = plain_object("org.example.Key");
    wrapper.methods.push(behavior("nativeHandle", CallOutcome::Return(HostValue::Long(0))));
    let mut host = host_with(vec![store, wrapper]);
    let registry: Registry<u64> = Registry::new();
    let r = get_object_with_native_handle(&mut host, &registry, 0, &vec![], "loadKey", None);
    assert_eq!(r, Ok(None));
}

#[test]
fn fetch_as_handle_clones_the_boxed_object() {
    let mut registry: Registry<u64> = Registry::new();
    let handle = registry.box_object(909);
    let mut store = plain_object("org.example.Store");
    store.methods.push(behavior("loadKey", CallOutcome::Return(HostValue::Object(1))));
    let mut wrapper = plain_object("org.example.Key");
    wrapper.methods.push(behavior("nativeHandle", CallOutcome::Return(HostValue::Long(handle))));
    let mut host = host_with(vec![store, wrapper]);
    let r = get_object_with_native_handle(&mut host, &registry, 0, &vec![], "loadKey", None);
    assert_eq!(r, Ok(Some(909)));
    assert_eq!(host.pending, None);
}

#[test]
fn fetch_as_handle_of_wrong_shape_reports_unexpected_result() {
    let mut store = plain_object("org.example.Store");
    store.methods.push(behavior("loadKey", CallOutcome::Return(HostValue::Int(3))));
    let mut host = host_with(vec![store]);
    let registry: Registry<u64> = Registry::new();
    let r = get_object_with_native_handle(&mut host, &registry, 0, &vec![], "loadKey", None);
    assert_eq!(
        r,
        Err(BridgeError::UnexpectedResultType {
            method: "loadKey".to_string(),
            got: ValueShape::Int
        })
    );
}

#[test]
fn fetch_as_handle_with_always_benign_callback_is_no_value() {
    let mut host = host_with_throwing_callback("org.example.NoSuchRecord", Some("unused"));
    let registry: Registry<u64> = Registry::new();
    let r = get_object_with_native_handle(
        &mut host,
        &registry,
        0,
        &vec![],
        "loadRecord",
        Some("org.example.NoSuchRecord"),
    );
    assert_eq!(r, Ok(None));
    assert_eq!(host.pending, None);
}

#[test]
fn fetch_as_handle_with_other_exception_fails_with_its_message() {
    let mut host = host_with_throwing_callback("org.example.Boom", Some("store burned down"));
    let registry: Registry<u64> = Registry::new();
    let r = get_object_with_native_handle(
        &mut host,
        &registry,
        0,
        &vec![],
        "loadRecord",
        Some("org.example.NoSuchRecord"),
    );
    match r {
        Err(BridgeError::TranslatedException { method, message, .. }) => {
            assert_eq!(method, "loadRecord".to_string());
            assert_eq!(message, "store burned down".to_string());
        },
        other => panic!("expected a translated exception, got {:?}", other),
    }
    assert_eq!(host.pending, None);
}

#[test]
fn fetch_as_bytes_of_null_callback_is_no_value() {
    let mut store = plain_object("org.example.Store");
    store.methods.push(behavior("loadRecord", CallOutcome::Return(HostValue::Null)));
    let mut host = host_with(vec![store]);
    let r = get_object_with_serialization(&mut host, 0, &vec![], "loadRecord");
    assert_eq!(r, Ok(None));
}

#[test]
fn fetch_as_bytes_yields_exactly_the_serialized_bytes() {
    let mut store = plain_object("org.example.Store");
    store.methods.push(behavior("loadRecord", CallOutcome::Return(HostValue::Object(1))));
    let mut record = plain_object("org.example.Record");
    record.methods.push(behavior("serialize", CallOutcome::Return(HostValue::Object(2))));
    let buffer = bytes_object(&[5, 4, 3, 2, 1]);
    let mut host = host_with(vec![store, record, buffer]);
    let r = get_object_with_serialization(&mut host, 0, &vec![], "loadRecord");
    assert_eq!(r, Ok(Some(vec![5, 4, 3, 2, 1])));
    assert_eq!(host.pending, None);
}

#[test]
fn fetch_as_bytes_with_throwing_callback_translates() {
    let mut host = host_with_throwing_callback("org.example.Boom", Some("bad record"));
    let r = get_object_with_serialization(&mut host, 0, &vec![], "loadRecord");
    match r {
        Err(BridgeError::TranslatedException { method, message, .. }) => {
            assert_eq!(method, "loadRecord".to_string());
            assert_eq!(message, "bad record".to_string());
        },
        other => panic!("expected a translated exception, got {:?}", other),
    }
    assert_eq!(host.pending, None);
}

#[test]
fn fetch_as_bytes_of_object_without_contents_is_a_host_fault() {
    let mut store = plain_object("org.example.Store");
    store.methods.push(behavior("loadRecord", CallOutcome::Return(HostValue::Object(1))));
    let mut record = plain_object("org.example.Record");
    record.methods.push(behavior("serialize", CallOutcome::Return(HostValue::Object(2))));
    let empty = plain_object("org.example.NotAnArray");
    let mut host = host_with(vec![store, record, empty]);
    let r = get_object_with_serialization(&mut host, 0, &vec![], "loadRecord");
    assert_eq!(r, Err(BridgeError::Host(HostFault::NotBytes)));
}

#[test]
fn to_jbytearray_forwards_value_and_native_error() {
    assert_eq!(to_jbytearray(Ok(vec![1, 2, 3])), Ok(vec![1, 2, 3]));
    assert_eq!(
        to_jbytearray(Err(NativeError { code: 11 })),
        Err(BridgeError::Native(NativeError { code: 11 }))
    );
}

#[test]
fn constructed_wrapper_serializes_back_to_its_bytes() {
    let mut host = host_with(vec![]);
    host.classes.push("org.example.Record".to_string());
    let id = jobject_from_serialized(&mut host, "org.example.Record", &vec![9, 8, 7]).unwrap();
    assert_eq!(id, 0);

    // Script a store whose callback hands the constructed wrapper back, and
    // fetch it as bytes: the round trip reproduces the construction bytes.
    let mut store = plain_object("org.example.Store");
    store.methods.push(behavior("loadRecord", CallOutcome::Return(HostValue::Object(id))));
    host.objects.push(store);
    let r = get_object_with_serialization(&mut host, 1, &vec![], "loadRecord");
    assert_eq!(r, Ok(Some(vec![9, 8, 7])));
}

#[test]
fn constructed_wrapper_exposes_its_native_handle() {
    let mut host = host_with(vec![]);
    host.classes.push("org.example.Key".to_string());
    let id = jobject_from_native_handle(&mut host, "org.example.Key", 41).unwrap();
    let r = call_method_checked(&mut host, id, "nativeHandle", &vec![]);
    assert_eq!(r, Ok(HostValue::Long(41)));
}

#[test]
fn construction_fails_on_unknown_class() {
    let mut host = host_with(vec![]);
    assert_eq!(
        jobject_from_serialized(&mut host, "org.example.Record", &vec![1]),
        Err(BridgeError::Host(HostFault::UnknownClass))
    );
    assert_eq!(
        jobject_from_native_handle(&mut host, "org.example.Key", 5),
        Err(BridgeError::Host(HostFault::UnknownClass))
    );
}
