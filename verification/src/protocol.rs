//! The exception-checked invocation protocol.
//!
//! A host method call's return value cannot be trusted until the host call
//! stack has been checked for a pending exception. The protocol here issues
//! the call, checks, and on an exception clears the flag before any further
//! diagnostic call, translates the exception into a native error value (or
//! into "no value" when the caller designated its type as benign), and
//! guarantees that no pending exception ever survives past an exit.

use vstd::prelude::*;

use crate::error::{BridgeError, HostFault};
use crate::host::{has_class, value_shape, CallOutcome, HostEnv, HostValue, ObjId};

verus! {

/// The view of an optional class name handed in as `&str`.
pub open spec fn opt_str_view(o: Option<&str>) -> Option<Seq<char>> {
    match o {
        Some(s) => Some(s@),
        None => None,
    }
}

/// Whether the exception object `e` is an instance of the caller-designated
/// benign class.
pub open spec fn benign_matches(h: HostEnv, e: int, benign: Option<Seq<char>>) -> bool {
    benign matches Some(c) && h.objects@[e].class_name@ == c
}

/// The class name the protocol can recover for exception object `e`:
/// the text of what `getClass` followed by `getCanonicalName` yields, or
/// nothing if any step of that best-effort lookup fails.
pub open spec fn class_name_of(h: HostEnv, e: int) -> Option<Seq<char>> {
    match h.outcome_of(e, "getClass"@) {
        Some(CallOutcome::Return(HostValue::Object(c))) => match h.outcome_of(
            c as int,
            "getCanonicalName"@,
        ) {
            Some(CallOutcome::Return(HostValue::Object(s))) => {
                if h.valid_obj(s as int) && h.objects@[s as int].text is Some {
                    Some(h.objects@[s as int].text->0@)
                } else {
                    None
                }
            },
            _ => None,
        },
        _ => None,
    }
}

/// The fixed text substituted when an exception's message cannot be read.
pub open spec fn missing_message_placeholder() -> Seq<char> {
    "<exception did not implement getMessage>"@
}

/// The message text the protocol reports for exception object `e`: what its
/// `getMessage` yields if that is a host string, else the fixed placeholder.
pub open spec fn message_of(h: HostEnv, e: int) -> Seq<char> {
    match h.outcome_of(e, "getMessage"@) {
        Some(CallOutcome::Return(HostValue::Object(s))) => {
            if h.valid_obj(s as int) && h.objects@[s as int].text is Some {
                h.objects@[s as int].text->0@
            } else {
                missing_message_placeholder()
            }
        },
        _ => missing_message_placeholder(),
    }
}

/// Whether `r` is the translated-exception error for exception `e` raised
/// out of `method`: it names the failing method, carries the best-effort
/// class name, and the best-effort message text.
pub open spec fn translated_to<V>(
    r: Result<V, BridgeError>,
    h: HostEnv,
    method: Seq<char>,
    e: int,
) -> bool {
    &&& r matches Err(BridgeError::TranslatedException { method: m, exception_class, message })
    &&& m@ == method
    &&& (match exception_class {
        Some(c) => class_name_of(h, e) == Some(c@),
        None => class_name_of(h, e) is None,
    })
    &&& message@ == message_of(h, e)
}

/// Whether `r` is the shape-mismatch error for a host method that returned
/// a value of a different shape than its signature promised.
pub open spec fn unexpected_to<V>(
    r: Result<V, BridgeError>,
    method: Seq<char>,
    shape: crate::error::ValueShape,
) -> bool {
    &&& r matches Err(BridgeError::UnexpectedResultType { method: m, got })
    &&& m@ == method
    &&& got == shape
}

/// What the exception-checked call protocol yields, as a function of the
/// host's scripted outcome for the invoked method: the value of a call that
/// raises nothing, "no value" for a benign exception, and the translated
/// error for any other exception.
pub open spec fn call_result_matches(
    r: Result<HostValue, BridgeError>,
    h: HostEnv,
    obj: int,
    method: Seq<char>,
    benign: Option<Seq<char>>,
) -> bool {
    match h.outcome_of(obj, method) {
        None => r == Err::<HostValue, BridgeError>(BridgeError::Host(HostFault::MissingMethod)),
        Some(CallOutcome::Return(v)) => r == Ok::<HostValue, BridgeError>(v),
        Some(CallOutcome::Throw(e)) => {
            if benign_matches(h, e as int, benign) {
                r == Ok::<HostValue, BridgeError>(HostValue::Null)
            } else {
                translated_to(r, h, method, e as int)
            }
        },
    }
}

/// The fixed placeholder substituted for an unreadable exception message.
fn placeholder_message() -> (r: String)
    ensures
        r@ == missing_message_placeholder(),
{
    "<exception did not implement getMessage>".to_owned()
}

/// Best-effort lookup of an exception object's runtime class name, by
/// querying `getClass` and then `getCanonicalName`. Any failure along the
/// way (including a secondary exception, which is left pending for the
/// caller to clear) is reported as an error rather than a name.
fn exception_class_name(host: &mut HostEnv, exn: ObjId) -> (r: Result<String, BridgeError>)
    requires
        old(host).wf(),
        old(host).valid_obj(exn as int),
        old(host).pending is None,
    ensures
        final(host).objects == old(host).objects,
        final(host).classes == old(host).classes,
        match class_name_of(*old(host), exn as int) {
            Some(s) => (r matches Ok(t) && t@ == s) && final(host).pending is None,
            None => r is Err,
        },
{
    let ghost h0: HostEnv = *host;
    let diag_args: Vec<HostValue> = Vec::new();
    let class_val = match host.call_method(exn, "getClass", &diag_args) {
        Ok(v) => v,
        Err(f) => {
            return Err(BridgeError::Host(f));
        },
    };
    let class_obj: ObjId = match class_val {
        HostValue::Object(c) => c,
        other => {
            return Err(
                BridgeError::UnexpectedResultType {
                    method: "getClass".to_owned(),
                    got: value_shape(other),
                },
            );
        },
    };
    proof {
        h0.lemma_outcome_valid(
            exn as int,
            "getClass"@,
            CallOutcome::Return(HostValue::Object(class_obj)),
        );
    }
    let name_val = match host.call_method(class_obj, "getCanonicalName", &diag_args) {
        Ok(v) => v,
        Err(f) => {
            return Err(BridgeError::Host(f));
        },
    };
    let name_obj: ObjId = match name_val {
        HostValue::Object(s) => s,
        other => {
            return Err(
                BridgeError::UnexpectedResultType {
                    method: "getCanonicalName".to_owned(),
                    got: value_shape(other),
                },
            );
        },
    };
    proof {
        h0.lemma_outcome_valid(
            class_obj as int,
            "getCanonicalName"@,
            CallOutcome::Return(HostValue::Object(name_obj)),
        );
    }
    match host.get_string(name_obj) {
        Ok(t) => Ok(t),
        Err(f) => Err(BridgeError::Host(f)),
    }
}

/// Invokes a host callback method under the exception-checked protocol.
///
/// The call's return value is not trusted until the pending-exception flag
/// has been checked. On an exception, the flag is cleared before any
/// diagnostic call; an instance of the caller-designated benign class
/// becomes the "no value" result (a null), and any other exception becomes
/// a translated error carrying the method name, the best-effort class name
/// and the best-effort message. No exit leaves an exception pending.
pub fn call_method_with_exception_as_null(
    host: &mut HostEnv,
    obj: ObjId,
    fn_name: &str,
    args: &Vec<HostValue>,
    exception_to_treat_as_null: Option<&str>,
) -> (r: Result<HostValue, BridgeError>)
    requires
        old(host).wf(),
        old(host).valid_obj(obj as int),
        old(host).pending is None,
    ensures
        final(host).objects == old(host).objects,
        final(host).classes == old(host).classes,
        final(host).pending is None,
        final(host).wf(),
        call_result_matches(
            r,
            *old(host),
            obj as int,
            fn_name@,
            opt_str_view(exception_to_treat_as_null),
        ),
{
    let ghost h0: HostEnv = *host;
    // The result is *not* trusted yet: the exception check comes first.
    let result = host.call_method(obj, fn_name, args);
    if host.exception_check() {
        let throwable = host.exception_occurred();
        proof {
            assert(h0.outcome_of(obj as int, fn_name@) == Some(CallOutcome::Throw(throwable)));
            h0.lemma_outcome_valid(obj as int, fn_name@, CallOutcome::Throw(throwable));
        }
        host.exception_clear();

        if let Some(benign_class) = exception_to_treat_as_null {
            if host.is_instance_of(throwable, benign_class) {
                return Ok(HostValue::Null);
            }
        }
        proof {
            assert(*host == h0) by {
                assert(host.objects == h0.objects);
                assert(host.classes == h0.classes);
            }
        }
        let diag_args: Vec<HostValue> = Vec::new();
        let exn_type = match exception_class_name(host, throwable) {
            Ok(s) => Some(s),
            Err(_) => None,
        };
        // Clear again in case the class-name lookup itself threw.
        host.exception_clear();

        let message = match host.call_method(throwable, "getMessage", &diag_args) {
            Ok(HostValue::Object(s)) => {
                proof {
                    h0.lemma_outcome_valid(
                        throwable as int,
                        "getMessage"@,
                        CallOutcome::Return(HostValue::Object(s)),
                    );
                }
                match host.get_string(s) {
                    Ok(t) => t,
                    Err(_) => placeholder_message(),
                }
            },
            Ok(_) => placeholder_message(),
            Err(_) => placeholder_message(),
        };
        // Clear once more in case reading the message threw.
        host.exception_clear();

        return Err(
            BridgeError::TranslatedException {
                method: fn_name.to_owned(),
                exception_class: exn_type,
                message,
            },
        );
    }
    match result {
        Ok(v) => Ok(v),
        Err(f) => Err(BridgeError::Host(f)),
    }
}

/// The simplified protocol for calls whose only legitimate outcomes are
/// success or hard failure: every exception is translated, none is benign.
pub fn call_method_checked(
    host: &mut HostEnv,
    obj: ObjId,
    fn_name: &str,
    args: &Vec<HostValue>,
) -> (r: Result<HostValue, BridgeError>)
    requires
        old(host).wf(),
        old(host).valid_obj(obj as int),
        old(host).pending is None,
    ensures
        final(host).objects == old(host).objects,
        final(host).classes == old(host).classes,
        final(host).pending is None,
        final(host).wf(),
        call_result_matches(r, *old(host), obj as int, fn_name@, None),
{
    call_method_with_exception_as_null(host, obj, fn_name, args, None)
}

/// Checks that a host-supplied object is an instance of the expected class:
/// null fails with the null-handle error, an unknown class name fails with
/// the host's class-lookup fault, and a live object of another class fails
/// the parameter check.
pub fn check_jobject_type(host: &HostEnv, obj: HostValue, class_name: &str) -> (r: Result<
    (),
    BridgeError,
>)
    requires
        match obj {
            HostValue::Null => true,
            HostValue::Object(o) => host.valid_obj(o as int),
            _ => false,
        },
    ensures
        obj is Null ==> r == Err::<(), BridgeError>(BridgeError::NullHandle),
        obj matches HostValue::Object(o) ==> {
            if !has_class(host.classes@, class_name@) {
                r == Err::<(), BridgeError>(BridgeError::Host(HostFault::UnknownClass))
            } else if host.objects@[o as int].class_name@ == class_name@ {
                r == Ok::<(), BridgeError>(())
            } else {
                (r matches Err(BridgeError::BadJniParameter { expected_class })
                    && expected_class@ == class_name@)
            }
        },
{
    match obj {
        HostValue::Null => Err(BridgeError::NullHandle),
        HostValue::Object(o) => {
            match host.find_class(class_name) {
                Err(f) => Err(BridgeError::Host(f)),
                Ok(_class) => {
                    if host.is_instance_of(o, class_name) {
                        Ok(())
                    } else {
                        Err(BridgeError::BadJniParameter { expected_class: class_name.to_owned() })
                    }
                },
            }
        },
        _ => vstd::pervasive::unreached(),
    }
}

} // verus!
