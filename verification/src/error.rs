//! The bridge's error taxonomy.
//!
//! Every failure that can arise while a call crosses the boundary is recorded
//! here with structured fields, so that a caller can tell exactly why a
//! crossing failed and no diagnostic detail is lost in free-form text.

use vstd::prelude::*;

verus! {

/// The integer width a checked numeric conversion was aiming for.
#[derive(Clone, Copy, PartialEq, Eq, Structural, Debug)]
pub enum IntWidth {
    U8,
    U32,
    U64,
    I32,
    I64,
}

/// An error of the wrapped native library, carried through the bridge
/// unchanged. The bridge never interprets it; it only forwards it.
#[derive(Clone, Copy, PartialEq, Eq, Structural, Debug)]
pub struct NativeError {
    /// The native library's own error code.
    pub code: u64,
}

/// The shape of a value the host handed back from a method call.
#[derive(Clone, Copy, PartialEq, Eq, Structural, Debug)]
pub enum ValueShape {
    Null,
    Object,
    Int,
    Long,
    Boolean,
    Void,
}

/// A failure of the host call interface itself, forwarded unchanged: the
/// method or class the bridge asked for was not there, a call left an
/// exception pending, or a value did not hold the contents the bridge
/// expected to read out of it.
#[derive(Clone, Copy, PartialEq, Eq, Structural, Debug)]
pub enum HostFault {
    /// The invoked host method raised an exception.
    Threw,
    /// The host object exposes no method of the requested name.
    MissingMethod,
    /// The host object carries no text contents.
    NotText,
    /// The host object carries no byte contents.
    NotBytes,
    /// No host class of the requested name could be found.
    UnknownClass,
}

/// Why a boundary crossing failed.
#[derive(Clone, Debug, PartialEq, Eq)]
pub enum BridgeError {
    /// A handle was zero where a live object was required.
    NullHandle,
    /// A numeric conversion would have lost the value: the sign, magnitude
    /// and target width of the failing conversion are recorded.
    IntegerOverflow { negative: bool, magnitude: u64, target: IntWidth },
    /// A host-supplied object failed an instance-of check against the class
    /// the signature expected.
    BadJniParameter { expected_class: String },
    /// A host call returned a value of a different shape than the signature
    /// promised.
    UnexpectedResultType { method: String, got: ValueShape },
    /// A host exception was raised during a callback and translated into a
    /// native error value: the failing method, the exception's class name
    /// (if it could be recovered) and its message text.
    TranslatedException { method: String, exception_class: Option<String>, message: String },
    /// An error of the native library, forwarded unchanged.
    Native(NativeError),
    /// A failure of the host call interface, forwarded unchanged.
    Host(HostFault),
}

} // verus!
