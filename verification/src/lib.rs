//! A bidirectional bridge core between a native, ownership-based runtime and a
//! managed host runtime that signals errors through exceptions.
//!
//! The bridge solves three mismatches at the call boundary: host-side opaque
//! integer handles must become typed native references, host exceptions must be
//! translated losslessly into native error values, and the two runtimes
//! disagree on integer widths and signedness.
//!
//! The host runtime is represented by an explicit model ([`host::HostEnv`]):
//! a table of host objects, each with a class name, optional text or byte
//! contents, and a scripted behaviour for each method the bridge may invoke.
//! Every operation of the bridge is an ordinary verified function over that
//! model, so the exception-checked call protocol and the marshalling bridges
//! carry full contracts.

pub mod entry;
pub mod error;
pub mod handle;
pub mod host;
pub mod marshal;
pub mod numeric;
pub mod poll;
pub mod protocol;
