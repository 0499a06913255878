//! A safety layer over a native, handle-based inference engine.
//!
//! The native calls themselves live outside this library; what is here is
//! every decision made around them: translating status results, decoding
//! element-type codes and dimensions, sequencing the steps of session
//! creation, counting environment references, releasing each handle once,
//! and checking the type of an extraction against a tensor's declared type.
use vstd::prelude::*;

pub mod element;
pub mod env;
pub mod error;
pub mod handle;
pub mod session;
pub mod tensor;
pub mod vision;

verus! {

} // verus!
