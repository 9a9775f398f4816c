//! Status codes of the engine's callback ABI.
//!
//! Every filter hook answers the engine with one of these `i32` codes. The
//! engine distinguishes plain success, a provisional ("delayed") stream
//! registration, an admission rejection that tells the pipeline to skip the
//! filter for the current file, and a generic error that aborts filtering of
//! the file after the engine's last-error slot has been set.

use vstd::prelude::*;

verus! {

/// Plain success.
pub const OK: i32 = 0;

/// Generic failure; the engine expects its last-error slot to carry a
/// message whenever this code is returned.
pub const ERROR: i32 = -1;

/// Admission rejection: the filter does not apply to this file, the
/// pipeline skips it. Not a failure.
pub const PASSTHROUGH: i32 = -30;

/// Provisional stream registration: the stream was set up, but its content
/// will be supplied later by the filter itself rather than pulled by the
/// engine right away.
pub const DELAYED_STREAM: i32 = -36;

} // verus!
