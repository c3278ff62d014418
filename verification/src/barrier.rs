//! The one-time-execution barrier, an externally supplied synchronization
//! facility: `parking_lot::Once`.

use vstd::prelude::*;

verus! {

/// `parking_lot::Once` is the barrier that arbitrates racing callers: the
/// guarded action runs at most once across the barrier's lifetime, and
/// every caller returns only after that one execution has completed. A
/// panicking action poisons it, failing every later caller; a reentrant
/// call parks the caller forever, an undiagnosed hang.
#[verifier::external_type_specification]
#[verifier::external_body]
pub struct ExOnce(parking_lot::Once);

/// Relies on `parking_lot::Once::new`: builds a barrier whose action has
/// not yet run.
pub assume_specification[ parking_lot::Once::new ]() -> parking_lot::Once;

} // verus!
