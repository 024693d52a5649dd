//! The switch between tracing and not tracing.
//!
//! `ENABLED` is a constant of the call site, fixed when the program is
//! built: a call site with `ENABLED` false compiles to nothing. Such a call
//! site must not even build its payload, which may be costly or have effects
//! of its own. So the payload comes as a function, and these entry points ask
//! that it can be called only where `ENABLED` is true: when it is false they
//! are not entitled to call it.

use crate::helpers::{do_write, is_traced};
use crate::sink::{Emission, WriteTarget};
use vstd::prelude::*;

verus! {

/// Traces the payload that `payload` builds, if tracing is enabled.
pub fn packet_trace<const ENABLED: bool, W, F: FnOnce() -> Vec<u8>>(
    target: &WriteTarget<W>,
    location: &str,
    payload: F,
) -> (out: Option<Emission>)
    requires
        ENABLED ==> payload.requires(()),
    ensures
        !ENABLED ==> out is None,
        ENABLED ==> exists|bytes: Vec<u8>|
            payload.ensures((), bytes) && #[trigger] is_traced(out, *target, location@, bytes@),
{
    if ENABLED {
        let bytes = payload();
        let out = Some(do_write(target, location, bytes.as_slice()));
        assert(is_traced(out, *target, location@, bytes@));
        out
    } else {
        None
    }
}

/// Traces the payload that `payload` builds, if tracing is enabled and
/// `payload` builds one.
pub fn packet_trace_maybe<const ENABLED: bool, W, F: FnOnce() -> Option<Vec<u8>>>(
    target: &WriteTarget<W>,
    location: &str,
    payload: F,
) -> (out: Option<Emission>)
    requires
        ENABLED ==> payload.requires(()),
    ensures
        !ENABLED ==> out is None,
        ENABLED ==> exists|built: Option<Vec<u8>>| #[trigger]
            payload.ensures((), built) && match built {
                None => out is None,
                Some(bytes) => is_traced(out, *target, location@, bytes@),
            },
{
    if ENABLED {
        match payload() {
            Some(bytes) => Some(do_write(target, location, bytes.as_slice())),
            None => None,
        }
    } else {
        None
    }
}

} // verus!
