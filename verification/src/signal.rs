//! Control signals exchanged between the supervisor and its loops.

use vstd::prelude::*;

verus! {

/// A discrete control value exchanged between coordination units.
///
/// Only `Shutdown` and `Acknowledge` are exercised by the current
/// protocol; the remaining variants are reserved extension points.
/// `Sleep` carries its requested duration in milliseconds.
#[derive(Debug, Clone, Copy, PartialEq, Eq, Structural)]
pub enum ThreadMsg {
    Continue,
    Pause,
    Sleep(u64),
    Maintenance,
    Shutdown,
    Acknowledge,
}

} // verus!
