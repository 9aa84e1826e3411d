use vstd::prelude::*;

use crate::payload::OpaquePayload;
use crate::rational::Rational64;

verus! {

/// Timestamp information for frames and packets.
///
/// A pure value container: every field may be absent, meaning unknown or
/// not applicable. The timebase, when present, is the one computed at
/// stream level; it does not vary among records of one stream, but this
/// model does not enforce that — the producer assigning timestamps does.
#[derive(Debug)]
pub struct TimeInfo {
    /// Presentation timestamp, in timebase ticks.
    pub pts: Option<i64>,
    /// Decode timestamp, in timebase ticks; may precede the presentation
    /// timestamp for reordered streams.
    pub dts: Option<i64>,
    /// Duration, in timebase ticks.
    pub duration: Option<u64>,
    /// Tick unit, copied from the owning stream.
    pub timebase: Option<Rational64>,
    /// Caller-defined auxiliary data; never serialized, never inspected.
    pub user_private: Option<OpaquePayload>,
}

impl TimeInfo {
    /// True when every field of the record is absent.
    pub open spec fn all_absent(self) -> bool {
        &&& self.pts is None
        &&& self.dts is None
        &&& self.duration is None
        &&& self.timebase is None
        &&& self.user_private is None
    }

    /// The fields of `self` and `other` agree, the opaque payload left aside.
    pub open spec fn eq_non_opaque(self, other: TimeInfo) -> bool {
        &&& self.pts == other.pts
        &&& self.dts == other.dts
        &&& self.duration == other.duration
        &&& self.timebase == other.timebase
    }
}

impl Default for TimeInfo {
    /// A fully unknown record: every field absent. This is the required
    /// baseline for producers that have not yet determined timing.
    fn default() -> (r: Self)
        ensures
            r.all_absent(),
    {
        TimeInfo { pts: None, dts: None, duration: None, timebase: None, user_private: None }
    }
}

impl Clone for TimeInfo {
    /// Copies every field; the opaque payload is duplicated as a shared
    /// handle, not as a deep copy of the data behind it.
    fn clone(&self) -> (r: Self)
        ensures
            r == *self,
    {
        TimeInfo {
            pts: self.pts,
            dts: self.dts,
            duration: self.duration,
            timebase: self.timebase,
            user_private: match &self.user_private {
                Option::Some(p) => Option::Some(p.clone()),
                Option::None => Option::None,
            },
        }
    }
}

} // verus!
