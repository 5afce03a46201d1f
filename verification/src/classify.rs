//! The status classifier: from one record's reference timestamps, its
//! entity's timing profile and "now", compute a single lifecycle status.
//!
//! The crop classifier compares three derived deadlines both against `now`
//! and against each other: the order in which the deadlines occur decides
//! what crossing `now` means. Simpler entity families (one deadline) use
//! [`single_deadline_status`].

use vstd::prelude::*;

use crate::catalog::TimingProfile;
use crate::status::Status;

verus! {

/// A bound on the magnitude of any reference timestamp the library accepts
/// (about 36 billion years either side of the epoch), so that adding a
/// profile duration to a timestamp never leaves `i64`.
pub const MAX_TIMESTAMP: i64 = 0x1000_0000_0000_0000;

/// Whether a timestamp is within the range the library accepts.
pub open spec fn spec_timestamp_in_range(t: i64) -> bool {
    -MAX_TIMESTAMP <= t <= MAX_TIMESTAMP
}

/// One persisted instance of a timed entity, already deserialized by the
/// caller. Timestamps are UTC seconds since the Unix epoch; `None` is the
/// explicit "not yet assigned" state, never coerced to the epoch.
#[derive(Clone, Copy, Debug)]
pub struct CropRecord {
    /// Which entity type this record is; keys the catalog, and groups
    /// records of the same type together.
    pub plant_id: u32,
    /// When the crop was planted, if known.
    pub plant_time: Option<i64>,
    /// When the crop was last tended, if known.
    pub last_tending: Option<i64>,
}

impl CropRecord {
    /// Both reference timestamps are present: the record takes part in
    /// deadline arithmetic at all.
    pub open spec fn spec_is_assigned(self) -> bool {
        self.plant_time is Some && self.last_tending is Some
    }

    /// Well-formed: every present timestamp is within range.
    pub open spec fn wf(self) -> bool {
        &&& (self.plant_time matches Some(t) ==> spec_timestamp_in_range(t))
        &&& (self.last_tending matches Some(t) ==> spec_timestamp_in_range(t))
    }

    /// Both reference timestamps are present.
    pub fn is_assigned(&self) -> (r: bool)
        ensures
            r == self.spec_is_assigned(),
    {
        self.plant_time.is_some() && self.last_tending.is_some()
    }
}

/// When decay begins: the last tending plus the decay delay. Meaningful only
/// for an assigned record.
pub open spec fn spec_decay_start(r: CropRecord, p: TimingProfile) -> int
    recommends
        r.spec_is_assigned(),
{
    r.last_tending->0 + p.decay_delay_secs
}

/// When decay becomes irrecoverable: the decay start plus the grace period.
pub open spec fn spec_decay_end(r: CropRecord, p: TimingProfile) -> int
    recommends
        r.spec_is_assigned(),
{
    spec_decay_start(r, p) + p.grace_secs
}

/// When growth completes: the planting time plus the completion duration.
pub open spec fn spec_completion(r: CropRecord, p: TimingProfile) -> int
    recommends
        r.spec_is_assigned(),
{
    r.plant_time->0 + p.completion_secs
}

/// The crop classification rule. An unassigned record gets the dedicated
/// `Unassigned` status; otherwise the three deadlines are compared against
/// `now` and against each other, in this order:
/// 1. decay ends before completion and has already passed: `Dead`;
/// 2. completion has already passed: `Completed`;
/// 3. completion comes before the end of decay: `Good` (decay cannot win);
/// 4. decay has already started: `Wilting`;
/// 5. otherwise nothing has happened yet: `Okay`.
pub open spec fn spec_classify(r: CropRecord, p: TimingProfile, now: int) -> Status {
    if !r.spec_is_assigned() {
        Status::Unassigned
    } else if spec_decay_end(r, p) < spec_completion(r, p) && spec_decay_end(r, p) < now {
        Status::Dead
    } else if spec_completion(r, p) < now {
        Status::Completed
    } else if spec_completion(r, p) < spec_decay_end(r, p) {
        Status::Good
    } else if spec_decay_start(r, p) < now {
        Status::Wilting
    } else {
        Status::Okay
    }
}

/// Classify one crop record against its timing profile at the instant `now`.
///
/// A pure function of its arguments: the same record, profile and `now`
/// always yield the same status.
pub fn crop_status(crop: &CropRecord, profile: &TimingProfile, now: i64) -> (r: Status)
    requires
        crop.wf(),
    ensures
        r == spec_classify(*crop, *profile, now as int),
{
    let (plant_time, last_tending) = match (crop.plant_time, crop.last_tending) {
        (Some(pt), Some(lt)) => (pt, lt),
        _ => {
            return Status::Unassigned;
        },
    };
    let wilt_time: i64 = last_tending + profile.decay_delay_secs as i64;
    let wither_time: i64 = wilt_time + profile.grace_secs as i64;
    let finish_time: i64 = plant_time + profile.completion_secs as i64;
    if wither_time < finish_time && wither_time < now {
        Status::Dead
    } else if finish_time < now {
        Status::Completed
    } else if finish_time < wither_time {
        Status::Good
    } else if wilt_time < now {
        Status::Wilting
    } else {
        Status::Okay
    }
}

/// The single-deadline classification rule for simpler entity families
/// (a task allowance coming off cooldown, a voyage returning): an absent
/// timestamp is `Unassigned`; a deadline at or before `now` is `Completed`;
/// a future deadline is `Okay`.
pub open spec fn spec_single_deadline_status(deadline: Option<i64>, now: int) -> Status {
    match deadline {
        Option::None => Status::Unassigned,
        Option::Some(d) => if d <= now {
            Status::Completed
        } else {
            Status::Okay
        },
    }
}

/// Classify an entity with a single deadline at the instant `now`.
pub fn single_deadline_status(deadline: Option<i64>, now: i64) -> (r: Status)
    ensures
        r == spec_single_deadline_status(deadline, now as int),
{
    match deadline {
        None => Status::Unassigned,
        Some(d) => if d <= now {
            Status::Completed
        } else {
            Status::Okay
        },
    }
}

/// Whether a voyage return timestamp read from persisted data is the "not
/// yet assigned" sentinel: the external tracker stores the epoch itself for
/// a submarine that has never been sent out.
pub open spec fn spec_voyage_deadline(return_time: i64) -> Option<i64> {
    if return_time == 0 {
        Option::None
    } else {
        Option::Some(return_time)
    }
}

/// Classify a voyage by its raw persisted return timestamp: the epoch
/// sentinel means `Unassigned`, a passed return `Completed`, a future one
/// `Okay` — the sentinel is never treated as an elapsed epoch instant.
pub fn voyage_status(return_time: i64, now: i64) -> (r: Status)
    ensures
        r == spec_single_deadline_status(spec_voyage_deadline(return_time), now as int),
{
    if return_time == 0 {
        Status::Unassigned
    } else {
        single_deadline_status(Some(return_time), now)
    }
}

/// Seconds in one week.
pub const WEEK_SECS: i64 = 604800;

/// Whether a task allowance timestamp is recent enough to display: strictly
/// within one week before `now` (or anywhere in the future).
pub open spec fn spec_map_is_current(map_time: i64, now: i64) -> bool {
    map_time > now - WEEK_SECS
}

/// Whether a task allowance timestamp is recent enough to display.
pub fn map_is_current(map_time: i64, now: i64) -> (r: bool)
    requires
        now - WEEK_SECS >= i64::MIN,
    ensures
        r == spec_map_is_current(map_time, now),
{
    map_time > now - WEEK_SECS
}

} // verus!
