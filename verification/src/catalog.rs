//! The entity catalog: fixed timing parameters and display names per entity
//! type. Every lookup is total — an unknown identifier degrades to a zeroed
//! profile or a placeholder name, never to an error.

use vstd::prelude::*;

verus! {

/// Seconds in one hour.
pub const HOUR_SECS: u32 = 3600;

/// Seconds in one day.
pub const DAY_SECS: u32 = 86400;

/// The fixed timing parameters of one entity type, all in whole seconds.
///
/// From a record's reference timestamps, three deadlines follow:
/// completion at `planted + completion_secs`, decay start at
/// `last_tended + decay_delay_secs`, and irrecoverable decay at
/// `last_tended + decay_delay_secs + grace_secs`.
#[derive(Clone, Copy, Debug, PartialEq, Eq, Structural)]
pub struct TimingProfile {
    /// How long the entity takes to complete, from its planting timestamp.
    pub completion_secs: u32,
    /// How long after the last tending decay begins.
    pub decay_delay_secs: u32,
    /// How long decay may last before it becomes irrecoverable.
    pub grace_secs: u32,
}

/// Whether a crop identifier is in the catalog.
pub open spec fn spec_is_known_crop(id: u32) -> bool {
    id == 4842 || id == 6146 || id == 7604 || id == 7895 || id == 8165 || id == 12896
}

/// The display name of a crop, as a character sequence.
pub open spec fn spec_crop_name(id: u32) -> Seq<char> {
    if id == 4842 {
        "Almond"@
    } else if id == 6146 {
        "Mirror Apple"@
    } else if id == 7604 {
        "Royal Kukuru"@
    } else if id == 7895 {
        "Sylkis Bud"@
    } else if id == 8165 {
        "Krakka Root"@
    } else if id == 12896 {
        "Old World Fig"@
    } else {
        "(Unknown Crop)"@
    }
}

/// The display name of a crop; a placeholder for unknown identifiers.
pub fn crop_name(id: u32) -> (r: &'static str)
    ensures
        r@ == spec_crop_name(id),
{
    match id {
        4842 => "Almond",
        6146 => "Mirror Apple",
        7604 => "Royal Kukuru",
        7895 => "Sylkis Bud",
        8165 => "Krakka Root",
        12896 => "Old World Fig",
        _ => "(Unknown Crop)",
    }
}

/// How long a crop takes to grow to completion, in seconds
/// (five days for most crops, six for Royal Kukuru, three for Krakka Root).
pub open spec fn spec_crop_grow_secs(id: u32) -> u32 {
    if id == 4842 {
        432000
    } else if id == 6146 {
        432000
    } else if id == 7604 {
        518400
    } else if id == 7895 {
        432000
    } else if id == 8165 {
        259200
    } else if id == 12896 {
        432000
    } else {
        0
    }
}

/// How long a crop takes to grow to completion, in seconds; zero for unknown
/// identifiers.
pub fn crop_grow_time(id: u32) -> (r: u32)
    ensures
        r == spec_crop_grow_secs(id),
{
    match id {
        4842 => 5 * DAY_SECS,
        6146 => 5 * DAY_SECS,
        7604 => 6 * DAY_SECS,
        7895 => 5 * DAY_SECS,
        8165 => 3 * DAY_SECS,
        12896 => 5 * DAY_SECS,
        _ => 0,
    }
}

/// How long after the last tending a crop begins to wilt, in seconds
/// (forty-eight hours for most crops, thirty-six for Royal Kukuru,
/// twenty-four for Krakka Root).
pub open spec fn spec_crop_wilt_secs(id: u32) -> u32 {
    if id == 4842 {
        172800
    } else if id == 6146 {
        172800
    } else if id == 7604 {
        129600
    } else if id == 7895 {
        172800
    } else if id == 8165 {
        86400
    } else if id == 12896 {
        172800
    } else {
        0
    }
}

/// How long after the last tending a crop begins to wilt, in seconds; zero
/// for unknown identifiers.
pub fn crop_wilt_time(id: u32) -> (r: u32)
    ensures
        r == spec_crop_wilt_secs(id),
{
    match id {
        4842 => 48 * HOUR_SECS,
        6146 => 48 * HOUR_SECS,
        7604 => 36 * HOUR_SECS,
        7895 => 48 * HOUR_SECS,
        8165 => 24 * HOUR_SECS,
        12896 => 48 * HOUR_SECS,
        _ => 0,
    }
}

/// How long after the last tending a wilted crop withers for good: one day
/// past the start of wilting, for any identifier.
pub fn crop_wither_time(id: u32) -> (r: u32)
    ensures
        r == spec_crop_wilt_secs(id) + DAY_SECS,
{
    crop_wilt_time(id) + DAY_SECS
}

/// The timing profile of a crop: all-zero durations for unknown identifiers,
/// so that unrecognized entity types stay inert instead of failing.
pub open spec fn spec_profile_for(id: u32) -> TimingProfile {
    TimingProfile {
        completion_secs: spec_crop_grow_secs(id),
        decay_delay_secs: spec_crop_wilt_secs(id),
        grace_secs: if spec_is_known_crop(id) {
            DAY_SECS
        } else {
            0
        },
    }
}

/// The timing profile for a crop identifier. Total: unknown identifiers get
/// a profile of all-zero durations (and a placeholder [`crop_name`]).
pub fn profile_for(id: u32) -> (p: TimingProfile)
    ensures
        p == spec_profile_for(id),
{
    let known = match id {
        4842 | 6146 | 7604 | 7895 | 8165 | 12896 => true,
        _ => false,
    };
    TimingProfile {
        completion_secs: crop_grow_time(id),
        decay_delay_secs: crop_wilt_time(id),
        grace_secs: if known {
            DAY_SECS
        } else {
            0
        },
    }
}

/// The display name of a game world, as a character sequence.
pub open spec fn spec_worldname(id: u32) -> Seq<char> {
    if id == 72 {
        "Tonberry"@
    } else if id == 91 {
        "Balmung"@
    } else {
        "<Unknown>"@
    }
}

/// The display name of a game world; a placeholder for unknown identifiers.
pub fn worldname(id: u32) -> (r: &'static str)
    ensures
        r@ == spec_worldname(id),
{
    match id {
        72 => "Tonberry",
        91 => "Balmung",
        _ => "<Unknown>",
    }
}

/// The display name of a game server, as a character sequence.
pub open spec fn spec_server_name(id: i32) -> Seq<char> {
    if id == 72 {
        "Tonberry"@
    } else if id == 91 {
        "Balmung"@
    } else {
        "(Unknown Server)"@
    }
}

/// The display name of a game server; a placeholder for unknown identifiers.
pub fn server_name(id: i32) -> (r: &'static str)
    ensures
        r@ == spec_server_name(id),
{
    match id {
        72 => "Tonberry",
        91 => "Balmung",
        _ => "(Unknown Server)",
    }
}

} // verus!
