//! The lifecycle status of a record, its severity order, and the color tag
//! used when a status is displayed.

use vstd::prelude::*;

verus! {

/// One discrete lifecycle state of a timed record.
///
/// `Unassigned` is the dedicated state for a record whose reference timestamp
/// is absent: such a record carries no deadline information at all. The other
/// states are ordered by severity; see [`Status::severity`] for the order.
#[derive(Clone, Copy, Debug, PartialEq, Eq, PartialOrd, Ord, Structural)]
pub enum Status {
    /// No reference timestamp is recorded; nothing can be computed.
    Unassigned,
    /// Nothing has happened yet: no threshold has been crossed.
    Okay,
    /// On track: completion will arrive before decay can become fatal.
    Good,
    /// Decay has begun, but completion is still possible.
    Wilting,
    /// The completion deadline has passed; terminal.
    Completed,
    /// Decay outran completion; terminal.
    Dead,
}

/// The severity rank of a status: `Unassigned < Okay < Good < Wilting <
/// Completed < Dead`. The "worst" status of a group is the one of maximal
/// rank.
pub open spec fn spec_severity(s: Status) -> int {
    match s {
        Status::Unassigned => 0,
        Status::Okay => 1,
        Status::Good => 2,
        Status::Wilting => 3,
        Status::Completed => 4,
        Status::Dead => 5,
    }
}

/// The more severe of two statuses; `b` wins only when strictly worse, which
/// for an enum without payload is the same status either way.
pub open spec fn spec_worse(a: Status, b: Status) -> Status {
    if spec_severity(b) > spec_severity(a) {
        b
    } else {
        a
    }
}

/// A terminal status admits no further transition within a run, so no
/// upcoming deadline is meaningful for it.
pub open spec fn spec_is_terminal(s: Status) -> bool {
    s == Status::Completed || s == Status::Dead
}

impl Status {
    /// The explicit severity rank of this status, low to high.
    pub fn severity(self) -> (r: u8)
        ensures
            r as int == spec_severity(self),
    {
        match self {
            Status::Unassigned => 0,
            Status::Okay => 1,
            Status::Good => 2,
            Status::Wilting => 3,
            Status::Completed => 4,
            Status::Dead => 5,
        }
    }

    /// The more severe of `self` and `other`.
    pub fn worse(self, other: Status) -> (r: Status)
        ensures
            r == spec_worse(self, other),
    {
        if other.severity() > self.severity() {
            other
        } else {
            self
        }
    }

    /// Whether this status is terminal (`Completed` or `Dead`).
    pub fn is_terminal(self) -> (r: bool)
        ensures
            r == spec_is_terminal(self),
    {
        match self {
            Status::Completed => true,
            Status::Dead => true,
            _ => false,
        }
    }

    /// The color tag a display layer should use for this status. Total over
    /// all statuses, and a function of the status alone.
    pub fn color(self) -> (r: ColorTag)
        ensures
            r == spec_color(self),
    {
        match self {
            Status::Unassigned => ColorTag::Magenta,
            Status::Okay => ColorTag::Yellow,
            Status::Good => ColorTag::Cyan,
            Status::Wilting => ColorTag::Magenta,
            Status::Completed => ColorTag::Green,
            Status::Dead => ColorTag::Red,
        }
    }
}

/// An abstract terminal color. The library never touches a terminal; callers
/// map these tags to whatever styling mechanism they own.
#[derive(Clone, Copy, Debug, PartialEq, Eq, Structural)]
pub enum ColorTag {
    /// Headings and neutral text.
    White,
    /// `Good`: safely on track.
    Cyan,
    /// `Okay`: nothing started yet.
    Yellow,
    /// `Wilting` and `Unassigned`.
    Magenta,
    /// `Completed`: ready for the player.
    Green,
    /// `Dead`, and error diagnostics.
    Red,
}

/// The fixed status-to-color mapping used by [`Status::color`].
pub open spec fn spec_color(s: Status) -> ColorTag {
    match s {
        Status::Unassigned => ColorTag::Magenta,
        Status::Okay => ColorTag::Yellow,
        Status::Good => ColorTag::Cyan,
        Status::Wilting => ColorTag::Magenta,
        Status::Completed => ColorTag::Green,
        Status::Dead => ColorTag::Red,
    }
}

} // verus!
