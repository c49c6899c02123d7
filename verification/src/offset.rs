//! The offset itself: whole hours and minutes east or west of UTC.
use vstd::prelude::*;
use crate::error::Error;

verus! {

/// The westernmost hour an offset may have.
pub const MIN_HOURS: i8 = -12;

/// The easternmost hour an offset may have.
pub const MAX_HOURS: i8 = 14;

/// The largest minute part an offset may have.
pub const MAX_MINUTES: i8 = 59;

/// Whether `hours` and `minutes` together name an offset.
pub open spec fn valid_pair(hours: int, minutes: int) -> bool {
    MIN_HOURS <= hours <= MAX_HOURS && 0 <= minutes <= MAX_MINUTES
}

/// A displacement from UTC. The hours carry the sign; the minutes count away
/// from zero in the direction of the hours, so `-9` and `30` is nine and a half
/// hours west. No value of this type is out of range.
#[derive(Debug, Clone, Copy, PartialEq, Eq, Structural)]
pub struct UtcOffset {
    hours: i8,
    minutes: i8,
}

impl UtcOffset {
    /// Holds of every offset that executable code can hold.
    #[verifier::type_invariant]
    pub open spec fn in_range(self) -> bool {
        self.wf()
    }

    /// The hour part, negative west of UTC.
    pub closed spec fn spec_hours(self) -> int {
        self.hours as int
    }

    /// The minute part, never negative.
    pub closed spec fn spec_minutes(self) -> int {
        self.minutes as int
    }

    /// What every offset that executable code can hold satisfies.
    pub open spec fn wf(self) -> bool {
        valid_pair(self.spec_hours(), self.spec_minutes())
    }

    /// Hours and minutes as a pair.
    pub open spec fn parts(self) -> (int, int) {
        (self.spec_hours(), self.spec_minutes())
    }

    /// The whole displacement in minutes, negative west of UTC.
    pub open spec fn total_minutes(self) -> int {
        if self.spec_hours() < 0 {
            self.spec_hours() * 60 - self.spec_minutes()
        } else {
            self.spec_hours() * 60 + self.spec_minutes()
        }
    }

    /// Whether this is the zero offset.
    pub open spec fn spec_is_utc(self) -> bool {
        self.spec_hours() == 0 && self.spec_minutes() == 0
    }

    /// The zero offset.
    pub fn utc() -> (o: Self)
        ensures
            o.wf(),
            o.spec_hours() == 0,
            o.spec_minutes() == 0,
    {
        UtcOffset { hours: 0, minutes: 0 }
    }

    /// The hour part, negative west of UTC.
    pub fn hours(&self) -> (h: i8)
        ensures
            h == self.spec_hours(),
            self.wf(),
    {
        proof {
            use_type_invariant(self);
        }
        self.hours
    }

    /// The minute part.
    pub fn minutes(&self) -> (m: i8)
        ensures
            m == self.spec_minutes(),
            self.wf(),
    {
        proof {
            use_type_invariant(self);
        }
        self.minutes
    }

    /// The whole displacement in minutes.
    pub fn whole_minutes(&self) -> (total: i16)
        ensures
            total == self.total_minutes(),
            self.wf(),
    {
        proof {
            use_type_invariant(self);
        }
        let h: i16 = self.hours as i16;
        let m: i16 = self.minutes as i16;
        if h < 0 {
            h * 60 - m
        } else {
            h * 60 + m
        }
    }

    /// Whether this is the zero offset.
    pub fn is_utc(&self) -> (zero: bool)
        ensures
            zero == self.spec_is_utc(),
            self.wf(),
    {
        proof {
            use_type_invariant(self);
        }
        self.hours == 0 && self.minutes == 0
    }
}

/// What `from_offset_pair` answers: the hours are judged first, then the minutes.
pub open spec fn pair_fault(hours: i8, minutes: i8) -> Option<Error> {
    if hours < MIN_HOURS || hours > MAX_HOURS {
        Some(Error::InvalidOffsetHours(hours))
    } else if minutes < 0 || minutes > MAX_MINUTES {
        Some(Error::InvalidOffsetMinutes(minutes))
    } else {
        None
    }
}

/// Builds the offset of `offset_hours` and `offset_minutes`. Hours outside
/// `-12..=14` are refused with the hours, minutes outside `0..=59` with the
/// minutes.
pub fn from_offset_pair(offset_hours: i8, offset_minutes: i8) -> (res: Result<UtcOffset, Error>)
    ensures
        match res {
            Ok(o) => pair_fault(offset_hours, offset_minutes) is None && o.wf()
                && o.spec_hours() == offset_hours && o.spec_minutes() == offset_minutes,
            Err(e) => pair_fault(offset_hours, offset_minutes) == Some(e),
        },
{
    if offset_hours < MIN_HOURS || offset_hours > MAX_HOURS {
        return Err(Error::InvalidOffsetHours(offset_hours));
    } else if offset_minutes < 0 || offset_minutes > MAX_MINUTES {
        return Err(Error::InvalidOffsetMinutes(offset_minutes));
    }
    Ok(UtcOffset { hours: offset_hours, minutes: offset_minutes })
}

/// An offset is told apart from every other by its hours and minutes.
pub proof fn lemma_offset_by_parts(a: UtcOffset, b: UtcOffset)
    requires
        a.spec_hours() == b.spec_hours(),
        a.spec_minutes() == b.spec_minutes(),
    ensures
        a == b,
{
}

/// The whole displacement in minutes lies between -779 and 899, and no two
/// offsets share it.
pub proof fn lemma_total_minutes(a: UtcOffset, b: UtcOffset)
    requires
        a.wf(),
        b.wf(),
    ensures
        -779 <= a.total_minutes() <= 899,
        a.total_minutes() == b.total_minutes() ==> a == b,
{
}

} // verus!
