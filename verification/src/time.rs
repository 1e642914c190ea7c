use vstd::prelude::*;

verus! {

/// A point on the media timeline: the rational `value / scale` seconds.
#[derive(Clone, Copy, Debug, PartialEq, Eq, Structural)]
pub struct Time {
    /// Numerator, in ticks.
    pub value: i64,
    /// Ticks per second.
    pub scale: i32,
}

impl Time {
    /// The origin of the timeline, zero ticks at one tick per second.
    pub open spec fn origin() -> Time {
        Time { value: 0, scale: 1 }
    }

    /// The time `value / scale`.
    pub fn new(value: i64, scale: i32) -> (t: Time)
        ensures
            t == (Time { value, scale }),
    {
        Time { value, scale }
    }

    /// The zero time, used where a session has no timestamp of its own.
    pub fn zero() -> (t: Time)
        ensures
            t == Time::origin(),
    {
        Time { value: 0, scale: 1 }
    }
}

/// The time range that encloses an encoded session.
#[derive(Clone, Copy, Debug, PartialEq, Eq, Structural)]
pub struct Bracket {
    pub start: Time,
    pub end: Time,
}

} // verus!
