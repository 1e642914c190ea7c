use vstd::prelude::*;
use crate::time::{Bracket, Time};

verus! {

/// The open or closed state of an encoded session and the timestamps that
/// bracket it.
#[derive(Clone, Copy, Debug, PartialEq, Eq, Structural)]
pub struct Session {
    /// Whether the session has been started.
    pub started: bool,
    /// The timestamp at which the session started.
    pub first_timestamp: Option<Time>,
    /// The timestamp of the last frame handed to the sink.
    pub last_timestamp: Option<Time>,
}

impl Session {
    /// The session before any frame was seen.
    pub open spec fn idle() -> Session {
        Session { started: false, first_timestamp: None, last_timestamp: None }
    }

    /// A session is started exactly when it has a first timestamp, and only a
    /// started session has a last one.
    pub open spec fn wf(self) -> bool {
        &&& self.started <==> self.first_timestamp is Some
        &&& self.last_timestamp is Some ==> self.started
    }

    /// The session once a frame stamped `at` asked for it: a session that has
    /// not started starts at `at`, a started one stays as it is.
    pub open spec fn start_at(self, at: Time) -> Session {
        if self.started {
            self
        } else {
            Session { started: true, first_timestamp: Some(at), last_timestamp: self.last_timestamp }
        }
    }

    /// The session once a frame stamped `at` was handed to the sink: the frame
    /// becomes the last one of a started session. A session that has not
    /// started takes no frames.
    pub open spec fn forward_at(self, at: Time) -> Session {
        if self.started {
            Session {
                started: true,
                first_timestamp: self.first_timestamp,
                last_timestamp: Some(at),
            }
        } else {
            self
        }
    }

    /// Where the session starts: its first timestamp, or the origin if it
    /// never started.
    pub open spec fn start_bound(self) -> Time {
        match self.first_timestamp {
            Some(t) => t,
            None => Time::origin(),
        }
    }

    /// Where the session ends: the timestamp of the last frame handed to the
    /// sink, or the origin if there was none.
    pub open spec fn end_bound(self) -> Time {
        match self.last_timestamp {
            Some(t) => t,
            None => Time::origin(),
        }
    }

    /// The range from `start_bound` to `end_bound`.
    pub open spec fn bracket(self) -> Bracket {
        Bracket { start: self.start_bound(), end: self.end_bound() }
    }

    /// A session that has not started.
    pub fn new() -> (s: Session)
        ensures
            s == Session::idle(),
            s.wf(),
    {
        Session { started: false, first_timestamp: None, last_timestamp: None }
    }

    /// Starts the session at `at` unless it has started already.
    pub fn start(&mut self, at: Time)
        ensures
            *final(self) == old(self).start_at(at),
            old(self).wf() ==> final(self).wf(),
            old(self).started ==> *final(self) == *old(self),
            final(self).started,
    {
        if !self.started {
            self.started = true;
            self.first_timestamp = Some(at);
        }
    }

    /// Records that a frame stamped `at` was handed to the sink.
    pub fn forward(&mut self, at: Time)
        ensures
            *final(self) == old(self).forward_at(at),
            old(self).wf() ==> final(self).wf(),
            old(self).started ==> final(self).last_timestamp == Some(at),
            !old(self).started ==> *final(self) == *old(self),
    {
        if self.started {
            self.last_timestamp = Some(at);
        }
    }

    /// The time range that encloses the session.
    pub fn bounds(&self) -> (b: Bracket)
        ensures
            b == self.bracket(),
    {
        let start = match self.first_timestamp {
            Some(t) => t,
            None => Time::zero(),
        };
        let end = match self.last_timestamp {
            Some(t) => t,
            None => Time::zero(),
        };
        Bracket { start, end }
    }
}

} // verus!
