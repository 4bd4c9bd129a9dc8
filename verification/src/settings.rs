//! Timeout and gathering settings for a query.

use vstd::prelude::*;
use crate::errors::{GDError, GDResult};

verus! {

/// A span of time, held as whole seconds plus a sub-second nanosecond part.
///
/// The engine only decides whether a timeout is zero and hands the two plain
/// fields to whatever socket layer a caller runs; it never does time
/// arithmetic itself.
#[derive(Debug, Clone, Copy, PartialEq, Eq, Structural)]
pub struct Duration {
    pub secs: u64,
    pub nanos: u32,
}

impl Duration {
    /// True when the span is zero on both axes.
    pub open spec fn spec_is_zero(self) -> bool {
        self.secs == 0 && self.nanos == 0
    }

    /// Build a span from seconds and nanoseconds.
    pub fn new(secs: u64, nanos: u32) -> (r: Duration)
        ensures
            r.secs == secs,
            r.nanos == nanos,
    {
        Duration { secs, nanos }
    }

    /// Build a span of whole seconds.
    pub fn from_secs(secs: u64) -> (r: Duration)
        ensures
            r.secs == secs,
            r.nanos == 0,
    {
        Duration { secs, nanos: 0 }
    }

    /// True when the span is zero on both axes.
    pub fn is_zero(&self) -> (r: bool)
        ensures
            r == self.spec_is_zero(),
    {
        self.secs == 0 && self.nanos == 0
    }
}

/// Timeout settings for socket operations.
#[derive(Debug, Clone)]
pub struct TimeoutSettings {
    read: Option<Duration>,
    write: Option<Duration>,
}

impl TimeoutSettings {
    /// The read timeout, as contracts see it.
    pub closed spec fn spec_read(&self) -> Option<Duration> {
        self.read
    }

    /// The write timeout, as contracts see it.
    pub closed spec fn spec_write(&self) -> Option<Duration> {
        self.write
    }

    /// Construct new settings; passing `None` on an axis means blocking
    /// indefinitely there. A zero duration on either axis is rejected with
    /// `GDError::InvalidInput`.
    pub fn new(read: Option<Duration>, write: Option<Duration>) -> (r: GDResult<Self>)
        ensures
            match r {
                Ok(s) => {
                    &&& s.spec_read() == read
                    &&& s.spec_write() == write
                    &&& (read matches Some(d) ==> !d.spec_is_zero())
                    &&& (write matches Some(d) ==> !d.spec_is_zero())
                },
                Err(e) => {
                    &&& e is InvalidInput
                    &&& ((read matches Some(d) && d.spec_is_zero())
                        || (write matches Some(d) && d.spec_is_zero()))
                },
            },
    {
        if let Some(read_duration) = read {
            if read_duration.is_zero() {
                return Err(GDError::InvalidInput(
                    "Can't pass duration 0 to timeout settings.".to_string(),
                ));
            }
        }

        if let Some(write_duration) = write {
            if write_duration.is_zero() {
                return Err(GDError::InvalidInput(
                    "Can't pass duration 0 to timeout settings.".to_string(),
                ));
            }
        }

        Ok(Self { read, write })
    }

    /// Get the read timeout.
    pub fn get_read(&self) -> (r: Option<Duration>)
        ensures
            r == self.spec_read(),
    {
        self.read
    }

    /// Get the write timeout.
    pub fn get_write(&self) -> (r: Option<Duration>)
        ensures
            r == self.spec_write(),
    {
        self.write
    }
}

impl Default for TimeoutSettings {
    /// Default values are 4 seconds for both read and write: finite and
    /// non-zero on both axes.
    fn default() -> (r: Self)
        ensures
            r.spec_read() matches Some(d) && d.secs == 4 && d.nanos == 0,
            r.spec_write() matches Some(d) && d.secs == 4 && d.nanos == 0,
    {
        Self {
            read: Some(Duration { secs: 4, nanos: 0 }),
            write: Some(Duration { secs: 4, nanos: 0 }),
        }
    }
}

/// Which optional response bodies a query gathers besides the server info.
#[derive(Debug, Clone, Copy, PartialEq, Eq, Structural)]
pub struct GatheringSettings {
    pub players: bool,
    pub rules: bool,
}

impl Default for GatheringSettings {
    /// By default both players and rules are gathered.
    fn default() -> (r: Self)
        ensures
            r.players,
            r.rules,
    {
        Self { players: true, rules: true }
    }
}

} // verus!
