use vstd::prelude::*;

verus! {

/// A representation of the log level filter.
///
/// The six levels are totally ordered, from the least verbose (`Off`) to the
/// most verbose (`Trace`).
#[derive(Debug, Clone, Copy, PartialEq, Eq, Structural)]
pub enum VerbosityFilter {
    Off,
    Error,
    Warn,
    Info,
    Debug,
    Trace,
}

impl VerbosityFilter {
    /// Position of the level on the scale: `Off` is 0, `Trace` is 5.
    pub open spec fn rank(self) -> int {
        match self {
            VerbosityFilter::Off => 0,
            VerbosityFilter::Error => 1,
            VerbosityFilter::Warn => 2,
            VerbosityFilter::Info => 3,
            VerbosityFilter::Debug => 4,
            VerbosityFilter::Trace => 5,
        }
    }

    /// The level at rank `n`, saturating: at or below 0 it is `Off`, at or
    /// above 5 it is `Trace`.
    pub open spec fn from_rank(n: int) -> VerbosityFilter {
        if n <= 0 {
            VerbosityFilter::Off
        } else if n == 1 {
            VerbosityFilter::Error
        } else if n == 2 {
            VerbosityFilter::Warn
        } else if n == 3 {
            VerbosityFilter::Info
        } else if n == 4 {
            VerbosityFilter::Debug
        } else {
            VerbosityFilter::Trace
        }
    }

    /// The level reached by moving `offset` steps up the scale (down when
    /// negative), clamped to its ends.
    pub open spec fn offset_by(self, offset: int) -> VerbosityFilter {
        VerbosityFilter::from_rank(self.rank() + offset)
    }

    /// Lowercase name of the level.
    pub open spec fn name(self) -> Seq<char> {
        match self {
            VerbosityFilter::Off => "off"@,
            VerbosityFilter::Error => "error"@,
            VerbosityFilter::Warn => "warn"@,
            VerbosityFilter::Info => "info"@,
            VerbosityFilter::Debug => "debug"@,
            VerbosityFilter::Trace => "trace"@,
        }
    }

    /// Apply an offset to the filter level.
    ///
    /// Negative values will decrease the verbosity, while positive values will increase it.
    pub fn with_offset(&self, offset: i16) -> (r: VerbosityFilter)
        ensures
            r == self.offset_by(offset as int),
    {
        let n: i32 = self.value() as i32 + offset as i32;
        if n <= 0 {
            VerbosityFilter::Off
        } else if n == 1 {
            VerbosityFilter::Error
        } else if n == 2 {
            VerbosityFilter::Warn
        } else if n == 3 {
            VerbosityFilter::Info
        } else if n == 4 {
            VerbosityFilter::Debug
        } else {
            VerbosityFilter::Trace
        }
    }

    /// Get the numeric value of the filter: its rank on the scale.
    pub fn value(&self) -> (r: u8)
        ensures
            r as int == self.rank(),
    {
        match self {
            VerbosityFilter::Off => 0,
            VerbosityFilter::Error => 1,
            VerbosityFilter::Warn => 2,
            VerbosityFilter::Info => 3,
            VerbosityFilter::Debug => 4,
            VerbosityFilter::Trace => 5,
        }
    }

    /// Lowercase name of the level: `off`, `error`, `warn`, `info`, `debug`
    /// or `trace`.
    pub fn as_str(&self) -> (r: &'static str)
        ensures
            r@ == self.name(),
    {
        match self {
            VerbosityFilter::Off => "off",
            VerbosityFilter::Error => "error",
            VerbosityFilter::Warn => "warn",
            VerbosityFilter::Info => "info",
            VerbosityFilter::Debug => "debug",
            VerbosityFilter::Trace => "trace",
        }
    }
}

/// Reading a level's rank back gives the same level.
pub proof fn lemma_rank_round_trip(level: VerbosityFilter)
    ensures
        VerbosityFilter::from_rank(level.rank()) == level,
        0 <= level.rank() <= 5,
{
}

} // verus!
