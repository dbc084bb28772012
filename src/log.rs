//! Conversions to the level types of the `log` crate.

use vstd::prelude::*;

use crate::filter::VerbosityFilter;
use crate::level::LogLevel;
use crate::verbosity::Verbosity;

verus! {

/// The `log` filter of the same name as `filter`.
pub open spec fn level_filter_of(filter: VerbosityFilter) -> ::log::LevelFilter {
    match filter {
        VerbosityFilter::Off => ::log::LevelFilter::Off,
        VerbosityFilter::Error => ::log::LevelFilter::Error,
        VerbosityFilter::Warn => ::log::LevelFilter::Warn,
        VerbosityFilter::Info => ::log::LevelFilter::Info,
        VerbosityFilter::Debug => ::log::LevelFilter::Debug,
        VerbosityFilter::Trace => ::log::LevelFilter::Trace,
    }
}

/// The `log` level of the same name as `filter`; none for `Off`.
pub open spec fn level_of(filter: VerbosityFilter) -> Option<::log::Level> {
    match filter {
        VerbosityFilter::Off => None,
        VerbosityFilter::Error => Some(::log::Level::Error),
        VerbosityFilter::Warn => Some(::log::Level::Warn),
        VerbosityFilter::Info => Some(::log::Level::Info),
        VerbosityFilter::Debug => Some(::log::Level::Debug),
        VerbosityFilter::Trace => Some(::log::Level::Trace),
    }
}

/// The level of the same name as the `log` filter `level`.
pub open spec fn filter_of_level_filter(level: ::log::LevelFilter) -> VerbosityFilter {
    match level {
        ::log::LevelFilter::Off => VerbosityFilter::Off,
        ::log::LevelFilter::Error => VerbosityFilter::Error,
        ::log::LevelFilter::Warn => VerbosityFilter::Warn,
        ::log::LevelFilter::Info => VerbosityFilter::Info,
        ::log::LevelFilter::Debug => VerbosityFilter::Debug,
        ::log::LevelFilter::Trace => VerbosityFilter::Trace,
    }
}

/// The level of the same name as the `log` level `level`; `Off` for none.
pub open spec fn filter_of_level(level: Option<::log::Level>) -> VerbosityFilter {
    match level {
        None => VerbosityFilter::Off,
        Some(::log::Level::Error) => VerbosityFilter::Error,
        Some(::log::Level::Warn) => VerbosityFilter::Warn,
        Some(::log::Level::Info) => VerbosityFilter::Info,
        Some(::log::Level::Debug) => VerbosityFilter::Debug,
        Some(::log::Level::Trace) => VerbosityFilter::Trace,
    }
}

impl From<VerbosityFilter> for ::log::LevelFilter {
    fn from(filter: VerbosityFilter) -> (r: Self)
        ensures
            r == level_filter_of(filter),
    {
        match filter {
            VerbosityFilter::Off => ::log::LevelFilter::Off,
            VerbosityFilter::Error => ::log::LevelFilter::Error,
            VerbosityFilter::Warn => ::log::LevelFilter::Warn,
            VerbosityFilter::Info => ::log::LevelFilter::Info,
            VerbosityFilter::Debug => ::log::LevelFilter::Debug,
            VerbosityFilter::Trace => ::log::LevelFilter::Trace,
        }
    }
}

impl vstd::std_specs::convert::FromSpecImpl<VerbosityFilter> for ::log::LevelFilter {
    open spec fn obeys_from_spec() -> bool {
        true
    }

    open spec fn from_spec(filter: VerbosityFilter) -> Self {
        level_filter_of(filter)
    }
}

impl From<::log::LevelFilter> for VerbosityFilter {
    fn from(level: ::log::LevelFilter) -> (r: Self)
        ensures
            r == filter_of_level_filter(level),
    {
        match level {
            ::log::LevelFilter::Off => VerbosityFilter::Off,
            ::log::LevelFilter::Error => VerbosityFilter::Error,
            ::log::LevelFilter::Warn => VerbosityFilter::Warn,
            ::log::LevelFilter::Info => VerbosityFilter::Info,
            ::log::LevelFilter::Debug => VerbosityFilter::Debug,
            ::log::LevelFilter::Trace => VerbosityFilter::Trace,
        }
    }
}

impl vstd::std_specs::convert::FromSpecImpl<::log::LevelFilter> for VerbosityFilter {
    open spec fn obeys_from_spec() -> bool {
        true
    }

    open spec fn from_spec(level: ::log::LevelFilter) -> Self {
        filter_of_level_filter(level)
    }
}

impl From<VerbosityFilter> for Option<::log::Level> {
    fn from(filter: VerbosityFilter) -> (r: Self)
        ensures
            r == level_of(filter),
    {
        match filter {
            VerbosityFilter::Off => None,
            VerbosityFilter::Error => Some(::log::Level::Error),
            VerbosityFilter::Warn => Some(::log::Level::Warn),
            VerbosityFilter::Info => Some(::log::Level::Info),
            VerbosityFilter::Debug => Some(::log::Level::Debug),
            VerbosityFilter::Trace => Some(::log::Level::Trace),
        }
    }
}

impl vstd::std_specs::convert::FromSpecImpl<VerbosityFilter> for Option<::log::Level> {
    open spec fn obeys_from_spec() -> bool {
        true
    }

    open spec fn from_spec(filter: VerbosityFilter) -> Self {
        level_of(filter)
    }
}

impl From<Option<::log::Level>> for VerbosityFilter {
    fn from(level: Option<::log::Level>) -> (r: Self)
        ensures
            r == filter_of_level(level),
    {
        match level {
            None => VerbosityFilter::Off,
            Some(::log::Level::Error) => VerbosityFilter::Error,
            Some(::log::Level::Warn) => VerbosityFilter::Warn,
            Some(::log::Level::Info) => VerbosityFilter::Info,
            Some(::log::Level::Debug) => VerbosityFilter::Debug,
            Some(::log::Level::Trace) => VerbosityFilter::Trace,
        }
    }
}

impl vstd::std_specs::convert::FromSpecImpl<Option<::log::Level>> for VerbosityFilter {
    open spec fn obeys_from_spec() -> bool {
        true
    }

    open spec fn from_spec(level: Option<::log::Level>) -> Self {
        filter_of_level(level)
    }
}

impl<L: LogLevel> Verbosity<L> {
    /// Get the log level.
    ///
    /// `None` means all output is disabled.
    pub fn log_level(&self) -> (r: Option<::log::Level>)
        ensures
            r == level_of(self.spec_filter()),
    {
        self.filter().into()
    }

    /// Get the log level filter.
    pub fn log_level_filter(&self) -> (r: ::log::LevelFilter)
        ensures
            r == level_filter_of(self.spec_filter()),
    {
        self.filter().into()
    }
}

/// Converting a level to a `log` filter and back gives the same level, and
/// so does converting it to an optional `log` level and back.
pub proof fn lemma_log_round_trip(filter: VerbosityFilter)
    ensures
        filter_of_level_filter(level_filter_of(filter)) == filter,
        filter_of_level(level_of(filter)) == filter,
{
}

} // verus!
