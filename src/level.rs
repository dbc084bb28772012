use vstd::prelude::*;

use crate::filter::VerbosityFilter;

verus! {

/// Customize the default log-level and associated help
pub trait LogLevel {
    /// The baseline level that `default_filter` returns.
    spec fn baseline() -> VerbosityFilter;

    /// Baseline level before applying `--verbose` and `--quiet`
    fn default_filter() -> (r: VerbosityFilter)
        ensures
            r == Self::baseline(),
    ;

    /// Short-help message for `--verbose`
    fn verbose_help() -> (r: Option<&'static str>)
        default_ensures
            r == Some("Increase logging verbosity"),
    {
        Some("Increase logging verbosity")
    }

    /// Long-help message for `--verbose`
    fn verbose_long_help() -> (r: Option<&'static str>)
        default_ensures
            r is None,
    {
        None
    }

    /// Short-help message for `--quiet`
    fn quiet_help() -> (r: Option<&'static str>)
        default_ensures
            r == Some("Decrease logging verbosity"),
    {
        Some("Decrease logging verbosity")
    }

    /// Long-help message for `--quiet`
    fn quiet_long_help() -> (r: Option<&'static str>)
        default_ensures
            r is None,
    {
        None
    }
}

/// Default to [`VerbosityFilter::Error`]
#[derive(Copy, Clone, Debug, Default, PartialEq, Eq)]
pub struct ErrorLevel;

impl LogLevel for ErrorLevel {
    open spec fn baseline() -> VerbosityFilter {
        VerbosityFilter::Error
    }

    fn default_filter() -> (r: VerbosityFilter) {
        VerbosityFilter::Error
    }
}

/// Default to [`VerbosityFilter::Warn`]
#[derive(Copy, Clone, Debug, Default, PartialEq, Eq)]
pub struct WarnLevel;

impl LogLevel for WarnLevel {
    open spec fn baseline() -> VerbosityFilter {
        VerbosityFilter::Warn
    }

    fn default_filter() -> (r: VerbosityFilter) {
        VerbosityFilter::Warn
    }
}

/// Default to [`VerbosityFilter::Info`]
#[derive(Copy, Clone, Debug, Default, PartialEq, Eq)]
pub struct InfoLevel;

impl LogLevel for InfoLevel {
    open spec fn baseline() -> VerbosityFilter {
        VerbosityFilter::Info
    }

    fn default_filter() -> (r: VerbosityFilter) {
        VerbosityFilter::Info
    }
}

/// Default to [`VerbosityFilter::Debug`]
#[derive(Copy, Clone, Debug, Default, PartialEq, Eq)]
pub struct DebugLevel;

impl LogLevel for DebugLevel {
    open spec fn baseline() -> VerbosityFilter {
        VerbosityFilter::Debug
    }

    fn default_filter() -> (r: VerbosityFilter) {
        VerbosityFilter::Debug
    }
}

/// Default to [`VerbosityFilter::Trace`]
#[derive(Copy, Clone, Debug, Default, PartialEq, Eq)]
pub struct TraceLevel;

impl LogLevel for TraceLevel {
    open spec fn baseline() -> VerbosityFilter {
        VerbosityFilter::Trace
    }

    fn default_filter() -> (r: VerbosityFilter) {
        VerbosityFilter::Trace
    }
}

/// Default to [`VerbosityFilter::Off`] (no logging)
#[derive(Copy, Clone, Debug, Default, PartialEq, Eq)]
pub struct OffLevel;

impl LogLevel for OffLevel {
    open spec fn baseline() -> VerbosityFilter {
        VerbosityFilter::Off
    }

    fn default_filter() -> (r: VerbosityFilter) {
        VerbosityFilter::Off
    }
}

} // verus!
