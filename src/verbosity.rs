use vstd::prelude::*;

use crate::filter::VerbosityFilter;
use crate::level::{ErrorLevel, LogLevel};

verus! {

/// The level reached from `baseline` after `verbose` `--verbose` flags and
/// `quiet` `--quiet` flags: the baseline moved by their difference, clamped
/// to the scale.
pub open spec fn resolve(baseline: VerbosityFilter, verbose: int, quiet: int) -> VerbosityFilter {
    baseline.offset_by(verbose - quiet)
}

/// Logging flags: how often `--verbose` and `--quiet` were given, over the
/// baseline level that `L` supplies.
#[derive(Debug, PartialEq, Eq)]
pub struct Verbosity<L: LogLevel = ErrorLevel> {
    verbose: u8,
    quiet: u8,
    phantom: std::marker::PhantomData<L>,
}

impl<L: LogLevel> Verbosity<L> {
    /// Number of `--verbose` flags.
    pub closed spec fn verbose_count(self) -> u8 {
        self.verbose
    }

    /// Number of `--quiet` flags.
    pub closed spec fn quiet_count(self) -> u8 {
        self.quiet
    }

    /// The effective level of these flags.
    pub open spec fn spec_filter(self) -> VerbosityFilter {
        resolve(L::baseline(), self.verbose_count() as int, self.quiet_count() as int)
    }

    /// Create a new verbosity instance by explicitly setting the values
    pub fn new(verbose: u8, quiet: u8) -> (r: Self)
        ensures
            r.verbose_count() == verbose,
            r.quiet_count() == quiet,
    {
        Verbosity { verbose, quiet, phantom: std::marker::PhantomData }
    }

    /// Whether any verbosity flags (either `--verbose` or `--quiet`)
    /// are present on the command line.
    pub fn is_present(&self) -> (r: bool)
        ensures
            r == (self.verbose_count() != 0 || self.quiet_count() != 0),
    {
        self.verbose != 0 || self.quiet != 0
    }

    /// If the user requested complete silence (i.e. not just no-logging).
    pub fn is_silent(&self) -> (r: bool)
        ensures
            r == (self.spec_filter() == VerbosityFilter::Off),
    {
        self.filter() == VerbosityFilter::Off
    }

    /// Gets the filter that should be applied to the logger.
    pub fn filter(&self) -> (r: VerbosityFilter)
        ensures
            r == self.spec_filter(),
    {
        let offset: i16 = self.verbose as i16 - self.quiet as i16;
        L::default_filter().with_offset(offset)
    }

    /// Number of `--verbose` flags given.
    pub fn verbose(&self) -> (r: u8)
        ensures
            r == self.verbose_count(),
    {
        self.verbose
    }

    /// Number of `--quiet` flags given.
    pub fn quiet(&self) -> (r: u8)
        ensures
            r == self.quiet_count(),
    {
        self.quiet
    }

    /// Lowercase name of the effective level.
    pub fn as_str(&self) -> (r: &'static str)
        ensures
            r@ == self.spec_filter().name(),
    {
        self.filter().as_str()
    }
}

impl<L: LogLevel> Clone for Verbosity<L> {
    fn clone(&self) -> (r: Self)
        ensures
            r == *self,
    {
        Verbosity { verbose: self.verbose, quiet: self.quiet, phantom: std::marker::PhantomData }
    }
}

impl<L: LogLevel> Copy for Verbosity<L> {
}

impl<L: LogLevel> Default for Verbosity<L> {
    /// No flags given: the effective level is the baseline.
    fn default() -> (r: Self)
        ensures
            r.verbose_count() == 0,
            r.quiet_count() == 0,
    {
        Verbosity::new(0, 0)
    }
}

impl<L: LogLevel> From<Verbosity<L>> for VerbosityFilter {
    fn from(verbosity: Verbosity<L>) -> (r: Self)
        ensures
            r == verbosity.spec_filter(),
    {
        verbosity.filter()
    }
}

impl<L: LogLevel> vstd::std_specs::convert::FromSpecImpl<Verbosity<L>> for VerbosityFilter {
    open spec fn obeys_from_spec() -> bool {
        true
    }

    open spec fn from_spec(verbosity: Verbosity<L>) -> Self {
        verbosity.spec_filter()
    }
}

impl<L: LogLevel> From<VerbosityFilter> for Verbosity<L> {
    /// The flags that lead from the baseline to `filter`: only `--verbose`
    /// flags when it lies above the baseline, only `--quiet` flags when below.
    fn from(filter: VerbosityFilter) -> (r: Self)
        ensures
            r.spec_filter() == filter,
            r.verbose_count() == flags_between(L::baseline(), filter).0,
            r.quiet_count() == flags_between(L::baseline(), filter).1,
    {
        let default = L::default_filter();
        let verbose = filter.value().saturating_sub(default.value());
        let quiet = default.value().saturating_sub(filter.value());
        Verbosity::new(verbose, quiet)
    }
}

impl<L: LogLevel> vstd::std_specs::convert::FromSpecImpl<VerbosityFilter> for Verbosity<L> {
    open spec fn obeys_from_spec() -> bool {
        true
    }

    closed spec fn from_spec(filter: VerbosityFilter) -> Self {
        let (verbose, quiet) = flags_between(L::baseline(), filter);
        Verbosity { verbose, quiet, phantom: std::marker::PhantomData }
    }
}

/// The fewest `--verbose` and `--quiet` flags that lead from `baseline` to
/// `target`: the distance between their ranks, on one side only.
pub open spec fn flags_between(baseline: VerbosityFilter, target: VerbosityFilter) -> (u8, u8) {
    if target.rank() >= baseline.rank() {
        ((target.rank() - baseline.rank()) as u8, 0u8)
    } else {
        (0u8, (baseline.rank() - target.rank()) as u8)
    }
}

/// More `--verbose` flags never lower the effective level, and more
/// `--quiet` flags never raise it.
pub proof fn lemma_resolve_monotonic(baseline: VerbosityFilter, verbose: nat, quiet: nat, more: nat)
    ensures
        resolve(baseline, verbose as int, quiet as int).rank() <= resolve(
            baseline,
            (verbose + more) as int,
            quiet as int,
        ).rank(),
        resolve(baseline, verbose as int, (quiet + more) as int).rank() <= resolve(
            baseline,
            verbose as int,
            quiet as int,
        ).rank(),
{
}

/// From the `Trace` baseline with no `--quiet` flag, any number of
/// `--verbose` flags stays at `Trace`.
pub proof fn lemma_saturates_at_top(verbose: nat)
    ensures
        resolve(VerbosityFilter::Trace, verbose as int, 0) == VerbosityFilter::Trace,
{
}

/// From the `Off` baseline with no `--verbose` flag, any number of `--quiet`
/// flags stays at `Off`.
pub proof fn lemma_saturates_at_bottom(quiet: nat)
    ensures
        resolve(VerbosityFilter::Off, 0, quiet as int) == VerbosityFilter::Off,
{
}

/// As many `--verbose` as `--quiet` flags give back the baseline.
pub proof fn lemma_flags_cancel(baseline: VerbosityFilter, count: nat)
    ensures
        resolve(baseline, count as int, count as int) == baseline,
{
}

} // verus!
