use clap_verbosity_flag::{
    DebugLevel, ErrorLevel, InfoLevel, LogLevel, OffLevel, TraceLevel, Verbosity,
    VerbosityFilter, WarnLevel,
};

/// Asserts that the filter is correct for the given verbosity and quiet values.
fn assert_filter<L: LogLevel>(verbose: u8, quiet: u8, expected: VerbosityFilter) {
    assert_eq!(
        Verbosity::<L>::new(verbose, quiet).filter(),
        expected,
        "verbose = {verbose}, quiet = {quiet}"
    );
}

#[test]
fn verbosity_off_level() {
    let tests = [
        (0, 0, VerbosityFilter::Off),
        (1, 0, VerbosityFilter::Error),
        (2, 0, VerbosityFilter::Warn),
        (3, 0, VerbosityFilter::Info),
        (4, 0, VerbosityFilter::Debug),
        (5, 0, VerbosityFilter::Trace),
        (6, 0, VerbosityFilter::Trace),
        (255, 0, VerbosityFilter::Trace),
        (0, 1, VerbosityFilter::Off),
        (0, 255, VerbosityFilter::Off),
        (255, 255, VerbosityFilter::Off),
    ];

    for (verbose, quiet, expected_filter) in tests {
        assert_filter::<OffLevel>(verbose, quiet, expected_filter);
    }
}

#[test]
fn verbosity_error_level() {
    let tests = [
        (0, 0, VerbosityFilter::Error),
        (1, 0, VerbosityFilter::Warn),
        (2, 0, VerbosityFilter::Info),
        (3, 0, VerbosityFilter::Debug),
        (4, 0, VerbosityFilter::Trace),
        (5, 0, VerbosityFilter::Trace),
        (255, 0, VerbosityFilter::Trace),
        (0, 1, VerbosityFilter::Off),
        (0, 2, VerbosityFilter::Off),
        (0, 255, VerbosityFilter::Off),
        (255, 255, VerbosityFilter::Error),
    ];

    for (verbose, quiet, expected_filter) in tests {
        assert_filter::<ErrorLevel>(verbose, quiet, expected_filter);
    }
}

#[test]
fn verbosity_warn_level() {
    let tests = [
        // verbose, quiet, expected_level, expected_filter
        (0, 0, VerbosityFilter::Warn),
        (1, 0, VerbosityFilter::Info),
        (2, 0, VerbosityFilter::Debug),
        (3, 0, VerbosityFilter::Trace),
        (4, 0, VerbosityFilter::Trace),
        (255, 0, VerbosityFilter::Trace),
        (0, 1, VerbosityFilter::Error),
        (0, 2, VerbosityFilter::Off),
        (0, 3, VerbosityFilter::Off),
        (0, 255, VerbosityFilter::Off),
        (255, 255, VerbosityFilter::Warn),
    ];

    for (verbose, quiet, expected_filter) in tests {
        assert_filter::<WarnLevel>(verbose, quiet, expected_filter);
    }
}

#[test]
fn verbosity_info_level() {
    let tests = [
        // verbose, quiet, expected_level, expected_filter
        (0, 0, VerbosityFilter::Info),
        (1, 0, VerbosityFilter::Debug),
        (2, 0, VerbosityFilter::Trace),
        (3, 0, VerbosityFilter::Trace),
        (255, 0, VerbosityFilter::Trace),
        (0, 1, VerbosityFilter::Warn),
        (0, 2, VerbosityFilter::Error),
        (0, 3, VerbosityFilter::Off),
        (0, 4, VerbosityFilter::Off),
        (0, 255, VerbosityFilter::Off),
        (255, 255, VerbosityFilter::Info),
    ];

    for (verbose, quiet, expected_filter) in tests {
        assert_filter::<InfoLevel>(verbose, quiet, expected_filter);
    }
}

#[test]
fn verbosity_debug_level() {
    let tests = [
        // verbose, quiet, expected_level, expected_filter
        (0, 0, VerbosityFilter::Debug),
        (1, 0, VerbosityFilter::Trace),
        (2, 0, VerbosityFilter::Trace),
        (255, 0, VerbosityFilter::Trace),
        (0, 1, VerbosityFilter::Info),
        (0, 2, VerbosityFilter::Warn),
        (0, 3, VerbosityFilter::Error),
        (0, 4, VerbosityFilter::Off),
        (0, 5, VerbosityFilter::Off),
        (0, 255, VerbosityFilter::Off),
        (255, 255, VerbosityFilter::Debug),
    ];

    for (verbose, quiet, expected_filter) in tests {
        assert_filter::<DebugLevel>(verbose, quiet, expected_filter);
    }
}

#[test]
fn verbosity_trace_level() {
    let tests = [
        // verbose, quiet, expected_level, expected_filter
        (0, 0, VerbosityFilter::Trace),
        (1, 0, VerbosityFilter::Trace),
        (255, 0, VerbosityFilter::Trace),
        (0, 1, VerbosityFilter::Debug),
        (0, 2, VerbosityFilter::Info),
        (0, 3, VerbosityFilter::Warn),
        (0, 4, VerbosityFilter::Error),
        (0, 5, VerbosityFilter::Off),
        (0, 6, VerbosityFilter::Off),
        (0, 255, VerbosityFilter::Off),
        (255, 255, VerbosityFilter::Trace),
    ];

    for (verbose, quiet, expected_filter) in tests {
        assert_filter::<TraceLevel>(verbose, quiet, expected_filter);
    }
}

#[test]
fn from_verbosity_filter() {
    for &filter in &[
        VerbosityFilter::Off,
        VerbosityFilter::Error,
        VerbosityFilter::Warn,
        VerbosityFilter::Info,
        VerbosityFilter::Debug,
        VerbosityFilter::Trace,
    ] {
        assert_eq!(Verbosity::<OffLevel>::from(filter).filter(), filter);
        assert_eq!(Verbosity::<ErrorLevel>::from(filter).filter(), filter);
        assert_eq!(Verbosity::<WarnLevel>::from(filter).filter(), filter);
        assert_eq!(Verbosity::<InfoLevel>::from(filter).filter(), filter);
        assert_eq!(Verbosity::<DebugLevel>::from(filter).filter(), filter);
        assert_eq!(Verbosity::<TraceLevel>::from(filter).filter(), filter);
    }
}
