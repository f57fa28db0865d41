use cyclonedx_bom::cli::{log_level, LogLevel};

#[test]
fn the_level_follows_the_verbose_flags() {
    assert_eq!(log_level(false, 0), LogLevel::Error);
    assert_eq!(log_level(false, 1), LogLevel::Info);
    assert_eq!(log_level(false, 2), LogLevel::Debug);
    assert_eq!(log_level(false, 3), LogLevel::Trace);
    assert_eq!(log_level(false, 4), LogLevel::Trace);
    assert_eq!(log_level(false, u64::MAX), LogLevel::Trace);
}

#[test]
fn quiet_wins_over_verbose() {
    for verbose in [0, 1, 2, 3, 100] {
        assert_eq!(log_level(true, verbose), LogLevel::Off);
    }
}
