use xrve::logging::{init_logging, LogLevel, Logger};

#[test]
fn number_becomes_info_of_that_verbosity() {
    assert_eq!(LogLevel::from(0u8), LogLevel::Info(0));
    assert_eq!(LogLevel::from(129u8), LogLevel::Info(129));
    let level: LogLevel = 255u8.into();
    assert_eq!(level, LogLevel::Info(255));
    assert_ne!(LogLevel::from(0u8), LogLevel::Debug);
}

#[test]
fn log_levels_print_their_names() {
    assert_eq!(format!("{:?}", LogLevel::Error), "Error");
    assert_eq!(format!("{:?}", LogLevel::Warning), "Warning");
    assert_eq!(format!("{:?}", LogLevel::Info(2)), "Info(2)");
    assert_eq!(format!("{:?}", LogLevel::Debug), "Debug");
}

#[test]
fn log_starts_with_its_announcement() {
    let (mut logger, receiver) = init_logging();
    assert!(logger.is_installed());
    assert_eq!(receiver.try_recv(), Ok((LogLevel::Info(0), "XRVE Log started".to_string())));
    assert!(receiver.try_recv().is_err());
    logger.log(LogLevel::Error, "first");
    logger.log(LogLevel::Warning, "second");
    logger.log(LogLevel::from(7), "third");
    assert_eq!(receiver.try_recv(), Ok((LogLevel::Error, "first".to_string())));
    assert_eq!(receiver.try_recv(), Ok((LogLevel::Warning, "second".to_string())));
    assert_eq!(receiver.try_recv(), Ok((LogLevel::Info(7), "third".to_string())));
    assert!(receiver.try_recv().is_err());
}

#[test]
fn absent_logger_drops_everything() {
    let mut logger = Logger::absent();
    assert!(!logger.is_installed());
    logger.log(LogLevel::Error, "nobody listens");
    assert!(!logger.is_installed());
}

#[test]
fn taking_a_logger_leaves_an_absent_one() {
    let (mut logger, receiver) = init_logging();
    let mut taken = logger.take();
    assert!(!logger.is_installed());
    assert!(taken.is_installed());
    logger.log(LogLevel::Debug, "dropped");
    taken.log(LogLevel::Debug, "kept");
    assert_eq!(receiver.try_recv(), Ok((LogLevel::Info(0), "XRVE Log started".to_string())));
    assert_eq!(receiver.try_recv(), Ok((LogLevel::Debug, "kept".to_string())));
    assert!(receiver.try_recv().is_err());
}

#[test]
fn sending_to_a_closed_log_does_not_fail() {
    let (mut logger, receiver) = init_logging();
    drop(receiver);
    logger.log(LogLevel::Info(0), "into the void");
    assert!(logger.is_installed());
}
