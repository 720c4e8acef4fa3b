use ift611_project::client::DecisionLogs;
use ift611_project::logger::{LogLevel, LogMessage, Logger};
use ift611_project::server::ServerLogs;

#[test]
fn log_level_strings() {
    assert_eq!(LogLevel::Info.as_str(), "INFO");
    assert_eq!(LogLevel::Warning.as_str(), "WARNING");
    assert_eq!(LogLevel::Error.as_str(), "ERROR");
}

#[test]
fn render_line_exact() {
    let msg = LogMessage::new(
        String::from("2020-01-01 00:00:00 UTC"),
        LogLevel::Warning,
        ServerLogs::MaxSubscribersInsufficient,
    );
    assert_eq!(
        msg.render(),
        "2020-01-01 00:00:00 UTC, WARNING, maximum number of connections is insufficient\n"
    );
}

#[test]
fn render_line_with_address() {
    let msg = LogMessage::new(
        String::from("t0"),
        LogLevel::Info,
        ServerLogs::AddingSubscriber(String::from("127.0.0.1:9999")),
    );
    assert_eq!(msg.render(), "t0, INFO, adding subscriber: 127.0.0.1:9999\n");
}

#[test]
fn logger_delivers_all_in_order() {
    let (tx, rx) = crossbeam::channel::bounded(16);
    let mut logger = Logger::new(tx);
    assert!(logger.info(DecisionLogs::Buy).is_ok());
    assert!(logger.warning(DecisionLogs::Sell).is_ok());
    assert!(logger.error(DecisionLogs::Wait).is_ok());

    let m1: LogMessage<DecisionLogs> = rx.recv().unwrap();
    assert!(matches!(m1.level, LogLevel::Info));
    assert_eq!(m1.context, DecisionLogs::Buy);
    let m2 = rx.recv().unwrap();
    assert!(matches!(m2.level, LogLevel::Warning));
    assert_eq!(m2.context, DecisionLogs::Sell);
    let m3 = rx.recv().unwrap();
    assert!(matches!(m3.level, LogLevel::Error));
    assert_eq!(m3.context, DecisionLogs::Wait);
    assert!(rx.try_recv().is_err());
}

#[test]
fn logger_reports_dead_receiver() {
    let (tx, rx) = crossbeam::channel::bounded::<LogMessage<DecisionLogs>>(4);
    drop(rx);
    let mut logger = Logger::new(tx);
    let r = logger.info(DecisionLogs::Buy);
    assert!(r.is_err());
    assert_eq!(
        r.unwrap_err().message(),
        "sending to logging thread failed, receiver is dead"
    );
}

#[test]
fn duplicate_feeds_the_same_channel() {
    let (tx, rx) = crossbeam::channel::bounded(4);
    let logger: Logger<DecisionLogs> = Logger::new(tx);
    let mut dup = logger.duplicate();
    assert!(dup.info(DecisionLogs::Buy).is_ok());
    let m = rx.recv().unwrap();
    assert!(matches!(m.context, DecisionLogs::Buy));
}
