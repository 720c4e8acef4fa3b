use ift611_project::logger::{LogLevel, LogMessage, Logger};
use ift611_project::registry::Registry;
use ift611_project::server::{
    admit_subscriber, finish_broadcast_cycle, get_current_data, route_request, write_timeout_micros,
    ServerBuilder, ServerLogs,
};

fn sample_records() -> Vec<String> {
    vec![
        String::from("1,2,3,4,5\n"),
        String::from("6,7,8,9,10\n"),
        String::from("11,12,13,14,15\n"),
    ]
}

#[test]
fn builder_defaults() {
    let config = ServerBuilder::new("data.csv").finalize();
    assert_eq!(config.data_file, "data.csv");
    assert_eq!(config.http_port, 80);
    assert_eq!(config.period, 1000);
    assert_eq!(config.max_subscriber_count, 10);
    assert_eq!(config.logger_queue_size, 100);
    assert_eq!(config.max_records_amount, None);
}

#[test]
fn builder_overrides() {
    let config = ServerBuilder::new("data.csv")
        .with_http_port(8080)
        .with_period(100_000)
        .with_max_subscriber_count(2)
        .with_logger_queue_size(16)
        .with_max_records_amount(Some(100))
        .finalize();
    assert_eq!(config.http_port, 8080);
    assert_eq!(config.period, 100_000);
    assert_eq!(config.max_subscriber_count, 2);
    assert_eq!(config.logger_queue_size, 16);
    assert_eq!(config.max_records_amount, Some(100));
}

#[test]
fn snapshot_is_deterministic_within_a_period() {
    let records = sample_records();
    let period = 100_000u64;
    // Two instants inside the same period index see the same record.
    assert_eq!(get_current_data(0, period, &records), &records[0]);
    assert_eq!(get_current_data(99_999, period, &records), &records[0]);
    // Crossing the boundary moves to the next record.
    assert_eq!(get_current_data(100_000, period, &records), &records[1]);
    assert_eq!(get_current_data(250_000, period, &records), &records[2]);
}

#[test]
fn snapshot_clamps_to_the_last_record() {
    let records = sample_records();
    assert_eq!(get_current_data(5_000_000, 100_000, &records), &records[2]);
}

#[test]
fn on_time_cycle_keeps_the_absolute_schedule() {
    let (tx, rx) = crossbeam::channel::bounded::<LogMessage<ServerLogs>>(8);
    let mut logger = Logger::new(tx);
    let (next, missed, log_result) = finish_broadcast_cycle(&mut logger, 100_000, 100_000, 150_000);
    assert_eq!(next, 200_000);
    assert!(!missed);
    assert!(log_result.is_ok());
    assert!(rx.try_recv().is_err());
}

#[test]
fn finishing_exactly_on_the_wake_time_is_no_miss() {
    let (tx, rx) = crossbeam::channel::bounded::<LogMessage<ServerLogs>>(8);
    let mut logger = Logger::new(tx);
    let (next, missed, _) = finish_broadcast_cycle(&mut logger, 100_000, 100_000, 200_000);
    assert_eq!(next, 200_000);
    assert!(!missed);
    assert!(rx.try_recv().is_err());
}

#[test]
fn missed_deadline_resynchronizes_and_logs_once() {
    let (tx, rx) = crossbeam::channel::bounded::<LogMessage<ServerLogs>>(8);
    let mut logger = Logger::new(tx);
    // The broadcast body overran the whole period: the next wake time is
    // recomputed from now, not from the stale schedule.
    let (next, missed, log_result) = finish_broadcast_cycle(&mut logger, 100_000, 100_000, 250_000);
    assert!(missed);
    assert_eq!(next, 350_000);
    assert!(log_result.is_ok());
    let m = rx.recv().unwrap();
    assert!(matches!(m.level, LogLevel::Error));
    assert!(matches!(m.context, ServerLogs::MissedPushDeadline));
    assert!(rx.try_recv().is_err());
}

#[test]
fn admission_respects_capacity_and_logs() {
    let (tx, rx) = crossbeam::channel::bounded::<LogMessage<ServerLogs>>(8);
    let mut logger = Logger::new(tx);
    let mut reg: Registry<u32> = Registry::new(2);

    let (admitted, _) = admit_subscriber(&mut reg, &mut logger, 1, String::from("127.0.0.1:5001"));
    assert!(admitted);
    let (admitted, _) = admit_subscriber(&mut reg, &mut logger, 2, String::from("127.0.0.1:5002"));
    assert!(admitted);
    // A third subscription while two are active is rejected and the
    // registry is unchanged.
    let (admitted, _) = admit_subscriber(&mut reg, &mut logger, 3, String::from("127.0.0.1:5003"));
    assert!(!admitted);
    assert_eq!(reg.len(), 2);
    assert_eq!(reg.members(), &vec![1, 2]);

    let m1 = rx.recv().unwrap();
    assert!(matches!(m1.level, LogLevel::Info));
    assert_eq!(m1.render(), {
        let mut line = m1.timestamp.clone();
        line.push_str(", INFO, adding subscriber: 127.0.0.1:5001\n");
        line
    });
    let m2 = rx.recv().unwrap();
    assert!(matches!(m2.level, LogLevel::Info));
    let m3 = rx.recv().unwrap();
    assert!(matches!(m3.level, LogLevel::Warning));
    assert!(matches!(m3.context, ServerLogs::MaxSubscribersInsufficient));
}

#[test]
fn write_timeout_is_the_subscriber_share_of_the_period() {
    assert_eq!(write_timeout_micros(100_000, 2), 50_000);
    assert_eq!(write_timeout_micros(1000, 10), 100);
    assert_eq!(write_timeout_micros(999, 1000), 0);
}

#[test]
fn route_liveness_probe() {
    let records = sample_records();
    let reply = route_request("GET", "/", 0, 100_000, &records, 9000);
    assert_eq!(reply.status, 200);
    assert_eq!(reply.body, "Hello!");
}

#[test]
fn route_snapshot_query() {
    let records = sample_records();
    let reply = route_request("GET", "/BTCUSD", 150_000, 100_000, &records, 9000);
    assert_eq!(reply.status, 200);
    assert_eq!(reply.body, records[1]);
}

#[test]
fn route_subscription_returns_port_as_decimal_string() {
    let records = sample_records();
    let reply = route_request("POST", "/subscribe/BTCUSD", 0, 100_000, &records, 8080);
    assert_eq!(reply.status, 200);
    assert_eq!(reply.body, "8080");
}

#[test]
fn push_and_query_agree_on_the_snapshot() {
    // What the broadcaster pushes at an instant is exactly what a
    // concurrent snapshot query is answered with.
    let records = sample_records();
    let period = 100_000u64;
    for t in [0u64, 50_000, 99_999, 100_000, 250_000, 5_000_000] {
        let pushed = get_current_data(t, period, &records);
        let reply = route_request("GET", "/BTCUSD", t, period, &records, 1);
        assert_eq!(&reply.body, pushed);
    }
}

#[test]
fn route_anything_else_is_a_structured_404() {
    let records = sample_records();
    let reply = route_request("PUT", "/BTCUSD", 0, 100_000, &records, 9000);
    assert_eq!(reply.status, 404);
    assert_eq!(reply.body, "Invalid request: PUT at /BTCUSD");

    let reply = route_request("GET", "/ETHUSD", 0, 100_000, &records, 9000);
    assert_eq!(reply.status, 404);
    assert_eq!(reply.body, "Invalid request: GET at /ETHUSD");
}
