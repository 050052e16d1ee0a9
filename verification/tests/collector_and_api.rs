use sunberry::api::{
    ina_day_select, ina_window_select, last_day_window, requested_window, stamp_from_millis,
    stamp_text, system_window_select, window_stamps, CheckParams, QueryWindow, Stamp, WindowError,
};
use sunberry::measure::largest_disk_index;
use sunberry::schedule::{next_wakeup, Wakeup};
use sunberry::server::{listen_address, listen_port};
use sunberry::sql::{insert_measurement_statement, tables_in_creation_order, Table};

#[test]
fn wakeup_on_time() {
    assert_eq!(next_wakeup(0, 3, 5), Wakeup { deadline: 5, late: false });
    assert_eq!(next_wakeup(0, 5, 5), Wakeup { deadline: 5, late: false });
}

#[test]
fn wakeup_after_a_slow_round() {
    assert_eq!(next_wakeup(0, 12, 5), Wakeup { deadline: 15, late: true });
    assert_eq!(next_wakeup(0, 10, 5), Wakeup { deadline: 10, late: true });
    assert_eq!(next_wakeup(100, 131, 10), Wakeup { deadline: 140, late: true });
}

#[test]
fn largest_disk_choice() {
    assert_eq!(largest_disk_index(&vec![]), None);
    assert_eq!(largest_disk_index(&vec![0, 0]), None);
    assert_eq!(largest_disk_index(&vec![5, 9, 9, 3]), Some(1));
}

#[test]
fn insert_statement_text() {
    assert_eq!(
        insert_measurement_statement("pv_powers"),
        "INSERT INTO pv_powers (timestamp, current, voltage, power) VALUES (?1, ?2, ?3, ?4)"
    );
}

#[test]
fn tables_created_in_order() {
    assert_eq!(
        tables_in_creation_order(),
        vec![Table::PowerConsumptions, Table::SystemLogs, Table::PvPowers]
    );
    assert!(Table::PvPowers.create_statement().starts_with("CREATE TABLE IF NOT EXISTS pv_powers ("));
    assert_eq!(Table::SystemLogs.name(), "system_logs");
}

#[test]
fn millis_split_like_chrono() {
    assert_eq!(stamp_from_millis(1500), Stamp { secs: 1, nanos: 500_000_000 });
    assert_eq!(stamp_from_millis(-1), Stamp { secs: -1, nanos: 999_000_000 });
    assert_eq!(stamp_from_millis(0), Stamp { secs: 0, nanos: 0 });
}

#[test]
fn window_defaults() {
    let now = 1_700_000_000_000;
    let w = requested_window(&CheckParams { from: None, to: None }, now);
    assert_eq!(w.from, stamp_from_millis(now));
    assert_eq!(w.to, stamp_from_millis(now - 604_800_000));
    let w = requested_window(&CheckParams { from: Some(1), to: Some(2) }, now);
    assert_eq!(w, QueryWindow { from: stamp_from_millis(1), to: stamp_from_millis(2) });
    let day = last_day_window(Stamp { secs: 100_000, nanos: 7 });
    assert_eq!(day.from, Stamp { secs: 13_600, nanos: 7 });
}

#[test]
fn stamps_written_by_chrono() {
    assert_eq!(stamp_text(Stamp { secs: 0, nanos: 0 }).unwrap(), "1970-01-01 00:00:00 UTC");
    assert_eq!(
        stamp_text(stamp_from_millis(1500)).unwrap(),
        "1970-01-01 00:00:01.500 UTC"
    );
    assert_eq!(stamp_text(Stamp { secs: i64::MAX, nanos: 0 }), None);
}

#[test]
fn window_errors() {
    let good = Stamp { secs: 0, nanos: 0 };
    let bad = Stamp { secs: i64::MAX, nanos: 0 };
    assert_eq!(window_stamps(&QueryWindow { from: bad, to: good }), Err(WindowError::BadFrom));
    assert_eq!(window_stamps(&QueryWindow { from: good, to: bad }), Err(WindowError::BadTo));
    assert_eq!(system_window_select(&QueryWindow { from: bad, to: bad }), Err(WindowError::BadFrom));
}

#[test]
fn selects_for_a_window() {
    let w = QueryWindow { from: Stamp { secs: 0, nanos: 0 }, to: Stamp { secs: 60, nanos: 0 } };
    assert_eq!(
        ina_day_select("pv_power", &w).unwrap(),
        "SELECT id, timestamp, current, voltage, power FROM pv_power WHERE timestamp >= \"1970-01-01 00:00:00 UTC\" AND timestamp <= \"1970-01-01 00:01:00 UTC\""
    );
    let bucketed = ina_window_select("power_consumptions", &w).unwrap();
    assert!(bucketed.contains("FROM power_consumptions \n"));
    assert!(bucketed.ends_with("GROUP BY strftime('%s',timestamp) / 600"));
}

#[test]
fn port_and_address() {
    let args = |list: &[&str]| list.iter().map(|s| s.to_string()).collect::<Vec<String>>();
    assert_eq!(listen_port(&args(&["server", "d"])), 8080);
    assert_eq!(listen_port(&args(&["server"])), 80);
    assert_eq!(listen_port(&args(&["server", "x"])), 80);
    assert_eq!(listen_address(8080), "0.0.0.0:8080");
    assert_eq!(listen_address(80), "0.0.0.0:80");
}
