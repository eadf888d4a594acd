use fcore::clickhouse_store::{
    bandwidth_query, conn_stats_query, cpu_usage_max_query, heartbeat_query, load_avg_query, memory_ratio_query, ChContext,
};

const NODE: u128 = 0x0123_4567_89ab_cdef_0011_2233_4455_6677;

#[test]
fn heartbeat_query_names_the_node_path() {
    let q = heartbeat_query("dev", NODE, "host1");
    let expected = "\nSELECT Path AS metric,\n       toUInt8(argMax(Value, Timestamp)) AS value,\n       toInt64(toUnixTimestamp(toDateTime(argMax(Timestamp, Timestamp)))) AS timestamp\nFROM default.graphite_data\nWHERE Path = 'dev.host1.01234567-89ab-cdef-0011-223344556677.heartbeat'\nGROUP BY Path";
    assert_eq!(q, expected);
}

#[test]
fn node_metric_queries_name_their_paths() {
    assert!(load_avg_query("ru", "h").contains("WHERE Path = 'ru.h.loadavg.5m'\n"));
    assert!(bandwidth_query("ru", "h", "eth0").contains("WHERE Path = 'ru.h.network.eth0.tx_bps'\n"));
    assert!(cpu_usage_max_query("ru", "h").contains("WHERE Path LIKE 'ru.h.cpu.%.percentage'\n"));
    let mem = memory_ratio_query("ru", "h");
    assert!(mem.contains("WHERE Path = 'ru.h.mem.used'"));
    assert!(mem.contains("WHERE Path = 'ru.h.mem.total'"));
}

#[test]
fn connection_stats_query_covers_one_day() {
    let q = conn_stats_query(NODE, 86_400).expect("a valid time");
    assert!(q.contains("WHERE Path LIKE '%.%.01234567-89ab-cdef-0011-223344556677.conn_stat.%'"));
    assert!(q.contains("AND Timestamp >= toDateTime('1970-01-02 00:00:00')"));
    assert!(q.contains("AND Timestamp < toDateTime('1970-01-02 00:00:00') + INTERVAL 1 DAY"));
    assert_eq!(conn_stats_query(NODE, i64::MAX), None);
}

#[test]
fn context_opens_a_client() {
    let ctx = ChContext::new("http://localhost:8123");
    let _client = ctx.client();
    let copy = ctx.clone();
    let _other = copy.client();
}
