//! The ClickHouse store of node and connection metrics: the client the API
//! service opens on it, and the queries it sends there.
use vstd::prelude::*;
use crate::codec::{uuid_string, uuid_text};
use crate::node::{chrono_timestamp_representable, timestamp_representable};
use crate::text::owned;
use chrono::TimeZone;
use std::fmt::Write;

verus! {

/// `clickhouse::Client`, the crate's client type; nothing inside it is visible here.
#[verifier::external_type_specification]
#[verifier::external_body]
pub struct ExClickhouseClient(clickhouse::Client);

/// The address of the server a `clickhouse::Client` sends its requests to
/// (the client's private `url` field).
pub uninterp spec fn client_url(c: clickhouse::Client) -> Seq<char>;

/// `clickhouse::Client::default().with_url(url)`: a client whose requests go
/// to `url` (`with_url` stores it as the client's address). Nothing else of
/// the client is stated.
#[verifier::external_body]
fn clickhouse_client(url: &str) -> (r: clickhouse::Client)
    ensures
        client_url(r) == url@,
{
    clickhouse::Client::default().with_url(url)
}

/// The text that `chrono` writes for the UTC time `secs` (UNIX seconds) with
/// the format `pattern`; `None` when the pattern cannot be written.
pub uninterp spec fn chrono_utc_format(secs: i64, pattern: Seq<char>) -> Option<Seq<char>>;

/// `Utc.timestamp_opt(secs, 0)` formatted with `pattern` (`DateTime::format`,
/// written out with `write!`; a formatting error gives `None`).
#[verifier::external_body]
fn utc_format(secs: i64, pattern: &str) -> (r: Option<String>)
    requires
        chrono_timestamp_representable(secs),
    ensures
        match r {
            Some(t) => chrono_utc_format(secs, pattern@) == Some(t@),
            None => chrono_utc_format(secs, pattern@) is None,
        },
{
    let mut out = String::new();
    match write!(out, "{}", chrono::Utc.timestamp_opt(secs, 0).unwrap().format(pattern)) {
        Ok(()) => Some(out),
        Err(_) => None,
    }
}

/// The date pattern of the metrics store's queries.
pub open spec fn query_date_pattern() -> Seq<char> {
    "%Y-%m-%d %H:%M:%S"@
}

/// Where the metrics store is reached.
#[derive(Clone)]
pub struct ChContext {
    url: String,
}

impl ChContext {
    /// The address of the metrics store.
    pub closed spec fn url(&self) -> Seq<char> {
        self.url@
    }

    pub fn new(url: &str) -> (r: ChContext)
        ensures
            r.url() == url@,
    {
        ChContext { url: owned(url) }
    }

    /// A client of the metrics store at this context's address.
    pub fn client(&self) -> (r: clickhouse::Client)
        ensures
            client_url(r) == self.url(),
    {
        clickhouse_client(self.url.as_str())
    }
}

/// The query for the latest heartbeat of node `uuid` (`hostname`) in `env`.
pub open spec fn spec_heartbeat_query(env: Seq<char>, uuid: u128, hostname: Seq<char>) -> Seq<char> {
    "\nSELECT Path AS metric,\n       toUInt8(argMax(Value, Timestamp)) AS value,\n       toInt64(toUnixTimestamp(toDateTime(argMax(Timestamp, Timestamp)))) AS timestamp\nFROM default.graphite_data\nWHERE Path = '"@ + env + "."@ + hostname + "."@ + uuid_text(uuid) + ".heartbeat'\nGROUP BY Path"@
}

/// The query for the latest heartbeat of node `uuid` (`hostname`) in `env`.
pub fn heartbeat_query(env: &str, uuid: u128, hostname: &str) -> (r: String)
    ensures
        r@ == spec_heartbeat_query(env@, uuid, hostname@),
{
    let id = uuid_string(uuid);
    let mut q = owned("\nSELECT Path AS metric,\n       toUInt8(argMax(Value, Timestamp)) AS value,\n       toInt64(toUnixTimestamp(toDateTime(argMax(Timestamp, Timestamp)))) AS timestamp\nFROM default.graphite_data\nWHERE Path = '");
    q.append(env);
    q.append(".");
    q.append(hostname);
    q.append(".");
    q.append(id.as_str());
    q.append(".heartbeat'\nGROUP BY Path");
    q
}

/// The query for the five-minute load average of `hostname` in `env`.
pub open spec fn spec_load_avg_query(env: Seq<char>, hostname: Seq<char>) -> Seq<char> {
    "\nSELECT\n    any(Path) AS metric,\n    avg(toFloat64(Value)) AS value,\n    toInt64(toUnixTimestamp(now())) AS timestamp\nFROM default.graphite_data\nWHERE Path = '"@ + env + "."@ + hostname + ".loadavg.5m'\nAND Timestamp >= now() - INTERVAL 5 MINUTE"@
}

/// The query for the five-minute load average of `hostname` in `env`.
pub fn load_avg_query(env: &str, hostname: &str) -> (r: String)
    ensures
        r@ == spec_load_avg_query(env@, hostname@),
{
    let mut q = owned("\nSELECT\n    any(Path) AS metric,\n    avg(toFloat64(Value)) AS value,\n    toInt64(toUnixTimestamp(now())) AS timestamp\nFROM default.graphite_data\nWHERE Path = '");
    q.append(env);
    q.append(".");
    q.append(hostname);
    q.append(".loadavg.5m'\nAND Timestamp >= now() - INTERVAL 5 MINUTE");
    q
}

/// The query for the transmit rate of `interface` of `hostname` in `env`.
pub open spec fn spec_bandwidth_query(env: Seq<char>, hostname: Seq<char>, interface: Seq<char>) -> Seq<char> {
    "\nSELECT\n    any(Path) AS metric,\n    avg(toFloat64(Value)) AS value,\n    toInt64(toUnixTimestamp(now())) AS timestamp\nFROM default.graphite_data\nWHERE Path = '"@ + env + "."@ + hostname + ".network."@ + interface + ".tx_bps'\nAND Timestamp >= now() - INTERVAL 5 MINUTE"@
}

/// The query for the transmit rate of `interface` of `hostname` in `env`.
pub fn bandwidth_query(env: &str, hostname: &str, interface: &str) -> (r: String)
    ensures
        r@ == spec_bandwidth_query(env@, hostname@, interface@),
{
    let mut q = owned("\nSELECT\n    any(Path) AS metric,\n    avg(toFloat64(Value)) AS value,\n    toInt64(toUnixTimestamp(now())) AS timestamp\nFROM default.graphite_data\nWHERE Path = '");
    q.append(env);
    q.append(".");
    q.append(hostname);
    q.append(".network.");
    q.append(interface);
    q.append(".tx_bps'\nAND Timestamp >= now() - INTERVAL 5 MINUTE");
    q
}

/// The query for the busiest CPU of `hostname` in `env`.
pub open spec fn spec_cpu_usage_max_query(env: Seq<char>, hostname: Seq<char>) -> Seq<char> {
    "\nSELECT\n    Path AS metric,\n    toFloat64(argMax(Value, Timestamp)) AS value,\n    toInt64(toUnixTimestamp(toDateTime(argMax(Timestamp, Timestamp)))) AS timestamp\nFROM default.graphite_data\nWHERE Path LIKE '"@ + env + "."@ + hostname + ".cpu.%.percentage'\nGROUP BY Path\nORDER BY value DESC\nLIMIT 1\n"@
}

/// The query for the busiest CPU of `hostname` in `env`.
pub fn cpu_usage_max_query(env: &str, hostname: &str) -> (r: String)
    ensures
        r@ == spec_cpu_usage_max_query(env@, hostname@),
{
    let mut q = owned("\nSELECT\n    Path AS metric,\n    toFloat64(argMax(Value, Timestamp)) AS value,\n    toInt64(toUnixTimestamp(toDateTime(argMax(Timestamp, Timestamp)))) AS timestamp\nFROM default.graphite_data\nWHERE Path LIKE '");
    q.append(env);
    q.append(".");
    q.append(hostname);
    q.append(".cpu.%.percentage'\nGROUP BY Path\nORDER BY value DESC\nLIMIT 1\n");
    q
}

/// The query for the share of memory in use on `hostname` in `env`.
pub open spec fn spec_memory_ratio_query(env: Seq<char>, hostname: Seq<char>) -> Seq<char> {
    "\n        SELECT\n            used.value / total.value AS value,\n            toInt64(toUnixTimestamp(now())) AS timestamp,\n            'mem.used/mem.total' AS metric\n        FROM\n            (\n                SELECT argMax(Value, Timestamp) AS value\n                FROM default.graphite_data\n                WHERE Path = '"@ + env + "."@ + hostname + ".mem.used'\n            ) AS used,\n            (\n                SELECT argMax(Value, Timestamp) AS value\n                FROM default.graphite_data\n                WHERE Path = '"@ + env + "."@ + hostname + ".mem.total'\n            ) AS total\n        "@
}

/// The query for the share of memory in use on `hostname` in `env`.
pub fn memory_ratio_query(env: &str, hostname: &str) -> (r: String)
    ensures
        r@ == spec_memory_ratio_query(env@, hostname@),
{
    let mut q = owned("\n        SELECT\n            used.value / total.value AS value,\n            toInt64(toUnixTimestamp(now())) AS timestamp,\n            'mem.used/mem.total' AS metric\n        FROM\n            (\n                SELECT argMax(Value, Timestamp) AS value\n                FROM default.graphite_data\n                WHERE Path = '");
    q.append(env);
    q.append(".");
    q.append(hostname);
    q.append(".mem.used'\n            ) AS used,\n            (\n                SELECT argMax(Value, Timestamp) AS value\n                FROM default.graphite_data\n                WHERE Path = '");
    q.append(env);
    q.append(".");
    q.append(hostname);
    q.append(".mem.total'\n            ) AS total\n        ");
    q
}

/// The query for the traffic of connection `conn_id` during the day that
/// starts at `start_text`.
pub open spec fn spec_conn_stats_query(conn_id: u128, start_text: Seq<char>) -> Seq<char> {
    "\nSELECT  metric,\n    toInt64(sum(metric_value)) AS value,\n    anyLast(timestamp) AS timestamp \nFROM (\n  SELECT\n    toInt64(toUnixTimestamp(toDateTime(anyLast(Timestamp)))) AS timestamp,\n    extract(Path, '[^.]+$') AS metric,\n    anyLast(Value) AS metric_value\n  FROM default.graphite_data\n  WHERE Path LIKE '%.%."@ + uuid_text(conn_id) + ".conn_stat.%'\n     AND Timestamp >= toDateTime('"@ + start_text + "')\n     AND Timestamp < toDateTime('"@ + start_text + "') + INTERVAL 1 DAY\n  GROUP BY Path\n )\nGROUP BY metric"@
}

/// The query for the traffic of connection `conn_id` during the day that
/// starts at `start` (UNIX seconds), with the start written in
/// `query_date_pattern`; `None` when `start` is no time that `chrono` can
/// hold or cannot be written.
pub fn conn_stats_query(conn_id: u128, start: i64) -> (r: Option<String>)
    ensures
        !chrono_timestamp_representable(start) ==> r is None,
        chrono_timestamp_representable(start) ==> match chrono_utc_format(start, query_date_pattern()) {
            None => r is None,
            Some(t) => r matches Some(q) && q@ == spec_conn_stats_query(conn_id, t),
        },
{
    if !timestamp_representable(start) {
        return None;
    }
    let id = uuid_string(conn_id);
    let start_str = match utc_format(start, "%Y-%m-%d %H:%M:%S") {
        None => return None,
        Some(t) => t,
    };
    let mut q = owned("\nSELECT  metric,\n    toInt64(sum(metric_value)) AS value,\n    anyLast(timestamp) AS timestamp \nFROM (\n  SELECT\n    toInt64(toUnixTimestamp(toDateTime(anyLast(Timestamp)))) AS timestamp,\n    extract(Path, '[^.]+$') AS metric,\n    anyLast(Value) AS metric_value\n  FROM default.graphite_data\n  WHERE Path LIKE '%.%.");
    q.append(id.as_str());
    q.append(".conn_stat.%'\n     AND Timestamp >= toDateTime('");
    q.append(start_str.as_str());
    q.append("')\n     AND Timestamp < toDateTime('");
    q.append(start_str.as_str());
    q.append("') + INTERVAL 1 DAY\n  GROUP BY Path\n )\nGROUP BY metric");
    Some(q)
}

} // verus!
