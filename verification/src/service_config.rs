//! Settings of the API service and of the node agent, with the defaults that
//! apply when the configuration file leaves a field out.
use vstd::prelude::*;
use crate::codec::random_up_to;
use crate::net::IpMask;
use crate::tag::ProtoTag;
use crate::text::{dec_text, decimal, owned};

verus! {

/// The agent runs against a remote API unless told it is local.
pub fn default_disabled() -> (r: bool)
    ensures
        !r,
{
    false
}

/// Origins that may call the API from a browser when none are configured.
pub fn default_cors_origins() -> (r: Vec<String>)
    ensures
        r@.len() == 2,
        r@[0]@ == "http://localhost:3000"@,
        r@[1]@ == "http://localhost:3001"@,
{
    let mut v: Vec<String> = Vec::new();
    v.push(owned("http://localhost:3000"));
    v.push(owned("http://localhost:3001"));
    v
}

/// The network WireGuard peer addresses are taken from: 10.0.0.0/8.
pub fn default_wg_network() -> (r: IpMask)
    ensures
        r.addr == 0x0A00_0000u32,
        r.cidr == 8,
{
    IpMask::new(0x0A00_0000u32, 8)
}

/// The address the API listens on: 127.0.0.1.
pub fn default_listen_address() -> (r: u32)
    ensures
        r == 0x7F00_0001u32,
{
    0x7F00_0001u32
}

/// The log level of the API service.
pub fn default_log_level() -> (r: String)
    ensures
        r@ == "debug"@,
{
    owned("debug")
}

/// The web site named in the mails that the service sends.
pub fn default_company_website() -> (r: String)
    ensures
        r@ == "http://localhost:8080"@,
{
    owned("http://localhost:8080")
}

/// How the agent runs: against a remote API or locally, and how often and
/// where it saves its connections.
#[derive(Debug)]
pub struct AgentConfig {
    pub local: bool,
    pub snapshot_interval: u64,
    pub snapshot_path: String,
}

impl Default for AgentConfig {
    fn default() -> (r: Self)
        ensures
            !r.local,
            r.snapshot_interval == 0,
            r.snapshot_path@.len() == 0,
    {
        AgentConfig { local: false, snapshot_interval: 0, snapshot_path: String::new() }
    }
}

/// The PostgreSQL database of the API service.
#[derive(Debug)]
pub struct PostgresConfig {
    pub host: String,
    pub port: u16,
    pub db: String,
    pub username: String,
    pub password: String,
}

impl Default for PostgresConfig {
    fn default() -> (r: Self)
        ensures
            r.host@.len() == 0,
            r.port == 0,
            r.db@.len() == 0,
            r.username@.len() == 0,
            r.password@.len() == 0,
    {
        PostgresConfig {
            host: String::new(),
            port: 0,
            db: String::new(),
            username: String::new(),
            password: String::new(),
        }
    }
}

/// The key/value connection string handed to the PostgreSQL driver.
pub open spec fn spec_connection_line(c: PostgresConfig) -> Seq<char> {
    "host="@ + c.host@ + " user="@ + c.username@ + " dbname="@ + c.db@ + " password="@
        + c.password@ + " port="@ + dec_text(c.port as nat)
}

impl PostgresConfig {
    /// `host=.. user=.. dbname=.. password=.. port=..`, in that order.
    pub fn connection_line(&self) -> (r: String)
        ensures
            r@ == spec_connection_line(*self),
    {
        let mut s = owned("host=");
        s.append(self.host.as_str());
        s.append(" user=");
        s.append(self.username.as_str());
        s.append(" dbname=");
        s.append(self.db.as_str());
        s.append(" password=");
        s.append(self.password.as_str());
        s.append(" port=");
        let port = decimal(self.port as u64);
        s.append(port.as_str());
        s
    }
}

/// Periods, in seconds, of the service's background tasks.
#[derive(Debug)]
pub struct TasksConfig {
    pub db_sync_interval_sec: u64,
    pub subscription_restore_interval: u64,
    pub subscription_expire_interval: u64,
}

impl Default for TasksConfig {
    fn default() -> (r: Self)
        ensures
            r.db_sync_interval_sec == 0,
            r.subscription_restore_interval == 0,
            r.subscription_expire_interval == 0,
    {
        TasksConfig {
            db_sync_interval_sec: 0,
            subscription_restore_interval: 0,
            subscription_expire_interval: 0,
        }
    }
}

/// The delay before the next full synchronisation with the database: the
/// configured interval plus a random jitter of at most 30 seconds, so that
/// several instances do not query at once. Returns the delay and the jitter.
pub fn db_sync_delay_secs(interval: u64) -> (r: (u64, u64))
    requires
        interval <= u64::MAX - 30,
    ensures
        r.1 <= 30,
        r.0 == interval + r.1,
{
    let jitter = random_up_to(30);
    (interval + jitter, jitter)
}

/// Where the service receives node metrics, and how many it keeps.
#[derive(Debug)]
pub struct MetricsRxConfig {
    pub reciever: String,
    pub max_points: usize,
    pub retention_seconds: i64,
}

impl Default for MetricsRxConfig {
    fn default() -> (r: Self)
        ensures
            r.reciever@.len() == 0,
            r.max_points == 0,
            r.retention_seconds == 0,
    {
        MetricsRxConfig { reciever: String::new(), max_points: 0, retention_seconds: 0 }
    }
}

/// The mail server and the texts of the mails the service sends.
#[derive(Debug)]
pub struct SmtpConfig {
    pub server: String,
    pub username: String,
    pub password: String,
    pub port: u16,
    pub from: String,
    pub title: String,
    pub company_name: String,
    pub support: String,
    pub email_file: String,
    pub email_sign_token: Vec<u8>,
    pub company_website: String,
}

impl Default for SmtpConfig {
    fn default() -> (r: Self)
        ensures
            r.server@.len() == 0,
            r.username@.len() == 0,
            r.password@.len() == 0,
            r.port == 0,
            r.from@.len() == 0,
            r.title@.len() == 0,
            r.company_name@.len() == 0,
            r.support@.len() == 0,
            r.email_file@.len() == 0,
            r.email_sign_token@.len() == 0,
            r.company_website@.len() == 0,
    {
        SmtpConfig {
            server: String::new(),
            username: String::new(),
            password: String::new(),
            port: 0,
            from: String::new(),
            title: String::new(),
            company_name: String::new(),
            support: String::new(),
            email_file: String::new(),
            email_sign_token: Vec::new(),
            company_website: String::new(),
        }
    }
}

/// The API service itself: where it listens, its secrets, and the rules it
/// applies to subscriptions and connections. `listen` is an IPv4 address as
/// its 32-bit number.
#[derive(Debug)]
pub struct ServiceConfig {
    pub listen: u32,
    pub port: u16,
    pub token: String,
    pub key_sign_token: Vec<u8>,
    pub bonus_days: i64,
    pub system_refer_codes: Vec<String>,
    pub cors_origins: Vec<String>,
    pub wireguard_network: IpMask,
    pub log_level: String,
    pub updates_endpoint_zmq: String,
    pub enabled_envs: Vec<String>,
    pub enabled_tags: Vec<ProtoTag>,
    pub trial_limit_days: i64,
    pub trial_limit_bytes: i64,
    pub subscription_title: String,
}

/// All settings of the API service.
#[derive(Debug)]
pub struct ServiceSettings {
    pub service: ServiceConfig,
    pub pg: PostgresConfig,
    pub metrics: MetricsRxConfig,
    pub tasks: TasksConfig,
    pub smtp: SmtpConfig,
}

impl ServiceSettings {
    /// The service accepts any settings that were read.
    pub fn validate(&self) -> (r: Result<(), String>)
        ensures
            r is Ok,
    {
        Ok(())
    }
}

} // verus!
