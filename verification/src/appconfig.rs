//! Settings of a node agent read from its configuration file.
//!
//! Every field has a default that applies when the file leaves it out; the
//! `default_*` functions give those values.
use vstd::prelude::*;
use crate::text::{has_prefix, owned, starts_with};

verus! {

pub fn default_enabled() -> (r: bool)
    ensures
        r,
{
    true
}

pub fn default_env() -> (r: String)
    ensures
        r@ == "dev"@,
{
    owned("dev")
}

pub fn default_hostname() -> (r: String)
    ensures
        r@ == "localhost"@,
{
    owned("localhost")
}

pub fn default_interface() -> (r: String)
    ensures
        r@ == "ens3"@,
{
    owned("ens3")
}

pub fn default_metrics_delay() -> (r: u64)
    ensures
        r == 1,
{
    1
}

pub fn default_xray_daily_limit_mb() -> (r: i64)
    ensures
        r == 1000,
{
    1000
}

pub fn default_carbon_server() -> (r: String)
    ensures
        r@ == "localhost:2003"@,
{
    owned("localhost:2003")
}

pub fn default_xray_api_endpoint() -> (r: String)
    ensures
        r@ == "http://localhost:23456"@,
{
    owned("http://localhost:23456")
}

pub fn default_loglevel() -> (r: String)
    ensures
        r@ == "debug"@,
{
    owned("debug")
}

pub fn default_logfile() -> (r: String)
    ensures
        r@ == "pony.log"@,
{
    owned("pony.log")
}

pub fn default_zmq_endpoint() -> (r: String)
    ensures
        r@ == "tcp://localhost:3000"@,
{
    owned("tcp://localhost:3000")
}

pub fn default_zmq_topic() -> (r: String)
    ensures
        r@ == "dev"@,
{
    owned("dev")
}

pub fn default_file_state() -> (r: String)
    ensures
        r@ == "users.json"@,
{
    owned("users.json")
}

pub fn default_xray_config_path() -> (r: String)
    ensures
        r@ == "xray-config.json"@,
{
    owned("xray-config.json")
}

/// Where metrics are sent (a Carbon line receiver).
#[derive(Debug)]
pub struct CarbonConfig {
    pub address: String,
}

/// Log level and log file.
#[derive(Debug)]
pub struct LoggingConfig {
    pub level: String,
    pub file: String,
}

/// Identity and modes of the node.
#[derive(Debug)]
pub struct AppConfig {
    pub env: String,
    pub hostname: String,
    pub iface: String,
    pub metrics_delay: u64,
    pub metrics_mode: bool,
    pub xray_api_mode: bool,
    pub file_state: String,
}

/// Access to the local Xray core.
#[derive(Debug)]
pub struct XrayConfig {
    pub xray_api_endpoint: String,
    pub xray_daily_limit_mb: i64,
    pub xray_config_path: String,
}

/// The message bus the node subscribes to.
#[derive(Debug)]
pub struct ZmqConfig {
    pub endpoint: String,
    pub topic: String,
}

/// All settings of a node agent.
#[derive(Debug)]
pub struct Settings {
    pub carbon: CarbonConfig,
    pub logging: LoggingConfig,
    pub app: AppConfig,
    pub xray: XrayConfig,
    pub zmq: ZmqConfig,
}

impl Default for CarbonConfig {
    fn default() -> (r: Self)
        ensures
            r.address@.len() == 0,
    {
        CarbonConfig { address: String::new() }
    }
}

impl Default for LoggingConfig {
    fn default() -> (r: Self)
        ensures
            r.level@.len() == 0,
            r.file@.len() == 0,
    {
        LoggingConfig { level: String::new(), file: String::new() }
    }
}

impl Default for AppConfig {
    fn default() -> (r: Self)
        ensures
            r.env@.len() == 0,
            r.hostname@.len() == 0,
            r.iface@.len() == 0,
            r.metrics_delay == 0,
            !r.metrics_mode,
            !r.xray_api_mode,
            r.file_state@.len() == 0,
    {
        AppConfig {
            env: String::new(),
            hostname: String::new(),
            iface: String::new(),
            metrics_delay: 0,
            metrics_mode: false,
            xray_api_mode: false,
            file_state: String::new(),
        }
    }
}

impl Default for XrayConfig {
    fn default() -> (r: Self)
        ensures
            r.xray_api_endpoint@.len() == 0,
            r.xray_daily_limit_mb == 0,
            r.xray_config_path@.len() == 0,
    {
        XrayConfig {
            xray_api_endpoint: String::new(),
            xray_daily_limit_mb: 0,
            xray_config_path: String::new(),
        }
    }
}

impl Default for ZmqConfig {
    fn default() -> (r: Self)
        ensures
            r.endpoint@.len() == 0,
            r.topic@.len() == 0,
    {
        ZmqConfig { endpoint: String::new(), topic: String::new() }
    }
}

impl Default for Settings {
    fn default() -> (r: Self)
        ensures
            r.carbon.address@.len() == 0,
            r.zmq.endpoint@.len() == 0,
            r.zmq.topic@.len() == 0,
            r.app.env@.len() == 0,
    {
        Settings {
            carbon: CarbonConfig::default(),
            logging: LoggingConfig::default(),
            app: AppConfig::default(),
            xray: XrayConfig::default(),
            zmq: ZmqConfig::default(),
        }
    }
}

/// The scheme every ZMQ endpoint of the settings must use.
pub open spec fn zmq_scheme() -> Seq<char> {
    "tcp://"@
}

impl Settings {
    /// Accepts the settings exactly when the ZMQ endpoint starts with `tcp://`;
    /// otherwise explains why not.
    pub fn validate(&self) -> (r: Result<(), String>)
        ensures
            r is Ok <==> has_prefix(self.zmq.endpoint@, zmq_scheme()),
            r matches Err(e) ==> e@ == "ZMQ endpoint should starts with tcp://"@,
    {
        if !starts_with(self.zmq.endpoint.as_str(), "tcp://") {
            return Err(owned("ZMQ endpoint should starts with tcp://"));
        }
        Ok(())
    }
}

} // verus!
