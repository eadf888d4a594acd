use fcore::appconfig::{
    default_carbon_server, default_enabled, default_env, default_file_state, default_hostname,
    default_interface, default_logfile, default_loglevel, default_metrics_delay,
    default_xray_api_endpoint, default_xray_config_path, default_xray_daily_limit_mb,
    default_zmq_endpoint, default_zmq_topic, Settings,
};
use fcore::param::{default_format, SubQueryParam};
use fcore::service_config::{
    db_sync_delay_secs, default_company_website, default_cors_origins, default_disabled,
    default_listen_address, default_log_level, default_wg_network, AgentConfig, MetricsRxConfig,
    PostgresConfig, ServiceConfig, ServiceSettings, SmtpConfig, TasksConfig,
};
use fcore::tag::{default_proto, ProtoTag, TagReq};
use fcore::text::decimal;

#[test]
fn agent_defaults_match_documented_values() {
    assert!(default_enabled());
    assert_eq!(default_env(), "dev");
    assert_eq!(default_hostname(), "localhost");
    assert_eq!(default_interface(), "ens3");
    assert_eq!(default_metrics_delay(), 1);
    assert_eq!(default_xray_daily_limit_mb(), 1000);
    assert_eq!(default_carbon_server(), "localhost:2003");
    assert_eq!(default_xray_api_endpoint(), "http://localhost:23456");
    assert_eq!(default_loglevel(), "debug");
    assert_eq!(default_logfile(), "pony.log");
    assert_eq!(default_zmq_endpoint(), "tcp://localhost:3000");
    assert_eq!(default_zmq_topic(), "dev");
    assert_eq!(default_file_state(), "users.json");
    assert_eq!(default_xray_config_path(), "xray-config.json");
    assert!(!default_disabled());
}

#[test]
fn service_defaults_match_documented_values() {
    let origins = default_cors_origins();
    assert_eq!(origins, vec!["http://localhost:3000".to_string(), "http://localhost:3001".to_string()]);
    let net = default_wg_network();
    assert_eq!((net.addr, net.cidr), (0x0A00_0000, 8));
    assert_eq!(default_listen_address(), 0x7F00_0001);
    assert_eq!(default_log_level(), "debug");
    assert_eq!(default_company_website(), "http://localhost:8080");
    assert_eq!(default_format(), "plain");
    assert_eq!(fcore::param::default_env(), "dev");
    assert_eq!(default_proto(), TagReq::Xray);
}

#[test]
fn settings_with_tcp_endpoint_are_valid() {
    let mut s = Settings::default();
    s.zmq.endpoint = "tcp://127.0.0.1:3000".to_string();
    assert!(s.validate().is_ok());
}

#[test]
fn settings_with_other_scheme_are_refused() {
    let mut s = Settings::default();
    s.zmq.endpoint = "ipc:///tmp/bus".to_string();
    assert_eq!(s.validate(), Err("ZMQ endpoint should starts with tcp://".to_string()));
    let empty = Settings::default();
    assert!(empty.validate().is_err());
}

#[test]
fn postgres_connection_line_lists_every_field() {
    let pg = PostgresConfig {
        host: "db.local".to_string(),
        port: 5432,
        db: "fcore".to_string(),
        username: "api".to_string(),
        password: "s3cret".to_string(),
    };
    assert_eq!(pg.connection_line(), "host=db.local user=api dbname=fcore password=s3cret port=5432");
    let zero = PostgresConfig::default();
    assert_eq!(zero.connection_line(), "host= user= dbname= password= port=0");
}

#[test]
fn decimal_writes_numbers_like_to_string() {
    for n in [0u64, 7, 10, 99, 100, 65535, 1234567890, u64::MAX] {
        assert_eq!(decimal(n), n.to_string());
    }
}

#[test]
fn db_sync_delay_adds_at_most_thirty_seconds() {
    for _ in 0..50 {
        let (delay, jitter) = db_sync_delay_secs(600);
        assert!(jitter <= 30);
        assert_eq!(delay, 600 + jitter);
    }
}

#[test]
fn config_structs_default_to_zero_values() {
    let a = AgentConfig::default();
    assert!(!a.local);
    assert_eq!(a.snapshot_interval, 0);
    assert!(a.snapshot_path.is_empty());
    let t = TasksConfig::default();
    assert_eq!((t.db_sync_interval_sec, t.subscription_restore_interval, t.subscription_expire_interval), (0, 0, 0));
    let m = MetricsRxConfig::default();
    assert_eq!((m.max_points, m.retention_seconds), (0, 0));
    let smtp = SmtpConfig::default();
    assert!(smtp.company_website.is_empty());
    assert_eq!(smtp.port, 0);
}

#[test]
fn service_settings_are_always_valid() {
    let settings = ServiceSettings {
        service: ServiceConfig {
            listen: default_listen_address(),
            port: 3005,
            token: "token".to_string(),
            key_sign_token: vec![1, 2, 3],
            bonus_days: 7,
            system_refer_codes: vec!["PROMO".to_string()],
            cors_origins: default_cors_origins(),
            wireguard_network: default_wg_network(),
            log_level: default_log_level(),
            updates_endpoint_zmq: "tcp://localhost:3000".to_string(),
            enabled_envs: vec!["dev".to_string()],
            enabled_tags: vec![ProtoTag::VlessTcpReality],
            trial_limit_days: 3,
            trial_limit_bytes: 1 << 30,
            subscription_title: "title".to_string(),
        },
        pg: PostgresConfig::default(),
        metrics: MetricsRxConfig::default(),
        tasks: TasksConfig::default(),
        smtp: SmtpConfig::default(),
    };
    assert!(settings.validate().is_ok());
}

#[test]
fn subscription_query_carries_its_fields() {
    let q = SubQueryParam { id: 5, format: default_format(), env: "dev".to_string(), proto: default_proto() };
    assert_eq!(q.format, "plain");
    assert_eq!(q.proto, TagReq::Xray);
}
