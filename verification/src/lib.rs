//! Control-plane logic of a cluster of proxy nodes (Xray, Shadowsocks,
//! Hysteria2, WireGuard): configuration, connection and subscription
//! bookkeeping, address allocation for WireGuard peers, node health and the
//! decisions that the agent and the API service take on each message.
pub mod text;
pub mod tag;
pub mod appconfig;
pub mod net;
pub mod connection;
pub mod store;
pub mod node;
pub mod subscription;
pub mod request;
pub mod planner;
pub mod agent;
pub mod codec;
pub mod links;
pub mod sync;
pub mod service_config;
pub mod xray_proto;
pub mod clickhouse_store;
pub mod node_rows;
pub mod param;
pub mod keys;
pub mod debug;
pub mod provision;
