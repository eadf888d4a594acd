use fcore::connection::{WgKeys, WgParam};
use fcore::net::IpMask;
use fcore::node::{find_inbound, heartbeat_status, is_blank, status_change, HealthError, Inbound, Node, NodeStatus, StatusChange, SyncError};
use fcore::node_rows::{nodes_from_rows, InboundRow, NodeRow};
use fcore::request::{ConnCreateRequest, NodeRequest};
use fcore::tag::ProtoTag;
use fcore::xray_proto::{ChannelConfig, Config, IpOrDomain, PortList, PortRange};

fn node(env: &str) -> Node {
    NodeRequest {
        env: env.into(),
        hostname: "h".into(),
        address: 7,
        inbounds: vec![],
        uuid: 3,
        label: "l".into(),
        interface: "eth0".into(),
        cores: 4,
        max_bandwidth_bps: 100,
    }
    .as_node(55)
}

#[test]
fn registration_makes_an_online_node() {
    let n = node("dev");
    assert_eq!(n.status, NodeStatus::Online);
    assert_eq!((n.created_at, n.modified_at, n.uuid, n.cores), (55, 55, 3, 4));
}

#[test]
fn node_environment_is_checked() {
    assert!(node("dev").validate().is_ok());
    assert!(matches!(node(" \t").validate(), Err(SyncError::Validation(ref m)) if m == "Environment cannot be empty"));
    assert!(matches!(node("").validate(), Err(SyncError::Validation(ref m)) if m == "Environment cannot be empty"));
    assert!(matches!(node(&"e".repeat(51)).validate(), Err(SyncError::Validation(ref m)) if m == "Environment name too long"));
    assert!(node(&"e".repeat(50)).validate().is_ok());
    assert!(matches!(node(&"é".repeat(26)).validate(), Err(SyncError::Validation(_))));
    assert!(is_blank("\u{2003}\n"));
    assert!(!is_blank(" a "));
}

#[test]
fn heartbeats_decide_the_status() {
    assert_eq!(heartbeat_status(1_000, Some(970), 30), Ok(NodeStatus::Online));
    assert_eq!(heartbeat_status(1_000, Some(969), 30), Ok(NodeStatus::Offline));
    assert_eq!(heartbeat_status(1_000, None, 30), Err(HealthError::NoHeartbeat));
    assert_eq!(heartbeat_status(1_000, Some(i64::MAX), 30), Err(HealthError::BadTimestamp(i64::MAX)));
    assert_eq!(status_change(None, NodeStatus::Online), StatusChange::Unknown);
    assert_eq!(status_change(Some(NodeStatus::Online), NodeStatus::Online), StatusChange::Unchanged);
    assert_eq!(status_change(Some(NodeStatus::Online), NodeStatus::Offline), StatusChange::Store(NodeStatus::Offline));
}

fn inbound_row(tag: ProtoTag, port: i32, uplink: Option<i64>) -> InboundRow {
    InboundRow {
        tag,
        port,
        uplink,
        downlink: None,
        conn_count: None,
        wg_pubkey: None,
        wg_privkey: None,
        wg_interface: None,
        wg_network: None,
        wg_address: None,
        dns: None,
    }
}

fn row(node_id: u128, env: &str, address: Option<u32>, inbound: Option<InboundRow>) -> NodeRow {
    NodeRow {
        node_id,
        uuid: node_id + 100,
        env: env.into(),
        hostname: "h".into(),
        address,
        status: NodeStatus::Offline,
        created_at: 1,
        modified_at: 2,
        label: "l".into(),
        interface: "eth0".into(),
        cores: 8,
        max_bandwidth_bps: 10,
        inbound,
    }
}

#[test]
fn joined_rows_group_into_nodes() {
    let mut wg = inbound_row(ProtoTag::Wireguard, 51820, None);
    wg.wg_pubkey = Some("pk".into());
    wg.wg_privkey = Some("sk".into());
    wg.wg_interface = Some("wg0".into());
    wg.wg_network = Some(IpMask::new(0x0A00_0000, 8));
    wg.wg_address = Some(0x0A00_0001);
    wg.dns = Some(vec![0x0101_0101]);
    let rows = vec![
        row(1, "dev", Some(10), Some(inbound_row(ProtoTag::Vmess, 443, Some(5)))),
        row(2, "ru", None, Some(inbound_row(ProtoTag::Vmess, 443, None))),
        row(3, "wl", Some(30), None),
        row(1, "ignored", Some(99), Some(wg)),
        row(1, "dev", Some(10), Some(inbound_row(ProtoTag::Vmess, 8443, Some(6)))),
    ];
    let nodes = nodes_from_rows(rows);
    assert_eq!(nodes.len(), 2);
    assert_eq!((nodes[0].uuid, nodes[0].env.as_str(), nodes[0].address, nodes[0].cores), (101, "dev", 10, 8));
    assert_eq!(nodes[0].inbounds.len(), 2);
    assert_eq!((nodes[0].inbounds[0].tag, nodes[0].inbounds[0].port, nodes[0].inbounds[0].uplink), (ProtoTag::Vmess, 8443, Some(6)));
    let w = nodes[0].inbounds[1].wg.as_ref().expect("complete WireGuard settings");
    assert_eq!((w.address, w.port, w.network.cidr), (0x0A00_0001, 51820, 8));
    assert_eq!((nodes[1].uuid, nodes[1].inbounds.len()), (103, 0));
    assert_eq!(find_inbound(&nodes[0].inbounds, ProtoTag::Wireguard), Some(1));
}

#[test]
fn incomplete_wireguard_columns_give_no_settings() {
    let mut partial = inbound_row(ProtoTag::Wireguard, 51820, None);
    partial.wg_pubkey = Some("pk".into());
    let nodes = nodes_from_rows(vec![row(1, "dev", Some(1), Some(partial))]);
    assert!(nodes[0].inbounds[0].wg.is_none());
}

#[test]
fn connection_requests_are_validated() {
    let base = ConnCreateRequest { env: "dev".into(), token: None, password: None, subscription_id: None, proto: ProtoTag::Vmess, wg: None, node_id: None, days: None };
    assert!(base.validate().is_ok());
    let mut r = ConnCreateRequest { node_id: Some(1), ..base };
    assert_eq!(r.validate(), Err("node_id only allowed for Wireguard".to_string()));
    r.node_id = None;
    r.password = Some("p".into());
    assert_eq!(r.validate(), Err("Password only allowed for Shadowsocks".to_string()));
    r.password = None;
    r.token = Some(1);
    assert_eq!(r.validate(), Err("Token only allowed for Hysteria2".to_string()));
}

#[test]
fn xray_messages_default_to_empty() {
    assert_eq!(Config::default(), Config {});
    assert_eq!(ChannelConfig::default(), ChannelConfig { blocking: false, subscriber_limit: 0, buffer_size: 0 });
    assert_eq!(IpOrDomain::default().address, None);
    assert_eq!(PortRange::default(), PortRange { from: 0, to: 0 });
    assert!(PortList::default().range.is_empty());
    let _unused: Inbound = Inbound { tag: ProtoTag::Vmess, port: 1, uplink: None, downlink: None, conn_count: None, wg: None };
}

#[test]
fn wireguard_parameters_are_checked_against_other_credentials() {
    let wg = || WgParam { keys: WgKeys { privkey: "a".into(), pubkey: "b".into() }, address: IpMask::new(1, 32) };
    let base = || ConnCreateRequest { env: "dev".into(), token: None, password: None, subscription_id: None, proto: ProtoTag::Wireguard, wg: Some(wg()), node_id: None, days: None };
    assert!(base().validate().is_ok());
    let with_password = ConnCreateRequest { password: Some("p".into()), ..base() };
    assert_eq!(with_password.validate(), Err("Cannot specify both password and wg".to_string()));
    let with_token = ConnCreateRequest { token: Some(1), ..base() };
    assert_eq!(with_token.validate(), Err("Cannot specify both token and wg".to_string()));
    let not_wg = ConnCreateRequest { proto: ProtoTag::Vmess, ..base() };
    assert_eq!(not_wg.validate(), Err("Wg params only allowed for Wireguard".to_string()));
}
