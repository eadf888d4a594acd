use fcore::connection::{Connection, ConnectionStat, Proto, WgKeys, WgParam};
use fcore::net::IpMask;
use fcore::node::{Inbound, Node, NodeStatus, WgSettings};
use fcore::planner::{next_peer_address, plan_connection, plan_preconditions_hold, try_plan_connection, CreateError, ProtoPlan};
use fcore::request::ConnCreateRequest;
use fcore::store::ConnectionStore;
use fcore::subscription::{Subscription, SubscriptionStore};
use fcore::tag::ProtoTag;

fn wg_inbound(address: u32, network: IpMask) -> Inbound {
    Inbound {
        tag: ProtoTag::Wireguard,
        port: 51820,
        uplink: None,
        downlink: None,
        conn_count: None,
        wg: Some(WgSettings {
            pubkey: "srvpub".into(),
            privkey: "srvpriv".into(),
            interface: "wg0".into(),
            network,
            address,
            port: 51820,
            dns: vec![0x0101_0101],
        }),
    }
}

fn node(uuid: u128, env: &str, inbounds: Vec<Inbound>) -> Node {
    Node {
        uuid,
        env: env.into(),
        hostname: "h".into(),
        address: 0x0102_0304,
        inbounds,
        status: NodeStatus::Online,
        created_at: 0,
        modified_at: 0,
        label: "l".into(),
        interface: "eth0".into(),
        cores: 2,
        max_bandwidth_bps: 1000,
    }
}

fn request(proto: ProtoTag) -> ConnCreateRequest {
    ConnCreateRequest { env: "dev".into(), token: None, password: None, subscription_id: None, proto, wg: None, node_id: None, days: None }
}

fn peer(addr: u32, cidr: u8) -> WgParam {
    WgParam { keys: WgKeys { privkey: "p".into(), pubkey: "q".into() }, address: IpMask::new(addr, cidr) }
}

fn stored_peer(node: u128, addr: u32) -> Connection {
    Connection::new("dev", None, ConnectionStat::zero(), Proto::Wireguard { param: peer(addr, 32), node_id: node }, None, 0)
}

fn net10() -> IpMask {
    IpMask::new(0x0A00_0000, 8)
}

fn plan(req: ConnCreateRequest, nodes: &Vec<Node>, store: &ConnectionStore, least: Option<u128>) -> Result<fcore::planner::ConnPlan, CreateError> {
    let subs = SubscriptionStore::new();
    assert!(plan_preconditions_hold(&req, &subs, 1_000));
    plan_connection(req, &subs, nodes, store, least, 1_000)
}

#[test]
fn generated_peer_goes_past_every_stored_address() {
    let nodes = vec![node(1, "dev", vec![wg_inbound(0x0A00_0001, net10())])];
    let mut store = ConnectionStore::new();
    store.add(10, stored_peer(1, 0x0A00_0007));
    store.add(11, stored_peer(2, 0x0A00_0003));
    let mut req = request(ProtoTag::Wireguard);
    req.node_id = Some(1);
    match plan(req, &nodes, &store, None).unwrap().proto {
        ProtoPlan::NewWireguardPeer { address, node_id } => {
            assert_eq!(node_id, 1);
            assert_eq!((address.addr, address.cidr), (0x0A00_0008, 32));
            assert!(!store.wireguard_address_taken(1, address.addr));
        }
        other => panic!("unexpected plan {:?}", other),
    }
}

#[test]
fn first_generated_peer_is_two_past_the_inbound_address() {
    let nodes = vec![node(1, "dev", vec![wg_inbound(0x0A00_0001, net10())])];
    let store = ConnectionStore::new();
    let req = request(ProtoTag::Wireguard);
    match plan(req, &nodes, &store, Some(1)).unwrap().proto {
        ProtoPlan::NewWireguardPeer { address, .. } => assert_eq!(address.addr, 0x0A00_0003),
        other => panic!("unexpected plan {:?}", other),
    }
    assert_eq!(next_peer_address(None, None), None);
    assert_eq!(next_peer_address(Some(u32::MAX), Some(5)), Some(7));
    assert_eq!(next_peer_address(Some(u32::MAX), Some(u32::MAX)), None);
}

#[test]
fn given_peer_is_checked_for_collisions_and_network() {
    let nodes = vec![node(1, "dev", vec![wg_inbound(0x0A00_0001, net10())])];
    let mut store = ConnectionStore::new();
    store.add(10, stored_peer(1, 0x0A00_0007));

    let mut taken = request(ProtoTag::Wireguard);
    taken.node_id = Some(1);
    taken.wg = Some(peer(0x0A00_0007, 32));
    let e = plan(taken, &nodes, &store, None).unwrap_err();
    assert!(matches!(e, CreateError::AddressTaken));
    assert_eq!(e.status(), 409);

    let mut outside = request(ProtoTag::Wireguard);
    outside.node_id = Some(1);
    outside.wg = Some(peer(0x0B00_0001, 32));
    assert!(matches!(plan(outside, &nodes, &store, None).unwrap_err(), CreateError::AddressOutOfNetmask(_)));

    let mut bad_cidr = request(ProtoTag::Wireguard);
    bad_cidr.node_id = Some(1);
    bad_cidr.wg = Some(peer(0x0A00_0009, 40));
    assert!(matches!(plan(bad_cidr, &nodes, &store, None).unwrap_err(), CreateError::InvalidCidr));

    let mut ok = request(ProtoTag::Wireguard);
    ok.node_id = Some(1);
    ok.wg = Some(peer(0x0A00_0009, 32));
    match plan(ok, &nodes, &store, None).unwrap().proto {
        ProtoPlan::Given(Proto::Wireguard { param, node_id }) => {
            assert_eq!(node_id, 1);
            assert_eq!(param.address.addr, 0x0A00_0009);
        }
        other => panic!("unexpected plan {:?}", other),
    }
}

#[test]
fn node_choice_errors() {
    let nodes = vec![node(1, "dev", vec![wg_inbound(0x0A00_0001, net10())]), node(2, "ru", vec![])];
    let store = ConnectionStore::new();
    let mut other_env = request(ProtoTag::Wireguard);
    other_env.node_id = Some(2);
    assert!(matches!(plan(other_env, &nodes, &store, None).unwrap_err(), CreateError::NodeMismatch));
    let e = plan(request(ProtoTag::Wireguard), &nodes, &store, None).unwrap_err();
    assert!(matches!(e, CreateError::NoNodeAvailable));
    assert_eq!(e.status(), 404);
    let e = plan(request(ProtoTag::Wireguard), &nodes, &store, Some(5)).unwrap_err();
    assert!(matches!(e, CreateError::NodeNotFound));
    let e = plan(request(ProtoTag::Wireguard), &nodes, &store, Some(2)).unwrap_err();
    assert!(matches!(e, CreateError::InboundNotFound));
}

#[test]
fn generation_errors() {
    let mut no_settings = wg_inbound(0x0A00_0001, net10());
    no_settings.wg = None;
    let nodes = vec![node(1, "dev", vec![no_settings])];
    let store = ConnectionStore::new();
    assert!(matches!(plan(request(ProtoTag::Wireguard), &nodes, &store, Some(1)).unwrap_err(), CreateError::WireguardSettingsMissing));

    let nodes = vec![node(1, "dev", vec![wg_inbound(u32::MAX, net10())])];
    assert!(matches!(plan(request(ProtoTag::Wireguard), &nodes, &store, Some(1)).unwrap_err(), CreateError::IpGenerationFailed));

    let nodes = vec![node(1, "dev", vec![wg_inbound(0x0A00_0001, IpMask::new(0x0A00_0000, 31))])];
    let e = plan(request(ProtoTag::Wireguard), &nodes, &store, Some(1)).unwrap_err();
    assert!(matches!(e, CreateError::GeneratedOutOfNetmask(0x0A00_0003, _)));
    assert_eq!(e.status(), 400);
}

#[test]
fn other_protocols_take_their_credentials() {
    let nodes = vec![];
    let store = ConnectionStore::new();
    let mut ss = request(ProtoTag::Shadowsocks);
    ss.password = Some("pw".into());
    ss.days = Some(30);
    let p = plan(ss, &nodes, &store, None).unwrap();
    assert_eq!(p.expires_at, Some(1_000 + 30 * 86_400));
    assert!(matches!(p.proto, ProtoPlan::Given(Proto::Shadowsocks { .. })));
    let mut hy = request(ProtoTag::Hysteria2);
    hy.token = Some(9);
    assert!(matches!(plan(hy, &nodes, &store, None).unwrap().proto, ProtoPlan::Given(Proto::Hysteria2 { token: 9 })));
    let p = plan(request(ProtoTag::Vmess), &nodes, &store, None).unwrap();
    assert!(matches!(p.proto, ProtoPlan::Given(Proto::Xray(ProtoTag::Vmess))));
    assert_eq!(p.expires_at, None);
}

#[test]
fn invalid_requests_and_unknown_subscriptions_are_refused() {
    let nodes = vec![];
    let store = ConnectionStore::new();
    match plan(request(ProtoTag::Mtproto), &nodes, &store, None).unwrap_err() {
        CreateError::Invalid(m) => assert_eq!(m, "Mtproto is not supported for Connection"),
        other => panic!("unexpected error {:?}", other),
    }
    let mut both = request(ProtoTag::Shadowsocks);
    both.password = Some("a".into());
    both.token = Some(1);
    match plan(both, &nodes, &store, None).unwrap_err() {
        CreateError::Invalid(m) => assert_eq!(m, "Cannot specify both token and password"),
        other => panic!("unexpected error {:?}", other),
    }
    let mut subs = SubscriptionStore::new();
    subs.add(Subscription::new(3, None, "code".into(), None));
    let mut req = request(ProtoTag::Vmess);
    req.subscription_id = Some(4);
    assert!(matches!(plan_connection(req, &subs, &nodes, &store, None, 0).unwrap_err(), CreateError::SubscriptionNotFound(4)));
    let mut req = request(ProtoTag::Vmess);
    req.subscription_id = Some(3);
    assert!(plan_connection(req, &subs, &nodes, &store, None, 0).is_ok());
}

#[test]
fn preconditions_catch_missing_credentials_and_far_expiry() {
    let subs = SubscriptionStore::new();
    assert!(!plan_preconditions_hold(&request(ProtoTag::Shadowsocks), &subs, 0));
    assert!(!plan_preconditions_hold(&request(ProtoTag::Hysteria2), &subs, 0));
    let mut far = request(ProtoTag::Vmess);
    far.days = Some(10);
    assert!(!plan_preconditions_hold(&far, &subs, i64::MAX - 10));
    assert!(plan_preconditions_hold(&far, &subs, 0));
    assert!(plan_preconditions_hold(&request(ProtoTag::Mtproto), &subs, 0));
}

#[test]
fn unknown_subscription_is_refused_before_credentials_are_needed() {
    let subs = SubscriptionStore::new();
    let mut req = request(ProtoTag::Shadowsocks);
    req.subscription_id = Some(0x0011_2233_4455_6677_8899_aabb_ccdd_eeff);
    assert!(plan_preconditions_hold(&req, &subs, 0));
    let store = ConnectionStore::new();
    let e = try_plan_connection(req, &subs, &vec![], &store, None, 0).expect("preconditions hold").unwrap_err();
    assert_eq!(e.message(), "Subscription 00112233-4455-6677-8899-aabbccddeeff not found");
    assert_eq!(e.status(), 400);
    assert!(try_plan_connection(request(ProtoTag::Hysteria2), &subs, &vec![], &store, None, 0).is_none());
}

#[test]
fn error_messages() {
    let net = IpMask::new(0x0A00_0000, 8);
    assert_eq!(CreateError::AddressOutOfNetmask(net).message(), "Address out of node netmask 10.0.0.0/8");
    assert_eq!(
        CreateError::GeneratedOutOfNetmask(0xC0A8_0102, net).message(),
        "Generated address 192.168.1.2 is out of node netmask 10.0.0.0/8"
    );
    assert_eq!(CreateError::NoNodeAvailable.message(), "Node not found for  WireGuard connection");
    assert_eq!(CreateError::InvalidCidr.message(), "Invalid CIDR: must be 0..=32");
    assert_eq!(CreateError::AddressTaken.message(), "Address already taken for this node_id");
    assert_eq!(CreateError::Invalid("bad".into()).message(), "bad");
    assert_eq!(fcore::net::ipv4_string(u32::MAX), "255.255.255.255");
    assert_eq!(fcore::net::ipv4_string(0), "0.0.0.0");
}
