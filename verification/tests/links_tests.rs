use fcore::connection::{Connection, ConnectionStat, Proto};
use fcore::links::{subscription_info, subscription_connections, link_reply_head, join_lines, link_format, subscription_body, subscription_link_targets, subscription_locations, LinkError, LinkFormat, LinkTarget};
use fcore::node::{Inbound, Node, NodeStatus};
use fcore::store::ConnectionStore;
use fcore::subscription::{Subscription, SubscriptionStore};
use fcore::tag::{ProtoTag, TagReq};

fn inbound(tag: ProtoTag) -> Inbound {
    Inbound { tag, port: 443, uplink: None, downlink: None, conn_count: None, wg: None }
}

fn node(uuid: u128, env: &str, tags: &[ProtoTag]) -> Node {
    Node {
        uuid,
        env: env.into(),
        hostname: "h".into(),
        address: 1,
        inbounds: tags.iter().map(|t| inbound(*t)).collect(),
        status: NodeStatus::Online,
        created_at: 0,
        modified_at: 0,
        label: "l".into(),
        interface: "eth0".into(),
        cores: 1,
        max_bandwidth_bps: 1,
    }
}

fn conn(env: &str, sub: u128, proto: Proto) -> Connection {
    Connection::new(env, Some(sub), ConnectionStat::zero(), proto, None, 0)
}

#[test]
fn link_format_names() {
    assert_eq!(link_format("clash"), LinkFormat::Clash);
    assert_eq!(link_format("txt"), LinkFormat::Text);
    assert_eq!(link_format("plain"), LinkFormat::Base64);
    assert_eq!(link_format(""), LinkFormat::Base64);
}

#[test]
fn bodies_join_lines_and_encode() {
    let links = vec!["vless://a".to_string(), "ss://b".to_string()];
    assert_eq!(join_lines(&links), "vless://a\nss://b");
    assert_eq!(join_lines(&vec![]), "");
    assert_eq!(subscription_body(LinkFormat::Text, &links), "vless://a\nss://b");
    assert_eq!(subscription_body(LinkFormat::Base64, &links), "dmxlc3M6Ly9hCnNzOi8vYg==\n");
    assert_eq!(subscription_body(LinkFormat::Base64, &vec!["ab".to_string()]), "YWI=\n");
}

#[test]
fn link_targets_cover_every_serving_node() {
    let mut subs = SubscriptionStore::new();
    subs.add(Subscription::new(7, None, "c".into(), None));
    let mut store = ConnectionStore::new();
    store.add(1, conn("dev", 7, Proto::Xray(ProtoTag::VlessTcpReality)));
    store.add(2, conn("ru", 7, Proto::Xray(ProtoTag::VlessTcpReality)));
    store.add(3, conn("dev", 7, Proto::Hysteria2 { token: 4 }));
    store.add(4, conn("dev", 8, Proto::Xray(ProtoTag::VlessTcpReality)));
    let nodes = vec![
        node(100, "dev", &[ProtoTag::Hysteria2, ProtoTag::VlessTcpReality]),
        node(101, "ru", &[ProtoTag::VlessTcpReality]),
        node(102, "dev", &[ProtoTag::VlessTcpReality]),
    ];
    let t = subscription_link_targets(&subs, &store, &nodes, 7, "dev", TagReq::Xray, 0).unwrap();
    assert_eq!(t, vec![LinkTarget { conn_id: 1, node: 0, inbound: 1 }, LinkTarget { conn_id: 1, node: 2, inbound: 0 }]);
    let h = subscription_link_targets(&subs, &store, &nodes, 7, "dev", TagReq::Hysteria2, 0).unwrap();
    assert_eq!(h, vec![LinkTarget { conn_id: 3, node: 0, inbound: 0 }]);
    assert_eq!(subscription_link_targets(&subs, &store, &nodes, 7, "dev", TagReq::Wireguard, 0), Err(LinkError::NoTargets));
}

#[test]
fn expired_subscriptions_get_no_link() {
    let mut subs = SubscriptionStore::new();
    subs.add(Subscription::new(7, None, "c".into(), Some(10)));
    let mut store = ConnectionStore::new();
    store.add(1, conn("dev", 7, Proto::Xray(ProtoTag::VlessTcpReality)));
    let nodes = vec![node(100, "dev", &[ProtoTag::VlessTcpReality])];
    assert_eq!(subscription_link_targets(&subs, &store, &nodes, 7, "dev", TagReq::Xray, 20), Err(LinkError::Expired));
    assert!(subscription_link_targets(&subs, &store, &nodes, 7, "dev", TagReq::Xray, 5).is_ok());
}

#[test]
fn locations_list_each_environment_once() {
    let mut store = ConnectionStore::new();
    store.add(1, conn("dev", 7, Proto::Xray(ProtoTag::VlessGrpcReality)));
    store.add(2, conn("ru", 7, Proto::Hysteria2 { token: 1 }));
    store.add(3, conn("dev", 7, Proto::Hysteria2 { token: 2 }));
    store.add(4, conn("wl", 8, Proto::Xray(ProtoTag::VlessGrpcReality)));
    let nodes = vec![node(1, "dev", &[ProtoTag::VlessTcpReality]), node(2, "ru", &[ProtoTag::Hysteria2])];
    let locs = subscription_locations(&store, &nodes, 7);
    assert_eq!(locs.len(), 2);
    assert_eq!((locs[0].env.as_str(), locs[0].has_xray, locs[0].has_hysteria), ("dev", true, false));
    assert_eq!((locs[1].env.as_str(), locs[1].has_xray, locs[1].has_hysteria), ("ru", false, true));
}

#[test]
fn subscription_info_describes_a_stored_subscription() {
    let mut subs = SubscriptionStore::new();
    subs.add(Subscription::new(7, None, "REF".into(), Some(3 * 86_400 + 5)));
    subs.add(Subscription::new(8, Some("REF".into()), "X".into(), None));
    let mut store = ConnectionStore::new();
    store.add(1, conn("dev", 7, Proto::Xray(ProtoTag::VlessTcpReality)));
    let nodes = vec![node(1, "dev", &[ProtoTag::VlessTcpReality])];
    let info = subscription_info(&subs, &store, &nodes, 7, 0).expect("stored");
    assert_eq!((info.id, info.expires, info.days, info.ref_code.as_str(), info.invited_count), (7, 3 * 86_400 + 5, 3, "REF", 1));
    assert_eq!(info.locations.len(), 1);
    assert!(info.locations[0].has_xray);
    let open = subscription_info(&subs, &store, &nodes, 8, 0).expect("stored");
    assert_eq!((open.expires, open.days, open.locations.len()), (0, 0, 0));
    assert!(subscription_info(&subs, &store, &nodes, 9, 0).is_none());
}

#[test]
fn link_replies_and_subscription_connections() {
    let sub: u128 = 0x0123_4567_89ab_cdef_0011_2233_4455_6677;
    assert_eq!(link_reply_head(sub, &Err(LinkError::Expired), LinkFormat::Text), (404, "Subscription 01234567-89ab-cdef-0011-223344556677  are expired".to_string()));
    assert_eq!(link_reply_head(sub, &Err(LinkError::NoTargets), LinkFormat::Base64), (404, "Nodes for subscription 01234567-89ab-cdef-0011-223344556677  are not found".to_string()));
    assert_eq!(link_reply_head(sub, &Ok(vec![]), LinkFormat::Clash), (200, "application/yaml".to_string()));
    assert_eq!(link_reply_head(sub, &Ok(vec![]), LinkFormat::Text), (200, "text/plain".to_string()));

    let mut subs = SubscriptionStore::new();
    subs.add(Subscription::new(7, None, "c".into(), None));
    let mut store = ConnectionStore::new();
    store.add(1, conn("dev", 7, Proto::Xray(ProtoTag::Vmess)));
    store.add(2, conn("ru", 7, Proto::Xray(ProtoTag::Vmess)));
    assert_eq!(subscription_connections(&subs, &store, 7, &None), Ok(vec![1]));
    assert_eq!(subscription_connections(&subs, &store, 7, &Some("ru".into())), Ok(vec![2]));
    assert_eq!(subscription_connections(&subs, &store, 7, &Some("wl".into())).unwrap_err().1, "Connections 00000000-0000-0000-0000-000000000007  are not found");
    assert_eq!(subscription_connections(&subs, &store, 8, &None).unwrap_err(), (404, "Subscription 00000000-0000-0000-0000-000000000008  is not found".to_string()));
}
