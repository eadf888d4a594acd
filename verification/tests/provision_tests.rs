use fcore::node::{Inbound, Node, NodeStatus};
use fcore::provision::{missing_protocols, needs_adding, provisioning_order, removal_order, LegacyTag, UserProtos};
use fcore::tag::ProtoTag;

fn node(env: &str, status: NodeStatus, tags: &[ProtoTag]) -> Node {
    Node {
        uuid: 1,
        env: env.into(),
        hostname: "h".into(),
        address: 1,
        inbounds: tags
            .iter()
            .map(|t| Inbound { tag: *t, port: 1, uplink: None, downlink: None, conn_count: None, wg: None })
            .collect(),
        status,
        created_at: 0,
        modified_at: 0,
        label: "l".into(),
        interface: "eth0".into(),
        cores: 1,
        max_bandwidth_bps: 1,
    }
}

#[test]
fn provisioning_covers_shadowsocks_only_with_a_password() {
    assert_eq!(provisioning_order(false), vec![LegacyTag::Vmess, LegacyTag::VlessXtls, LegacyTag::VlessGrpc]);
    assert_eq!(provisioning_order(true), vec![LegacyTag::Vmess, LegacyTag::VlessXtls, LegacyTag::VlessGrpc, LegacyTag::Shadowsocks]);
    assert_eq!(removal_order().len(), 4);
}

#[test]
fn addition_is_due_when_the_lookup_lists_a_user_without_email() {
    assert!(needs_adding(&Some(vec!["a@b".to_string(), String::new()])));
    assert!(!needs_adding(&Some(vec!["a@b".to_string()])));
    assert!(!needs_adding(&Some(vec![])));
    assert!(!needs_adding(&None));
}

#[test]
fn recorded_protocols_behave_as_a_set() {
    let mut p = UserProtos::new();
    assert!(!p.holds(LegacyTag::Vmess));
    p.add_proto(LegacyTag::Vmess);
    p.add_proto(LegacyTag::Vmess);
    p.add_proto(LegacyTag::Shadowsocks);
    assert!(p.holds(LegacyTag::Vmess));
    p.remove_proto(LegacyTag::Vmess);
    assert!(!p.holds(LegacyTag::Vmess));
    assert!(p.holds(LegacyTag::Shadowsocks));
    p.remove_proto(LegacyTag::VlessGrpc);
    assert!(p.holds(LegacyTag::Shadowsocks));
}

#[test]
fn missing_protocols_are_those_offered_online_and_not_held() {
    let nodes = vec![
        node("dev", NodeStatus::Online, &[ProtoTag::Vmess, ProtoTag::Shadowsocks]),
        node("dev", NodeStatus::Offline, &[ProtoTag::Hysteria2]),
        node("dev", NodeStatus::Online, &[ProtoTag::Vmess, ProtoTag::Wireguard]),
        node("ru", NodeStatus::Online, &[ProtoTag::Mtproto]),
    ];
    let held = vec![ProtoTag::Shadowsocks];
    assert_eq!(missing_protocols(&nodes, "dev", &held), Some(vec![ProtoTag::Vmess, ProtoTag::Wireguard]));
    assert_eq!(missing_protocols(&nodes, "ru", &vec![]), Some(vec![ProtoTag::Mtproto]));
    assert_eq!(missing_protocols(&nodes, "wl", &vec![]), None);
    let offline_only = vec![node("dev", NodeStatus::Offline, &[ProtoTag::Vmess])];
    assert_eq!(missing_protocols(&offline_only, "dev", &vec![]), Some(vec![]));
}
