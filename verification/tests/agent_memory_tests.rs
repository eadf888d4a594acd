use fcore::agent::{
    connections_answer, forget_removed, reset_outcome, restore_plan, start_plan, store_wireguard_connection,
    store_xray_connection, try_start_plan, wireguard_peer_created, wireguard_peer_decision, NodeType, RestoreStep,
};
use fcore::connection::{Connection, ConnectionStat, Proto, WgKeys, WgParam};
use fcore::net::IpMask;
use fcore::node::{Inbound, Node, NodeStatus};
use fcore::provision::{record_addition, record_removal, LegacyTag, UserProtos};
use fcore::store::ConnectionStore;
use fcore::tag::ProtoTag;

const ID: u128 = 0x0123_4567_89ab_cdef_0011_2233_4455_6677;

fn keys() -> WgParam {
    WgParam { keys: WgKeys { privkey: "sk".into(), pubkey: "pk".into() }, address: IpMask::new(0x0A00_0002, 32) }
}

#[test]
fn xray_creation_stores_only_after_success() {
    let mut mem = ConnectionStore::new();
    let r = store_xray_connection(&mut mem, ID, ProtoTag::Vmess, None, Some(9), Some(2), "dev".into(), 5, Err("boom".into()));
    assert_eq!(r, Err("Failed to create conn 01234567-89ab-cdef-0011-223344556677: boom".to_string()));
    assert_eq!(mem.len(), 0);
    assert!(store_xray_connection(&mut mem, ID, ProtoTag::Vmess, None, Some(9), Some(2), "dev".into(), 5, Ok(())).is_ok());
    let c = mem.get(ID).unwrap();
    assert_eq!((c.expires_at, c.subscription_id, c.created_at), (Some(9), Some(2), 5));
    assert_eq!(c.proto.proto(), ProtoTag::Vmess);
}

#[test]
fn wireguard_creation_stores_first_then_checks_the_interface() {
    let mut mem = ConnectionStore::new();
    let r = store_wireguard_connection(&mut mem, ID, keys(), 7, None, None, "dev".into(), 1, false);
    assert_eq!(r, Err("WireGuard API is unavailable".to_string()));
    assert_eq!(mem.get(ID).unwrap().get_wireguard_node_id(), Some(7));
    let mut mem2 = ConnectionStore::new();
    assert!(store_wireguard_connection(&mut mem2, ID, keys(), 7, None, None, "dev".into(), 1, true).is_ok());
    assert_eq!(wireguard_peer_decision(true), Err("WG User already exist".to_string()));
    assert!(wireguard_peer_decision(false).is_ok());
    assert_eq!(wireguard_peer_created(Err("busy".into())), Err("Failed to create WireGuard peer: busy".to_string()));
    assert!(wireguard_peer_created(Ok(())).is_ok());
}

#[test]
fn deletion_forgets_only_after_the_tool_removed_it() {
    let mut mem = ConnectionStore::new();
    store_xray_connection(&mut mem, 1, ProtoTag::Vmess, None, None, None, "dev".into(), 0, Ok(())).unwrap();
    store_xray_connection(&mut mem, 2, ProtoTag::Vmess, None, None, None, "dev".into(), 0, Ok(())).unwrap();
    assert_eq!(forget_removed(&mut mem, 1, ProtoTag::Vmess, Err("x".into())), Err("Couldn't remove connection from Xray: x".to_string()));
    assert_eq!(mem.len(), 2);
    assert_eq!(forget_removed(&mut mem, 1, ProtoTag::Wireguard, Err("y".into())), Err("Failed to delete WireGuard peer: y".to_string()));
    assert!(forget_removed(&mut mem, 1, ProtoTag::Vmess, Ok(())).is_ok());
    assert!(!mem.contains(1));
    assert!(mem.contains(2));
    assert_eq!(reset_outcome(Err("z".into())), Err("Couldn't reset stat: z".to_string()));
}

#[test]
fn start_plan_follows_the_settings() {
    let p = start_plan(true, true, false, true, false, true);
    assert_eq!(p.node_type, NodeType::Xray);
    assert!(!p.register);
    assert!(p.metrics && !p.stats && p.debug && p.xray && !p.wireguard);
    assert!(start_plan(false, true, true, false, true, false).register);
    assert_eq!(start_plan(false, false, true, false, false, false).node_type, NodeType::Wireguard);
    assert!(try_start_plan(false, false, false, true, true, true).is_none());
    assert_eq!(try_start_plan(true, true, true, false, false, false).unwrap().node_type, NodeType::All);
}

#[test]
fn connection_answers_need_a_count() {
    assert!(connections_answer(200, Some(3)).is_ok());
    assert_eq!(connections_answer(200, None), Err("Unexpected instance type".to_string()));
    assert!(connections_answer(304, None).is_ok());
    assert!(connections_answer(500, Some(1)).is_err());
}

#[test]
fn empty_snapshot_is_refused() {
    let mut mem = ConnectionStore::new();
    assert_eq!(restore_plan(&mem, true, true).unwrap_err(), "Empty snapshot");
    mem.add(3, Connection::new("dev", None, ConnectionStat::zero(), Proto::Shadowsocks { password: "pw".into() }, None, 0));
    mem.add(4, Connection::new("dev", None, ConnectionStat::zero(), Proto::Hysteria2 { token: 1 }, None, 0));
    let plan = restore_plan(&mem, true, false).unwrap();
    assert_eq!(plan.len(), 2);
    assert!(matches!(plan[0], (3, RestoreStep::XrayUser { tag: ProtoTag::Shadowsocks, .. })));
    assert!(matches!(plan[1], (4, RestoreStep::Skip)));
}

#[test]
fn protocols_are_recorded_only_when_added() {
    let mut p = UserProtos::new();
    record_addition(&mut p, LegacyTag::Vmess, false);
    assert!(!p.holds(LegacyTag::Vmess));
    record_addition(&mut p, LegacyTag::Vmess, true);
    assert!(p.holds(LegacyTag::Vmess));
    record_removal(&mut p, LegacyTag::Vmess, false);
    assert!(p.holds(LegacyTag::Vmess));
    record_removal(&mut p, LegacyTag::Vmess, true);
    assert!(!p.holds(LegacyTag::Vmess));
}

#[test]
fn readings_update_counters() {
    let mut mem = ConnectionStore::new();
    mem.add(1, Connection::new("dev", None, ConnectionStat::zero(), Proto::Xray(ProtoTag::Vmess), None, 0));
    mem.add(2, Connection::new("dev", None, ConnectionStat::zero(), Proto::Xray(ProtoTag::Vmess), None, 0));
    let st = ConnectionStat { online: 1, uplink: 2, downlink: 3 };
    mem.apply_readings(&vec![(1, Some(st)), (2, None), (9, Some(st))]);
    assert_eq!(mem.get(1).unwrap().stat, st);
    assert_eq!(mem.get(2).unwrap().stat, ConnectionStat::zero());
    assert_eq!(mem.len(), 2);

    let mut node = Node {
        uuid: 1,
        env: "dev".into(),
        hostname: "h".into(),
        address: 1,
        inbounds: vec![Inbound { tag: ProtoTag::Vmess, port: 1, uplink: None, downlink: None, conn_count: None, wg: None }],
        status: NodeStatus::Online,
        created_at: 0,
        modified_at: 0,
        label: "l".into(),
        interface: "eth0".into(),
        cores: 1,
        max_bandwidth_bps: 1,
    };
    node.apply_inbound_reading(ProtoTag::Vmess, 10, 20, 3);
    assert_eq!((node.inbounds[0].downlink, node.inbounds[0].uplink, node.inbounds[0].conn_count), (Some(10), Some(20), Some(3)));
    node.apply_inbound_reading(ProtoTag::Wireguard, 1, 1, 1);
    assert_eq!(node.inbounds.len(), 1);
}

#[test]
fn shadowsocks_creation_stores_the_password() {
    let mut mem = ConnectionStore::new();
    store_xray_connection(&mut mem, 4, ProtoTag::Shadowsocks, Some("pw".into()), None, None, "dev".into(), 0, Ok(())).unwrap();
    assert_eq!(mem.get(4).unwrap().get_password(), Some("pw".to_string()));
}

#[test]
fn peer_readings_set_only_traffic() {
    let mut mem = ConnectionStore::new();
    mem.add(1, Connection::new("dev", None, ConnectionStat { online: 4, uplink: 0, downlink: 0 }, Proto::Xray(ProtoTag::Vmess), None, 0));
    assert!(mem.set_traffic(1, 10, 20));
    assert_eq!(mem.get(1).unwrap().stat, ConnectionStat { online: 4, uplink: 10, downlink: 20 });
    assert!(!mem.set_traffic(2, 1, 1));
}
