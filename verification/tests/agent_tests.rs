use fcore::agent::{
    accepts_topic, api_answer_accepted, api_resource_url, node_type, restore_step, step_for_message,
    tags_to_sync, worker_threads, Action, AgentStep, Message, NodeType, RestoreStep, Topic,
};
use fcore::connection::{Proto, WgKeys, WgParam};
use fcore::net::IpMask;
use fcore::tag::ProtoTag;

fn msg(action: Action, tag: ProtoTag) -> Message {
    Message { action, conn_id: 5, tag, wg: None, password: None, expires_at: Some(9), subscription_id: Some(2) }
}

fn keys() -> WgParam {
    WgParam { keys: WgKeys { privkey: "priv".into(), pubkey: "pub".into() }, address: IpMask::new(0x0A00_0002, 32) }
}

fn refusal(s: AgentStep) -> String {
    match s {
        AgentStep::Refuse(t) => t,
        other => panic!("expected a refusal, got {:?}", other),
    }
}

#[test]
fn create_messages_become_additions() {
    let mut m = msg(Action::Create, ProtoTag::Wireguard);
    m.wg = Some(keys());
    match step_for_message(m, 77, true, true) {
        AgentStep::AddWireguardPeer { conn_id, node_id, expires_at, subscription_id, param } => {
            assert_eq!((conn_id, node_id, expires_at, subscription_id), (5, 77, Some(9), Some(2)));
            assert_eq!(param.keys.pubkey, "pub");
        }
        other => panic!("unexpected step {:?}", other),
    }
    match step_for_message(msg(Action::Update, ProtoTag::Vmess), 77, true, false) {
        AgentStep::AddXrayUser { tag, password, .. } => {
            assert_eq!(tag, ProtoTag::Vmess);
            assert_eq!(password, None);
        }
        other => panic!("unexpected step {:?}", other),
    }
    let mut ss = msg(Action::Create, ProtoTag::Shadowsocks);
    ss.password = Some("pw".into());
    assert!(matches!(step_for_message(ss, 1, true, false), AgentStep::AddXrayUser { tag: ProtoTag::Shadowsocks, .. }));
}

#[test]
fn messages_the_node_cannot_serve_are_refused() {
    assert_eq!(refusal(step_for_message(msg(Action::Create, ProtoTag::Wireguard), 1, true, true)), "Missing WireGuard keys");
    assert_eq!(refusal(step_for_message(msg(Action::Create, ProtoTag::Shadowsocks), 1, true, true)), "Password not provided for Shadowsocks user");
    assert_eq!(refusal(step_for_message(msg(Action::Create, ProtoTag::Hysteria2), 1, true, true)), "Hysteria2 is not supported");
    assert_eq!(refusal(step_for_message(msg(Action::Delete, ProtoTag::Mtproto), 1, true, true)), "Mtproto is not supported");
    assert_eq!(refusal(step_for_message(msg(Action::Create, ProtoTag::Vmess), 1, false, true)), "Xray handler unavailable");
    assert_eq!(refusal(step_for_message(msg(Action::Delete, ProtoTag::Wireguard), 1, true, false)), "WireGuard API is unavailable");
    assert_eq!(refusal(step_for_message(msg(Action::Delete, ProtoTag::Wireguard), 1, true, true)), "Missing WireGuard keys in message");
}

#[test]
fn deletions_and_resets() {
    let mut m = msg(Action::Delete, ProtoTag::Wireguard);
    m.wg = Some(keys());
    assert!(matches!(step_for_message(m, 1, false, true), AgentStep::RemoveWireguardPeer { conn_id: 5, ref pubkey } if pubkey == "pub"));
    assert!(matches!(step_for_message(msg(Action::Delete, ProtoTag::VlessTcpReality), 1, true, false), AgentStep::RemoveXrayUser { tag: ProtoTag::VlessTcpReality, .. }));
    assert!(matches!(step_for_message(msg(Action::ResetStat, ProtoTag::Hysteria2), 1, false, false), AgentStep::ResetStat { conn_id: 5 }));
}

#[test]
fn snapshot_restore_uses_available_tools() {
    let wgp = Proto::Wireguard { param: keys(), node_id: 1 };
    assert!(matches!(restore_step(&wgp, false, true), RestoreStep::WireguardPeer(_)));
    assert!(matches!(restore_step(&wgp, true, false), RestoreStep::Skip));
    let ss = Proto::Shadowsocks { password: "pw".into() };
    assert!(matches!(restore_step(&ss, true, false), RestoreStep::XrayUser { tag: ProtoTag::Shadowsocks, password: Some(_) }));
    assert!(matches!(restore_step(&Proto::Xray(ProtoTag::VlessGrpcReality), true, false), RestoreStep::XrayUser { password: None, .. }));
    assert!(matches!(restore_step(&Proto::Xray(ProtoTag::Mtproto), true, true), RestoreStep::Skip));
    assert!(matches!(restore_step(&Proto::Hysteria2 { token: 1 }, true, true), RestoreStep::Skip));
}

#[test]
fn topics_select_this_node() {
    assert!(accepts_topic(&Topic::Init("node-1".into()), "node-1", "dev"));
    assert!(!accepts_topic(&Topic::Init("node-2".into()), "node-1", "dev"));
    assert!(accepts_topic(&Topic::Updates("dev".into()), "node-1", "dev"));
    assert!(!accepts_topic(&Topic::Updates("ru".into()), "node-1", "dev"));
    assert!(accepts_topic(&Topic::All, "node-1", "dev"));
    assert!(!accepts_topic(&Topic::Unknown("dev".into()), "node-1", "dev"));
}

#[test]
fn startup_decisions() {
    assert_eq!(node_type(true, true), Some(NodeType::All));
    assert_eq!(node_type(true, false), Some(NodeType::Wireguard));
    assert_eq!(node_type(false, true), Some(NodeType::Xray));
    assert_eq!(node_type(false, false), None);
    assert_eq!(worker_threads(1), 1);
    assert_eq!(worker_threads(0), 1);
    assert_eq!(worker_threads(4), 8);
    let tags = vec![ProtoTag::Hysteria2, ProtoTag::Vmess, ProtoTag::Mtproto, ProtoTag::Wireguard];
    assert_eq!(tags_to_sync(&tags), vec![ProtoTag::Vmess, ProtoTag::Wireguard]);
}

#[test]
fn api_answers_and_resource_urls() {
    assert!(api_answer_accepted(200));
    assert!(api_answer_accepted(201));
    assert!(api_answer_accepted(304));
    assert!(!api_answer_accepted(404));
    assert!(!api_answer_accepted(500));
    assert_eq!(api_resource_url("http://localhost:3005", "node"), Ok("http://localhost:3005/node".to_string()));
    assert_eq!(api_resource_url("https://api.example.org/v1/", "connections"), Ok("https://api.example.org/v1//connections".to_string()));
    assert_eq!(api_resource_url("mailto:ops@example.org", "node"), Err("Invalid API endpoint".to_string()));
    assert!(api_resource_url("not a url", "node").is_err());
}
