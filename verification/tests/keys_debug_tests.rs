use fcore::debug::{answer_kind, debug_answer, debug_query, DebugQuery, Kind};
use fcore::connection::{Connection, ConnectionStat, Proto};
use fcore::store::ConnectionStore;
use fcore::tag::ProtoTag;
use fcore::keys::{activation_gate, activation_reply, activation_step, key_check_reply, key_created_reply, key_distributor, ActivationStep};
use fcore::store::OperationStatus;

const KEY: u128 = 0x1111_2222_3333_4444_5555_6666_7777_8888;

#[test]
fn key_checks() {
    assert_eq!(key_check_reply(false, Some(false)), (400, "Key is not valid".to_string()));
    assert_eq!(key_check_reply(true, None), (404, "Key is not found".to_string()));
    assert_eq!(key_check_reply(true, Some(true)), (200, "Key is valid and already activated".to_string()));
    assert_eq!(key_check_reply(true, Some(false)), (200, "Key is valid".to_string()));
    assert_eq!(key_distributor(&None), "FRKN");
    assert_eq!(key_distributor(&Some("shop".into())), "shop");
}

#[test]
fn key_activation_flow() {
    assert_eq!(activation_gate(None), Some((404, "Key not found".to_string())));
    assert_eq!(activation_gate(Some(true)), Some((400, "Key already activated".to_string())));
    assert_eq!(activation_gate(Some(false)), None);
    assert!(matches!(activation_step(KEY, Ok(OperationStatus::Updated(1))), ActivationStep::MarkActivated(KEY)));
    assert!(matches!(activation_step(KEY, Ok(OperationStatus::NotFound(1))), ActivationStep::Reply(404, ref m) if m == "Subscription not found"));
    assert!(matches!(activation_step(KEY, Err("db down".into())), ActivationStep::Reply(400, ref m) if m == "Failed to add days: db down"));
    assert!(matches!(activation_step(KEY, Ok(OperationStatus::Success(1))), ActivationStep::Reply(304, ref m) if m.is_empty()));
    assert_eq!(activation_reply(KEY, Ok(())), (200, "Key 11112222-3333-4444-5555-666677778888 activated".to_string()));
    assert_eq!(activation_reply(KEY, Err("locked".into())), (400, "Key activation failed: locked".to_string()));
    assert_eq!(key_created_reply(KEY, Ok(())), (200, "Key 11112222-3333-4444-5555-666677778888 is created".to_string()));
    assert_eq!(key_created_reply(KEY, Err("dup".to_string())).0, 400);
}

#[test]
fn debug_channel_requests() {
    assert_eq!(debug_query("get_connections", None), Some(DebugQuery::Connections));
    assert_eq!(debug_query("get_nodes", Some(1)), Some(DebugQuery::Nodes));
    assert_eq!(debug_query("get_conn_info", Some(3)), Some(DebugQuery::ConnInfo(3)));
    assert_eq!(debug_query("get_conn_info", None), None);
    assert_eq!(debug_query("other", None), None);
    assert_eq!(answer_kind(DebugQuery::Connections).name(), "conns");
    assert_eq!(answer_kind(DebugQuery::Nodes).name(), "nodes");
    assert_eq!(answer_kind(DebugQuery::ConnInfo(1)), Kind::Conn);
    assert_eq!(Kind::Conn.name(), "conn");
}

#[test]
fn debug_answers_carry_lengths() {
    let mut store = ConnectionStore::new();
    store.add(1, Connection::new("dev", None, ConnectionStat::zero(), Proto::Xray(ProtoTag::Vmess), None, 0));
    store.add(2, Connection::new("dev", None, ConnectionStat::zero(), Proto::Xray(ProtoTag::Vmess), None, 0));
    assert_eq!(debug_answer(DebugQuery::Connections, &store), Some((Kind::Conns, 2)));
    assert_eq!(debug_answer(DebugQuery::Nodes, &store), Some((Kind::Nodes, 2)));
    assert_eq!(debug_answer(DebugQuery::ConnInfo(1), &store), Some((Kind::Conn, 1)));
    assert_eq!(debug_answer(DebugQuery::ConnInfo(3), &store), None);
}
