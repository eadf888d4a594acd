use fcore::agent::Action;
use fcore::store::ConnectionStore;
use fcore::connection::{Connection, ConnectionStat, Proto, WgKeys, WgParam};
use fcore::net::IpMask;
use fcore::node::SyncError;
use fcore::store::OperationStatus;
use fcore::sync::{
    add_conn_outcome, add_node_outcome, conn_creation_status, conn_deletion_status, node_registration_reply,
    publish_topic, rejection, Rejection,
};
use fcore::tag::ProtoTag;

#[test]
fn node_outcomes() {
    assert!(matches!(add_node_outcome(9, Ok(OperationStatus::AlreadyExist(3))), Ok(OperationStatus::Success(9))));
    assert!(matches!(add_node_outcome(9, Ok(OperationStatus::Updated(3))), Ok(OperationStatus::Success(9))));
    assert!(matches!(add_node_outcome(9, Ok(OperationStatus::NotModified(3))), Ok(OperationStatus::NotModified(3))));
    assert!(matches!(add_node_outcome(9, Ok(OperationStatus::NotFound(3))), Err(SyncError::Memory(ref m)) if m == "Unexpected operation status: NotFound(00000000-0000-0000-0000-000000000003)"));
    assert!(matches!(add_node_outcome(9, Err("boom".into())), Err(SyncError::Memory(ref m)) if m == "boom"));
}

#[test]
fn connection_outcomes_and_statuses() {
    let added = add_conn_outcome(Ok(OperationStatus::AlreadyExist(4)));
    assert!(matches!(added, Ok(OperationStatus::Success(4))));
    assert_eq!(conn_creation_status(&added), 200);
    assert_eq!(conn_creation_status(&Ok(OperationStatus::AlreadyExist(4))), 304);
    let bad = add_conn_outcome(Ok(OperationStatus::BadRequest(4, "no".into())));
    assert_eq!(conn_creation_status(&bad), 400);
    let unexpected = add_conn_outcome(Ok(OperationStatus::Updated(4)));
    assert!(matches!(unexpected, Err(SyncError::Memory(ref m)) if m.starts_with("Unexpected operation status: Updated(")));
    assert_eq!(conn_creation_status(&unexpected), 500);
}

#[test]
fn registration_replies() {
    assert_eq!(node_registration_reply(&Ok(OperationStatus::Success(5))), (200, Some(5)));
    assert_eq!(node_registration_reply(&Ok(OperationStatus::NotModified(5))), (200, Some(5)));
    assert_eq!(node_registration_reply(&Ok(OperationStatus::NotFound(5))), (400, None));
    assert_eq!(node_registration_reply(&Err(SyncError::Database("x".into()))), (500, None));
}

#[test]
fn deletion_statuses() {
    let live = Connection::new("dev", None, ConnectionStat::zero(), Proto::Xray(ProtoTag::Vmess), None, 0);
    let mut gone = live.clone();
    gone.is_deleted = true;
    assert_eq!(conn_deletion_status(None, &Ok(OperationStatus::Success(1))), 404);
    assert_eq!(conn_deletion_status(Some(&gone), &Ok(OperationStatus::Success(1))), 404);
    assert_eq!(conn_deletion_status(Some(&live), &Ok(OperationStatus::Success(1))), 200);
    assert_eq!(conn_deletion_status(Some(&live), &Ok(OperationStatus::NotFound(1))), 404);
    assert_eq!(conn_deletion_status(Some(&live), &Ok(OperationStatus::Updated(1))), 400);
    assert_eq!(conn_deletion_status(Some(&live), &Err(SyncError::Database("x".into()))), 500);
}

#[test]
fn topics_follow_the_protocol() {
    let wg = WgParam { keys: WgKeys { privkey: "a".into(), pubkey: "b".into() }, address: IpMask::new(1, 32) };
    let node: u128 = 0x0123_4567_89ab_cdef_0011_2233_4455_6677;
    let c = Connection::new("ru", None, ConnectionStat::zero(), Proto::Wireguard { param: wg, node_id: node }, None, 0);
    assert_eq!(publish_topic(&c), "01234567-89ab-cdef-0011-223344556677");
    let h = Connection::new("ru", None, ConnectionStat::zero(), Proto::Hysteria2 { token: 1 }, None, 0);
    assert_eq!(publish_topic(&h), "all");
    let x = Connection::new("ru", None, ConnectionStat::zero(), Proto::Xray(ProtoTag::Vmess), None, 0);
    assert_eq!(publish_topic(&x), "ru");
}

#[test]
fn rejections_are_answered() {
    assert_eq!(rejection(Rejection::MethodNotAllowed), Some((405, "Method Not Allowed".to_string())));
    assert_eq!(rejection(Rejection::Unauthorized), Some((401, "UNAUTHORIZED".to_string())));
    assert_eq!(rejection(Rejection::Json("bad json".into())), Some((400, "bad json".to_string())));
    assert_eq!(rejection(Rejection::NotFound), Some((404, "Not Found".to_string())));
    assert_eq!(rejection(Rejection::Other), None);
}

#[test]
fn service_tasks_messages_and_keys() {
    let wg = WgParam { keys: WgKeys { privkey: "a".into(), pubkey: "b".into() }, address: IpMask::new(1, 32) };
    let node: u128 = 0x0123_4567_89ab_cdef_0011_2233_4455_6677;
    let c = Connection::new("ru", Some(3), ConnectionStat::zero(), Proto::Wireguard { param: wg, node_id: node }, Some(8), 0);
    assert_eq!(fcore::sync::message_key(&c), "01234567-89ab-cdef-0011-223344556677");
    let x = Connection::new("ru", None, ConnectionStat::zero(), Proto::Shadowsocks { password: "pw".into() }, None, 0);
    assert_eq!(fcore::sync::message_key(&x), "ru");
    let m = fcore::sync::connection_message(5, &c, Action::Delete);
    assert_eq!((m.conn_id, m.tag, m.expires_at, m.subscription_id), (5, ProtoTag::Wireguard, Some(8), Some(3)));
    let r = fcore::sync::restore_request(&x);
    assert_eq!((r.env.as_deref(), r.is_deleted, r.password.as_deref(), r.days), (Some("ru"), Some(false), Some("pw"), None));

    let mut mem = ConnectionStore::new();
    assert!(matches!(fcore::sync::add_conn_synced(&mut mem, 1, x.clone(), Err("db".into())), Err(SyncError::Database(_))));
    assert_eq!(mem.len(), 0);
    assert!(matches!(fcore::sync::add_conn_synced(&mut mem, 1, x.clone(), Ok(())), Ok(OperationStatus::Success(1))));
    assert!(fcore::sync::deletion_gate(&mem, 1));
    assert!(!fcore::sync::deletion_gate(&mem, 2));
    assert!(matches!(fcore::sync::finish_deletion(&mut mem, 1, 9, Err("db".into())), Err(SyncError::Database(_))));
    assert!(!mem.get(1).unwrap().is_deleted);
    assert!(matches!(fcore::sync::finish_deletion(&mut mem, 1, 9, Ok(())), Ok(OperationStatus::Success(1))));
    assert!(mem.get(1).unwrap().is_deleted);
    assert!(!fcore::sync::deletion_gate(&mem, 1));
}
