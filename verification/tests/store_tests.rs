use fcore::connection::{Connection, ConnectionStat, Proto, WgKeys, WgParam};
use fcore::net::IpMask;
use fcore::store::{ConnectionStore, OperationStatus};
use fcore::tag::ProtoTag;

fn xray(env: &str, sub: Option<u128>, expires_at: Option<i64>, now: i64) -> Connection {
    Connection::new(env, sub, ConnectionStat::zero(), Proto::Xray(ProtoTag::VlessTcpReality), expires_at, now)
}

fn wg(node: u128, addr: u32) -> Connection {
    let param = WgParam {
        keys: WgKeys { privkey: "priv".to_string(), pubkey: format!("pub{}", addr) },
        address: IpMask::new(addr, 32),
    };
    Connection::new("dev", None, ConnectionStat::zero(), Proto::Wireguard { param, node_id: node }, None, 0)
}

#[test]
fn added_connection_is_found_again() {
    let mut store = ConnectionStore::new();
    assert!(matches!(store.add(1, xray("dev", None, None, 10)), OperationStatus::Success(1)));
    let c = store.get(1).expect("stored");
    assert_eq!(c.env, "dev");
    assert_eq!(c.created_at, 10);
    assert!(!store.contains(2));
    assert_eq!(store.len(), 1);
}

#[test]
fn adding_a_taken_id_changes_nothing() {
    let mut store = ConnectionStore::new();
    store.add(1, xray("dev", None, None, 10));
    assert!(matches!(store.add(1, xray("ru", None, None, 20)), OperationStatus::AlreadyExist(1)));
    assert_eq!(store.get(1).unwrap().env, "dev");
    assert_eq!(store.len(), 1);
}

#[test]
fn insert_replaces_and_returns_previous() {
    let mut store = ConnectionStore::new();
    assert!(store.insert(3, xray("dev", None, None, 1)).is_none());
    let prev = store.insert(3, xray("ru", None, None, 2)).expect("previous");
    assert_eq!(prev.env, "dev");
    assert_eq!(store.get(3).unwrap().env, "ru");
    assert_eq!(store.len(), 1);
}

#[test]
fn deleting_twice_reports_not_found_the_second_time() {
    let mut store = ConnectionStore::new();
    store.add(7, xray("dev", None, Some(100), 0));
    assert!(matches!(store.mark_deleted(7, 50), OperationStatus::Success(7)));
    let c = store.get(7).unwrap();
    assert!(c.is_deleted);
    assert_eq!(c.modified_at, 50);
    assert!(matches!(store.mark_deleted(7, 60), OperationStatus::NotFound(7)));
    assert_eq!(store.get(7).unwrap().modified_at, 50);
    assert!(matches!(store.mark_deleted(8, 60), OperationStatus::NotFound(8)));
}

#[test]
fn deleted_connection_is_never_selected() {
    let mut store = ConnectionStore::new();
    store.add(1, xray("dev", None, Some(10), 0));
    store.add(2, xray("dev", None, Some(10), 0));
    store.mark_deleted(2, 5);
    assert_eq!(store.expired_ids(20), vec![1]);
    assert_eq!(store.sync_ids(ProtoTag::VlessTcpReality, &None, None), vec![1]);
}

#[test]
fn expired_ids_take_only_past_deadlines() {
    let mut store = ConnectionStore::new();
    store.add(1, xray("dev", None, Some(100), 0));
    store.add(2, xray("dev", None, Some(200), 0));
    store.add(3, xray("dev", None, None, 0));
    assert_eq!(store.expired_ids(100), vec![1]);
    assert_eq!(store.expired_ids(99), Vec::<u128>::new());
    assert_eq!(store.expired_ids(1000), vec![1, 2]);
}

#[test]
fn sync_ids_filter_by_tag_env_and_time() {
    let mut store = ConnectionStore::new();
    store.add(1, xray("dev", None, None, 100));
    store.add(2, xray("ru", None, None, 100));
    store.add(3, xray("dev", None, None, 50));
    store.add(4, wg(9, 0x0A00_0002));
    assert_eq!(store.sync_ids(ProtoTag::VlessTcpReality, &Some("dev".to_string()), None), vec![1, 3]);
    assert_eq!(store.sync_ids(ProtoTag::VlessTcpReality, &Some("dev".to_string()), Some(60)), vec![1]);
    assert_eq!(store.sync_ids(ProtoTag::VlessTcpReality, &None, None), vec![1, 2, 3]);
    assert_eq!(store.sync_ids(ProtoTag::Wireguard, &None, None), vec![4]);
}

#[test]
fn subscription_ids_split_by_deletion_flag() {
    let mut store = ConnectionStore::new();
    store.add(1, xray("dev", Some(10), None, 0));
    store.add(2, xray("ru", Some(10), None, 0));
    store.add(3, xray("dev", Some(11), None, 0));
    store.mark_deleted(2, 1);
    assert_eq!(store.subscription_ids(10, false), vec![1]);
    assert_eq!(store.subscription_ids(10, true), vec![2]);
    assert_eq!(store.subscription_env_ids(10, "dev"), vec![1]);
    assert_eq!(store.subscription_env_ids(10, "ru"), Vec::<u128>::new());
}

#[test]
fn wireguard_addresses_are_tracked_per_node() {
    let mut store = ConnectionStore::new();
    assert_eq!(store.max_wireguard_address(), None);
    store.add(1, wg(9, 0x0A00_0005));
    store.add(2, wg(8, 0x0A00_0009));
    store.add(3, xray("dev", None, None, 0));
    assert!(store.wireguard_address_taken(9, 0x0A00_0005));
    assert!(!store.wireguard_address_taken(8, 0x0A00_0005));
    assert_eq!(store.max_wireguard_address(), Some(0x0A00_0009));
}

#[test]
fn update_stats_sets_counters_of_stored_connection() {
    let mut store = ConnectionStore::new();
    store.add(1, xray("dev", None, None, 0));
    let stat = ConnectionStat { online: 1, uplink: 200, downlink: 300 };
    assert!(store.update_stats(1, stat));
    assert_eq!(store.get(1).unwrap().stat, stat);
    assert!(!store.update_stats(2, stat));
}

#[test]
fn ids_follow_insertion_order() {
    let mut store = ConnectionStore::new();
    store.add(5, xray("dev", None, None, 0));
    store.add(3, xray("dev", None, None, 0));
    assert_eq!(store.ids(), vec![5, 3]);
    let (id, c) = store.entry_at(1);
    assert_eq!(id, 3);
    assert_eq!(c.env, "dev");
}
