use fcore::connection::{ConnRow, Connection, ConnectionStat, Proto, RowError, WgKeys, WgParam};
use fcore::net::{increment_ip, ip_in_mask, IpMask};
use fcore::tag::ProtoTag;

fn row(proto: ProtoTag) -> ConnRow {
    ConnRow {
        conn_id: 1,
        password: None,
        env: "dev".to_string(),
        created_at: 1,
        modified_at: 2,
        expires_at: None,
        subscription_id: Some(4),
        stat: ConnectionStat::zero(),
        wg: None,
        node_id: None,
        proto,
        token: None,
        is_deleted: false,
    }
}

#[test]
fn connection_survives_a_row_round_trip() {
    let param = WgParam {
        keys: WgKeys { privkey: "a".to_string(), pubkey: "b".to_string() },
        address: IpMask::new(0x0A00_0003, 32),
    };
    let c = Connection::new("ru", Some(4), ConnectionStat::zero(), Proto::Wireguard { param, node_id: 77 }, Some(500), 10);
    let r = ConnRow::from_connection(9, c.clone());
    assert_eq!(r.conn_id, 9);
    assert_eq!(r.proto, ProtoTag::Wireguard);
    assert_eq!(r.node_id, Some(77));
    let back = Connection::try_from_row(r).expect("row reads back");
    assert_eq!(back.env, "ru");
    assert_eq!(back.expires_at, Some(500));
    assert_eq!(back.get_wireguard_node_id(), Some(77));
    assert_eq!(back.get_wireguard().unwrap().keys.pubkey, "b");
    assert_eq!(back.created_at, 10);
}

#[test]
fn rows_missing_credentials_are_refused() {
    assert_eq!(Connection::try_from_row(row(ProtoTag::Wireguard)).unwrap_err(), RowError::MissingWireguardParam);
    let mut r = row(ProtoTag::Wireguard);
    r.wg = Some(WgParam { keys: WgKeys { privkey: "a".into(), pubkey: "b".into() }, address: IpMask::new(1, 32) });
    assert_eq!(Connection::try_from_row(r).unwrap_err(), RowError::MissingNodeId);
    assert_eq!(Connection::try_from_row(row(ProtoTag::Shadowsocks)).unwrap_err(), RowError::MissingPassword);
    assert_eq!(Connection::try_from_row(row(ProtoTag::Hysteria2)).unwrap_err(), RowError::MissingToken);
    assert!(Connection::try_from_row(row(ProtoTag::Vmess)).is_ok());
}

#[test]
fn row_errors_have_their_messages() {
    assert_eq!(RowError::MissingWireguardParam.message(), "Missing Wireguard param");
    assert_eq!(RowError::MissingNodeId.message(), "Missing node_id");
    assert_eq!(RowError::MissingPassword.message(), "Missing Shadowsocks password");
    assert_eq!(RowError::MissingToken.message(), "Missing Hysteria2 token");
}

#[test]
fn credentials_are_read_from_the_protocol() {
    let ss = Connection::new("dev", None, ConnectionStat::zero(), Proto::Shadowsocks { password: "pw".into() }, None, 0);
    assert_eq!(ss.get_password(), Some("pw".to_string()));
    assert_eq!(ss.get_token(), None);
    assert_eq!(ss.proto.proto(), ProtoTag::Shadowsocks);
    let hy = Connection::new("dev", None, ConnectionStat::zero(), Proto::Hysteria2 { token: 42 }, None, 0);
    assert_eq!(hy.get_token(), Some(42));
    assert!(hy.get_wireguard().is_none());
}

#[test]
fn addresses_increment_and_stop_at_the_last() {
    assert_eq!(increment_ip(0x0A00_0001), Some(0x0A00_0002));
    assert_eq!(increment_ip(u32::MAX), None);
}

#[test]
fn mask_membership_compares_prefixes() {
    let net = IpMask::new(0x0A00_0000, 8);
    assert!(ip_in_mask(&net, 0x0AFF_FFFF));
    assert!(!ip_in_mask(&net, 0x0B00_0000));
    assert!(ip_in_mask(&IpMask::new(0, 0), u32::MAX));
    assert!(ip_in_mask(&IpMask::new(0x0A00_0001, 32), 0x0A00_0001));
    assert!(!ip_in_mask(&IpMask::new(0x0A00_0001, 32), 0x0A00_0002));
    assert!(!ip_in_mask(&IpMask::new(0x0A00_0001, 33), 0x0A00_0001));
}
