//! Connections: the credentials of one protocol that a subscription holds,
//! and their rows in the database.
use vstd::prelude::*;
use crate::net::IpMask;
use crate::tag::ProtoTag;
use crate::text::owned;

verus! {

/// Traffic counters of a connection.
#[derive(Clone, Copy, Debug, PartialEq, Eq, Structural)]
pub struct ConnectionStat {
    pub online: i64,
    pub uplink: i64,
    pub downlink: i64,
}

impl ConnectionStat {
    /// All counters at zero.
    pub fn zero() -> (r: ConnectionStat)
        ensures
            r.online == 0 && r.uplink == 0 && r.downlink == 0,
    {
        ConnectionStat { online: 0, uplink: 0, downlink: 0 }
    }
}

/// A WireGuard key pair, in base64 text.
#[derive(Debug)]
pub struct WgKeys {
    pub privkey: String,
    pub pubkey: String,
}

/// WireGuard parameters of a peer: its keys and its address.
#[derive(Debug)]
pub struct WgParam {
    pub keys: WgKeys,
    pub address: IpMask,
}

/// The protocol of a connection with what it needs to authenticate.
#[derive(Debug)]
pub enum Proto {
    Wireguard { param: WgParam, node_id: u128 },
    Shadowsocks { password: String },
    Xray(ProtoTag),
    Hysteria2 { token: u128 },
}

/// A connection. Times are UNIX timestamps in seconds.
#[derive(Debug)]
pub struct Connection {
    pub env: String,
    pub proto: Proto,
    pub stat: ConnectionStat,
    pub subscription_id: Option<u128>,
    pub created_at: i64,
    pub modified_at: i64,
    pub expires_at: Option<i64>,
    pub is_deleted: bool,
}

impl Clone for WgKeys {
    fn clone(&self) -> (r: Self)
        ensures
            r == *self,
    {
        WgKeys { privkey: self.privkey.clone(), pubkey: self.pubkey.clone() }
    }
}

impl Clone for WgParam {
    fn clone(&self) -> (r: Self)
        ensures
            r == *self,
    {
        WgParam { keys: self.keys.clone(), address: self.address }
    }
}

impl Clone for Proto {
    fn clone(&self) -> (r: Self)
        ensures
            r == *self,
    {
        match self {
            Proto::Wireguard { param, node_id } => Proto::Wireguard {
                param: param.clone(),
                node_id: *node_id,
            },
            Proto::Shadowsocks { password } => Proto::Shadowsocks { password: password.clone() },
            Proto::Xray(t) => Proto::Xray(*t),
            Proto::Hysteria2 { token } => Proto::Hysteria2 { token: *token },
        }
    }
}

impl Clone for Connection {
    fn clone(&self) -> (r: Self)
        ensures
            r == *self,
    {
        Connection {
            env: self.env.clone(),
            proto: self.proto.clone(),
            stat: self.stat,
            subscription_id: self.subscription_id,
            created_at: self.created_at,
            modified_at: self.modified_at,
            expires_at: self.expires_at,
            is_deleted: self.is_deleted,
        }
    }
}

/// The tag of a protocol.
pub open spec fn proto_tag(p: Proto) -> ProtoTag {
    match p {
        Proto::Wireguard { .. } => ProtoTag::Wireguard,
        Proto::Shadowsocks { .. } => ProtoTag::Shadowsocks,
        Proto::Xray(t) => t,
        Proto::Hysteria2 { .. } => ProtoTag::Hysteria2,
    }
}

/// The WireGuard parameters of a protocol, if it is WireGuard.
pub open spec fn proto_wireguard(p: Proto) -> Option<WgParam> {
    match p {
        Proto::Wireguard { param, .. } => Some(param),
        _ => None,
    }
}

/// The node a WireGuard protocol is bound to.
pub open spec fn proto_wireguard_node(p: Proto) -> Option<u128> {
    match p {
        Proto::Wireguard { node_id, .. } => Some(node_id),
        _ => None,
    }
}

/// The Shadowsocks password of a protocol.
pub open spec fn proto_password(p: Proto) -> Option<String> {
    match p {
        Proto::Shadowsocks { password } => Some(password),
        _ => None,
    }
}

/// The Hysteria2 token of a protocol.
pub open spec fn proto_token(p: Proto) -> Option<u128> {
    match p {
        Proto::Hysteria2 { token } => Some(token),
        _ => None,
    }
}

impl Proto {
    /// The protocol tag.
    pub fn proto(&self) -> (r: ProtoTag)
        ensures
            r == proto_tag(*self),
    {
        match self {
            Proto::Wireguard { .. } => ProtoTag::Wireguard,
            Proto::Shadowsocks { .. } => ProtoTag::Shadowsocks,
            Proto::Xray(t) => *t,
            Proto::Hysteria2 { .. } => ProtoTag::Hysteria2,
        }
    }
}

impl Connection {
    /// A new connection that is not deleted and has no traffic yet, created and
    /// modified at `now`.
    pub fn new(
        env: &str,
        subscription_id: Option<u128>,
        stat: ConnectionStat,
        proto: Proto,
        expires_at: Option<i64>,
        now: i64,
    ) -> (r: Connection)
        ensures
            r.env@ == env@,
            r.subscription_id == subscription_id,
            r.stat == stat,
            r.proto == proto,
            r.expires_at == expires_at,
            r.created_at == now,
            r.modified_at == now,
            !r.is_deleted,
    {
        Connection {
            env: owned(env),
            proto,
            stat,
            subscription_id,
            created_at: now,
            modified_at: now,
            expires_at,
            is_deleted: false,
        }
    }

    pub fn get_wireguard(&self) -> (r: Option<&WgParam>)
        ensures
            r matches Some(p) ==> proto_wireguard(self.proto) == Some(*p),
            r is None ==> proto_wireguard(self.proto) is None,
    {
        match &self.proto {
            Proto::Wireguard { param, .. } => Some(param),
            _ => None,
        }
    }

    pub fn get_wireguard_node_id(&self) -> (r: Option<u128>)
        ensures
            r == proto_wireguard_node(self.proto),
    {
        match &self.proto {
            Proto::Wireguard { node_id, .. } => Some(*node_id),
            _ => None,
        }
    }

    pub fn get_password(&self) -> (r: Option<String>)
        ensures
            r == proto_password(self.proto),
    {
        match &self.proto {
            Proto::Shadowsocks { password } => Some(password.clone()),
            _ => None,
        }
    }

    pub fn get_token(&self) -> (r: Option<u128>)
        ensures
            r == proto_token(self.proto),
    {
        match &self.proto {
            Proto::Hysteria2 { token } => Some(*token),
            _ => None,
        }
    }
}

/// A connection as a row of the `connections` table.
#[derive(Debug)]
pub struct ConnRow {
    pub conn_id: u128,
    pub password: Option<String>,
    pub env: String,
    pub created_at: i64,
    pub modified_at: i64,
    pub expires_at: Option<i64>,
    pub subscription_id: Option<u128>,
    pub stat: ConnectionStat,
    pub wg: Option<WgParam>,
    pub node_id: Option<u128>,
    pub proto: ProtoTag,
    pub token: Option<u128>,
    pub is_deleted: bool,
}

/// The row that stores connection `c` under `id`.
pub open spec fn row_of(id: u128, c: Connection) -> ConnRow {
    ConnRow {
        conn_id: id,
        password: proto_password(c.proto),
        env: c.env,
        created_at: c.created_at,
        modified_at: c.modified_at,
        expires_at: c.expires_at,
        subscription_id: c.subscription_id,
        stat: c.stat,
        wg: proto_wireguard(c.proto),
        node_id: proto_wireguard_node(c.proto),
        proto: proto_tag(c.proto),
        token: proto_token(c.proto),
        is_deleted: c.is_deleted,
    }
}

/// Why a row cannot be read back as a connection.
#[derive(Clone, Copy, Debug, PartialEq, Eq, Structural)]
pub enum RowError {
    MissingWireguardParam,
    MissingNodeId,
    MissingPassword,
    MissingToken,
}

impl RowError {
    /// The text the service reports for this error.
    pub fn message(&self) -> (r: String)
        ensures
            *self == RowError::MissingWireguardParam ==> r@ == "Missing Wireguard param"@,
            *self == RowError::MissingNodeId ==> r@ == "Missing node_id"@,
            *self == RowError::MissingPassword ==> r@ == "Missing Shadowsocks password"@,
            *self == RowError::MissingToken ==> r@ == "Missing Hysteria2 token"@,
    {
        match self {
            RowError::MissingWireguardParam => owned("Missing Wireguard param"),
            RowError::MissingNodeId => owned("Missing node_id"),
            RowError::MissingPassword => owned("Missing Shadowsocks password"),
            RowError::MissingToken => owned("Missing Hysteria2 token"),
        }
    }
}

/// The protocol a row describes, or why it describes none.
pub open spec fn row_proto(row: ConnRow) -> Result<Proto, RowError> {
    match row.proto {
        ProtoTag::Wireguard => match row.wg {
            None => Err(RowError::MissingWireguardParam),
            Some(wg) => match row.node_id {
                None => Err(RowError::MissingNodeId),
                Some(n) => Ok(Proto::Wireguard { param: wg, node_id: n }),
            },
        },
        ProtoTag::Shadowsocks => match row.password {
            None => Err(RowError::MissingPassword),
            Some(p) => Ok(Proto::Shadowsocks { password: p }),
        },
        ProtoTag::Hysteria2 => match row.token {
            None => Err(RowError::MissingToken),
            Some(t) => Ok(Proto::Hysteria2 { token: t }),
        },
        t => Ok(Proto::Xray(t)),
    }
}

/// The connection a row describes, or why it describes none.
pub open spec fn connection_of_row(row: ConnRow) -> Result<Connection, RowError> {
    match row_proto(row) {
        Err(e) => Err(e),
        Ok(p) => Ok(
            Connection {
                env: row.env,
                proto: p,
                stat: row.stat,
                subscription_id: row.subscription_id,
                created_at: row.created_at,
                modified_at: row.modified_at,
                expires_at: row.expires_at,
                is_deleted: row.is_deleted,
            },
        ),
    }
}

impl ConnRow {
    /// The row that stores `conn` under `conn_id`.
    pub fn from_connection(conn_id: u128, conn: Connection) -> (r: ConnRow)
        ensures
            r == row_of(conn_id, conn),
    {
        let password = conn.get_password();
        let wg = match conn.get_wireguard() {
            Some(p) => Some(p.clone()),
            None => None,
        };
        let node_id = conn.get_wireguard_node_id();
        let proto = conn.proto.proto();
        let token = conn.get_token();
        ConnRow {
            conn_id,
            password,
            env: conn.env,
            created_at: conn.created_at,
            modified_at: conn.modified_at,
            expires_at: conn.expires_at,
            subscription_id: conn.subscription_id,
            stat: conn.stat,
            wg,
            node_id,
            proto,
            token,
            is_deleted: conn.is_deleted,
        }
    }
}

impl Connection {
    /// Reads a row back as a connection: a WireGuard row needs its parameters
    /// and its node, a Shadowsocks row its password, a Hysteria2 row its token.
    pub fn try_from_row(row: ConnRow) -> (r: Result<Connection, RowError>)
        ensures
            r == connection_of_row(row),
    {
        let proto = match row.proto {
            ProtoTag::Wireguard => {
                let wg = match row.wg {
                    None => return Err(RowError::MissingWireguardParam),
                    Some(wg) => wg,
                };
                let node_id = match row.node_id {
                    None => return Err(RowError::MissingNodeId),
                    Some(n) => n,
                };
                Proto::Wireguard { param: wg, node_id }
            },
            ProtoTag::Shadowsocks => {
                match row.password {
                    None => return Err(RowError::MissingPassword),
                    Some(p) => Proto::Shadowsocks { password: p },
                }
            },
            ProtoTag::Hysteria2 => {
                match row.token {
                    None => return Err(RowError::MissingToken),
                    Some(t) => Proto::Hysteria2 { token: t },
                }
            },
            t => Proto::Xray(t),
        };
        Ok(
            Connection {
                env: row.env,
                proto,
                stat: row.stat,
                subscription_id: row.subscription_id,
                created_at: row.created_at,
                modified_at: row.modified_at,
                expires_at: row.expires_at,
                is_deleted: row.is_deleted,
            },
        )
    }
}

/// A protocol whose tag agrees with its kind: an `Xray` protocol carries one of
/// the tags that need no credentials besides the connection id.
pub open spec fn proto_well_formed(p: Proto) -> bool {
    match p {
        Proto::Xray(t) => t != ProtoTag::Wireguard && t != ProtoTag::Shadowsocks && t
            != ProtoTag::Hysteria2,
        _ => true,
    }
}

/// Storing a connection as a row and reading the row back gives the same
/// connection, for every connection whose protocol is well formed.
pub proof fn lemma_row_round_trip(id: u128, c: Connection)
    requires
        proto_well_formed(c.proto),
    ensures
        connection_of_row(row_of(id, c)) == Ok::<Connection, RowError>(c),
{
}

} // verus!
