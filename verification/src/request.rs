//! Requests the API service receives, and their validation.
use vstd::prelude::*;
use crate::connection::WgParam;
use crate::node::{Inbound, Node, NodeStatus};
use crate::tag::ProtoTag;
use crate::text::owned;

verus! {

/// A request to create a subscription.
#[derive(Debug)]
pub struct Subscription {
    pub referred_by: Option<String>,
    pub refer_code: Option<String>,
    pub days: Option<i64>,
}

/// A request to create an activation key of `days` days.
#[derive(Debug)]
pub struct KeyReq {
    pub days: i16,
    pub distributor: Option<String>,
}

/// A request to activate a key for a subscription.
#[derive(Debug)]
pub struct ActivateKeyReq {
    pub code: String,
    pub subscription_id: u128,
}

/// A request to create a connection.
#[derive(Debug)]
pub struct ConnCreateRequest {
    pub env: String,
    pub token: Option<u128>,
    pub password: Option<String>,
    pub subscription_id: Option<u128>,
    pub proto: ProtoTag,
    pub wg: Option<WgParam>,
    pub node_id: Option<u128>,
    pub days: Option<u16>,
}

/// The first rule a connection request breaks, with its message; `None` when
/// it breaks none. Only one kind of credential may be given, and only the one
/// its protocol uses; Mtproto connections are not created this way.
pub open spec fn conn_request_error(r: ConnCreateRequest) -> Option<Seq<char>> {
    if r.proto == ProtoTag::Mtproto {
        Some("Mtproto is not supported for Connection"@)
    } else if r.password is Some && r.wg is Some {
        Some("Cannot specify both password and wg"@)
    } else if r.token is Some && r.wg is Some {
        Some("Cannot specify both token and wg"@)
    } else if r.token is Some && r.password is Some {
        Some("Cannot specify both token and password"@)
    } else if r.proto != ProtoTag::Wireguard && r.wg is Some {
        Some("Wg params only allowed for Wireguard"@)
    } else if r.proto != ProtoTag::Wireguard && r.node_id is Some {
        Some("node_id only allowed for Wireguard"@)
    } else if r.proto != ProtoTag::Shadowsocks && r.password is Some {
        Some("Password only allowed for Shadowsocks"@)
    } else if r.proto != ProtoTag::Hysteria2 && r.token is Some {
        Some("Token only allowed for Hysteria2"@)
    } else {
        None
    }
}

/// A connection request is accepted exactly when it is not for Mtproto and
/// carries no credential or parameter that its protocol does not use:
/// WireGuard parameters and a node only for WireGuard, a password only for
/// Shadowsocks, a token only for Hysteria2 (so at most one kind of credential).
pub proof fn lemma_accepted_requests(r: ConnCreateRequest)
    ensures
        conn_request_error(r) is None <==> {
            &&& r.proto != ProtoTag::Mtproto
            &&& (r.wg is Some ==> r.proto == ProtoTag::Wireguard)
            &&& (r.node_id is Some ==> r.proto == ProtoTag::Wireguard)
            &&& (r.password is Some ==> r.proto == ProtoTag::Shadowsocks)
            &&& (r.token is Some ==> r.proto == ProtoTag::Hysteria2)
        },
        r.proto == ProtoTag::Mtproto ==> conn_request_error(r) == Some("Mtproto is not supported for Connection"@),
{
}

impl ConnCreateRequest {
    /// Checks the request against the rules of `conn_request_error`.
    pub fn validate(&self) -> (r: Result<(), String>)
        ensures
            match conn_request_error(*self) {
                None => r is Ok,
                Some(m) => r matches Err(e) && e@ == m,
            },
    {
        if self.proto.is_mtproto() {
            return Err(owned("Mtproto is not supported for Connection"));
        }
        if self.password.is_some() && self.wg.is_some() {
            return Err(owned("Cannot specify both password and wg"));
        }
        if self.token.is_some() && self.wg.is_some() {
            return Err(owned("Cannot specify both token and wg"));
        }
        if self.token.is_some() && self.password.is_some() {
            return Err(owned("Cannot specify both token and password"));
        }
        if !self.proto.is_wireguard() && self.wg.is_some() {
            return Err(owned("Wg params only allowed for Wireguard"));
        }
        if !self.proto.is_wireguard() && self.node_id.is_some() {
            return Err(owned("node_id only allowed for Wireguard"));
        }
        if !self.proto.is_shadowsocks() && self.password.is_some() {
            return Err(owned("Password only allowed for Shadowsocks"));
        }
        if !self.proto.is_hysteria2() && self.token.is_some() {
            return Err(owned("Token only allowed for Hysteria2"));
        }
        Ok(())
    }
}

/// A node's registration request.
#[derive(Debug)]
pub struct NodeRequest {
    pub env: String,
    pub hostname: String,
    pub address: u32,
    pub inbounds: Vec<Inbound>,
    pub uuid: u128,
    pub label: String,
    pub interface: String,
    pub cores: usize,
    pub max_bandwidth_bps: i64,
}

impl NodeRequest {
    /// The node the request registers: online, created and modified at `now`.
    pub fn as_node(self, now: i64) -> (r: Node)
        ensures
            r.uuid == self.uuid,
            r.env == self.env,
            r.hostname == self.hostname,
            r.address == self.address,
            r.inbounds == self.inbounds,
            r.status == NodeStatus::Online,
            r.created_at == now,
            r.modified_at == now,
            r.label == self.label,
            r.interface == self.interface,
            r.cores == self.cores,
            r.max_bandwidth_bps == self.max_bandwidth_bps,
    {
        Node {
            uuid: self.uuid,
            env: self.env,
            hostname: self.hostname,
            address: self.address,
            inbounds: self.inbounds,
            status: NodeStatus::Online,
            created_at: now,
            modified_at: now,
            label: self.label,
            interface: self.interface,
            cores: self.cores,
            max_bandwidth_bps: self.max_bandwidth_bps,
        }
    }
}

/// Query of the node list: an environment, or all nodes.
#[derive(Debug)]
pub struct NodesQueryParams {
    pub env: Option<String>,
}

/// A change to a stored connection: each field given replaces the stored one.
#[derive(Debug)]
pub struct ConnUpdateRequest {
    pub env: Option<String>,
    pub is_deleted: Option<bool>,
    pub password: Option<String>,
    pub days: Option<i64>,
}

} // verus!
