//! Deciding how a requested connection is made: its node and address for
//! WireGuard, its credentials otherwise.
use vstd::prelude::*;
use crate::connection::{Proto, WgParam};
use crate::codec::{uuid_string, uuid_text};
use crate::net::{IpMask, in_network, spec_next_ip, increment_ip, ip_in_mask, ipv4_string, ipv4_text, mask_string, mask_text};
use crate::text::owned;
use crate::node::{Node, WgSettings, spec_node, spec_inbound, chrono_timestamp_representable, find_node, timestamp_representable};
use crate::request::{ConnCreateRequest, conn_request_error};
use crate::store::{ConnectionStore, max_wg_addr, wg_peer_at};
use crate::subscription::SubscriptionStore;
use crate::tag::ProtoTag;

verus! {

/// Why a connection cannot be created.
#[derive(Debug)]
pub enum CreateError {
    /// The request breaks a rule of `ConnCreateRequest::validate`.
    Invalid(String),
    SubscriptionNotFound(u128),
    /// The node asked for does not exist, is in another environment or has no
    /// inbound of the protocol.
    NodeMismatch,
    /// No node was found to place a WireGuard peer on.
    NoNodeAvailable,
    InvalidCidr,
    AddressTaken,
    AddressOutOfNetmask(IpMask),
    NodeNotFound,
    InboundNotFound,
    WireguardSettingsMissing,
    IpGenerationFailed,
    GeneratedOutOfNetmask(u32, IpMask),
}

/// The HTTP status the service answers an error with.
pub open spec fn spec_status_of(e: CreateError) -> u16 {
    match e {
        CreateError::NoNodeAvailable | CreateError::NodeNotFound
        | CreateError::InboundNotFound => 404,
        CreateError::AddressTaken => 409,
        _ => 400,
    }
}

impl CreateError {
    /// The HTTP status the service answers this error with.
    pub fn status(&self) -> (r: u16)
        ensures
            r == spec_status_of(*self),
    {
        match self {
            CreateError::NoNodeAvailable | CreateError::NodeNotFound
            | CreateError::InboundNotFound => 404,
            CreateError::AddressTaken => 409,
            _ => 400,
        }
    }
}

/// How the protocol of the new connection is obtained.
#[derive(Debug)]
pub enum ProtoPlan {
    /// The protocol is complete as it stands.
    Given(Proto),
    /// A WireGuard peer with a fresh key pair, at `address` on node `node_id`.
    NewWireguardPeer { address: IpMask, node_id: u128 },
}

/// What a connection request resolves to.
#[derive(Debug)]
pub struct ConnPlan {
    pub proto: ProtoPlan,
    pub expires_at: Option<i64>,
}

/// The end of a connection of `d` days created at `now` is a time `chrono` can hold.
pub open spec fn expiry_representable(now: i64, d: u16) -> bool {
    &&& i64::MIN <= now + d * 86400 <= i64::MAX
    &&& chrono_timestamp_representable((now + d * 86400) as i64)
}

/// The inputs on which creating a connection does not fail on an unwrap or on
/// time arithmetic: the end of a valid request's period is a valid time (it is
/// computed before anything else is checked), and once its subscription is
/// known (or it names none) a valid Shadowsocks request carries its password
/// and a valid Hysteria2 request its token.
pub open spec fn plan_preconditions(req: ConnCreateRequest, sub_known: bool, now: i64) -> bool {
    conn_request_error(req) is None ==> {
        &&& req.days matches Some(d) ==> expiry_representable(now, d)
        &&& sub_known ==> {
            &&& req.proto == ProtoTag::Shadowsocks ==> req.password is Some
            &&& req.proto == ProtoTag::Hysteria2 ==> req.token is Some
        }
    }
}

/// Whether creating a connection for `req` at `now`, with the subscriptions
/// `subs`, stays clear of the failures that `plan_preconditions` rules out.
pub fn plan_preconditions_hold(req: &ConnCreateRequest, subs: &SubscriptionStore, now: i64) -> (r: bool)
    ensures
        r == plan_preconditions(*req, subscription_known(*req, subs@), now),
{
    if req.validate().is_err() {
        return true;
    }
    match req.days {
        None => {},
        Some(d) => {
            let end: i128 = now as i128 + (d as i128) * 86400;
            if end < i64::MIN as i128 || end > i64::MAX as i128 {
                return false;
            }
            if !timestamp_representable(end as i64) {
                return false;
            }
        },
    }
    let known = match req.subscription_id {
        None => true,
        Some(sid) => subs.find_by_id(sid).is_some(),
    };
    if !known {
        return true;
    }
    if req.proto == ProtoTag::Shadowsocks && req.password.is_none() {
        return false;
    }
    if req.proto == ProtoTag::Hysteria2 && req.token.is_none() {
        return false;
    }
    true
}

/// The node a WireGuard peer goes to: the one asked for, if it exists, is in
/// the request's environment and has an inbound of the protocol; otherwise the
/// least loaded node of the environment, if there is one.
pub open spec fn spec_wg_node(req: ConnCreateRequest, nodes: Seq<Node>, least_loaded: Option<u128>) -> Result<u128, CreateError> {
    match req.node_id {
        Some(n) => if (spec_node(nodes, n) matches Some(node) && node.env@ == req.env@
            && spec_inbound(node.inbounds@, req.proto) is Some) {
            Ok(n)
        } else {
            Err(CreateError::NodeMismatch)
        },
        None => match least_loaded {
            Some(n) => Ok(n),
            None => Err(CreateError::NoNodeAvailable),
        },
    }
}

/// The WireGuard settings of the inbound of tag `t` on node `id`.
pub open spec fn inbound_wg(nodes: Seq<Node>, id: u128, t: ProtoTag) -> Option<WgSettings> {
    match spec_node(nodes, id) {
        None => None,
        Some(node) => match spec_inbound(node.inbounds@, t) {
            None => None,
            Some(ib) => ib.wg,
        },
    }
}

/// The address proposed for a new peer: one past the largest address of any
/// stored peer; failing that, two past the WireGuard inbound's own address.
pub open spec fn spec_next_peer_address(store_max: Option<u32>, base: Option<u32>) -> Option<u32> {
    let from_max = match store_max {
        Some(m) => spec_next_ip(m),
        None => None,
    };
    match from_max {
        Some(a) => Some(a),
        None => match base {
            Some(b) => match spec_next_ip(b) {
                Some(b1) => spec_next_ip(b1),
                None => None,
            },
            None => None,
        },
    }
}

/// A given WireGuard peer on node `node_id`: its prefix length is at most 32,
/// no stored peer of that node has its address, and it lies in the network of
/// the node's WireGuard inbound (when that inbound has WireGuard settings).
pub open spec fn spec_given_peer(
    req: ConnCreateRequest,
    p: WgParam,
    node_id: u128,
    nodes: Seq<Node>,
    conns: Seq<(u128, crate::connection::Connection)>,
) -> Result<ProtoPlan, CreateError> {
    if p.address.cidr > 32 {
        Err(CreateError::InvalidCidr)
    } else if exists|i: int| 0 <= i < conns.len() && wg_peer_at(conns[i].1, node_id, p.address.addr) {
        Err(CreateError::AddressTaken)
    } else {
        match inbound_wg(nodes, node_id, req.proto) {
            Some(ws) => if !in_network(ws.network, p.address.addr) {
                Err(CreateError::AddressOutOfNetmask(ws.network))
            } else {
                Ok(ProtoPlan::Given(Proto::Wireguard { param: p, node_id }))
            },
            None => Ok(ProtoPlan::Given(Proto::Wireguard { param: p, node_id })),
        }
    }
}

/// The own address of the WireGuard inbound of a node.
pub open spec fn wg_base(node: Node) -> Option<u32> {
    match spec_inbound(node.inbounds@, ProtoTag::Wireguard) {
        Some(wib) => match wib.wg {
            Some(w) => Some(w.address),
            None => None,
        },
        None => None,
    }
}

fn wg_inbound_address(node: &Node) -> (r: Option<u32>)
    ensures
        r == wg_base(*node),
{
    match node.inbound(ProtoTag::Wireguard) {
        Some(w) => match &node.inbounds[w].wg {
            Some(ws) => Some(ws.address),
            None => None,
        },
        None => None,
    }
}

/// A generated WireGuard peer on node `node_id`.
pub open spec fn spec_generated_peer(
    req: ConnCreateRequest,
    node_id: u128,
    nodes: Seq<Node>,
    conns: Seq<(u128, crate::connection::Connection)>,
) -> Result<ProtoPlan, CreateError> {
    match spec_node(nodes, node_id) {
        None => Err(CreateError::NodeNotFound),
        Some(node) => match spec_inbound(node.inbounds@, req.proto) {
            None => Err(CreateError::InboundNotFound),
            Some(ib) => match ib.wg {
                None => Err(CreateError::WireguardSettingsMissing),
                Some(ws) => {
                    match spec_next_peer_address(max_wg_addr(conns), wg_base(node)) {
                        None => Err(CreateError::IpGenerationFailed),
                        Some(a) => if !in_network(ws.network, a) {
                            Err(CreateError::GeneratedOutOfNetmask(a, ws.network))
                        } else {
                            Ok(ProtoPlan::NewWireguardPeer { address: IpMask { addr: a, cidr: 32 }, node_id })
                        },
                    }
                },
            },
        },
    }
}

/// The protocol part of creating a connection.
pub open spec fn spec_proto_plan(
    req: ConnCreateRequest,
    nodes: Seq<Node>,
    conns: Seq<(u128, crate::connection::Connection)>,
    least_loaded: Option<u128>,
) -> Result<ProtoPlan, CreateError> {
    match req.proto {
        ProtoTag::Wireguard => match spec_wg_node(req, nodes, least_loaded) {
            Err(e) => Err(e),
            Ok(node_id) => match req.wg {
                Some(p) => spec_given_peer(req, p, node_id, nodes, conns),
                None => spec_generated_peer(req, node_id, nodes, conns),
            },
        },
        ProtoTag::Shadowsocks => Ok(ProtoPlan::Given(Proto::Shadowsocks { password: req.password.unwrap() })),
        ProtoTag::Hysteria2 => Ok(ProtoPlan::Given(Proto::Hysteria2 { token: req.token.unwrap() })),
        t => Ok(ProtoPlan::Given(Proto::Xray(t))),
    }
}

/// What a valid connection request resolves to, given whether its
/// subscription is known, the nodes and stored connections, the node the
/// balancer would pick, and the time.
pub open spec fn spec_plan(
    req: ConnCreateRequest,
    sub_known: bool,
    nodes: Seq<Node>,
    conns: Seq<(u128, crate::connection::Connection)>,
    least_loaded: Option<u128>,
    now: i64,
) -> Result<ConnPlan, CreateError> {
    if req.subscription_id is Some && !sub_known {
        Err(CreateError::SubscriptionNotFound(req.subscription_id.unwrap()))
    } else {
        match spec_proto_plan(req, nodes, conns, least_loaded) {
            Err(e) => Err(e),
            Ok(p) => Ok(
                ConnPlan {
                    proto: p,
                    expires_at: match req.days {
                        Some(d) => Some((now + d * 86400) as i64),
                        None => None,
                    },
                },
            ),
        }
    }
}

/// The subscription of the request is stored (or the request names none).
pub open spec fn subscription_known(req: ConnCreateRequest, subs: Seq<crate::subscription::Subscription>) -> bool {
    req.subscription_id matches Some(id) ==> exists|j: int| 0 <= j < subs.len() && subs[j].id == id
}

fn wg_node(req: &ConnCreateRequest, nodes: &Vec<Node>, least_loaded: Option<u128>) -> (r: Result<u128, CreateError>)
    ensures
        r == spec_wg_node(*req, nodes@, least_loaded),
{
    match req.node_id {
        Some(n) => {
            match find_node(nodes, n) {
                None => Err(CreateError::NodeMismatch),
                Some(i) => {
                    let node = &nodes[i];
                    if node.env == req.env && node.inbound(req.proto).is_some() {
                        Ok(n)
                    } else {
                        Err(CreateError::NodeMismatch)
                    }
                },
            }
        },
        None => match least_loaded {
            Some(n) => Ok(n),
            None => Err(CreateError::NoNodeAvailable),
        },
    }
}

fn inbound_network(nodes: &Vec<Node>, id: u128, t: ProtoTag) -> (r: Option<IpMask>)
    ensures
        match inbound_wg(nodes@, id, t) {
            Some(ws) => r == Some(ws.network),
            None => r is None,
        },
{
    match find_node(nodes, id) {
        None => None,
        Some(i) => match nodes[i].inbound(t) {
            None => None,
            Some(k) => match &nodes[i].inbounds[k].wg {
                Some(ws) => Some(ws.network),
                None => None,
            },
        },
    }
}

/// The address proposed for a new WireGuard peer, from the largest stored
/// peer address and the WireGuard inbound's own address.
pub fn next_peer_address(store_max: Option<u32>, base: Option<u32>) -> (r: Option<u32>)
    ensures
        r == spec_next_peer_address(store_max, base),
{
    let from_max = match store_max {
        Some(m) => increment_ip(m),
        None => None,
    };
    match from_max {
        Some(a) => Some(a),
        None => match base {
            Some(b) => match increment_ip(b) {
                Some(b1) => increment_ip(b1),
                None => None,
            },
            None => None,
        },
    }
}

fn generated_peer(req: &ConnCreateRequest, node_id: u128, nodes: &Vec<Node>, store: &ConnectionStore) -> (r: Result<ProtoPlan, CreateError>)
    ensures
        r == spec_generated_peer(*req, node_id, nodes@, store@),
{
    let i = match find_node(nodes, node_id) {
        None => return Err(CreateError::NodeNotFound),
        Some(i) => i,
    };
    let node = &nodes[i];
    let k = match node.inbound(req.proto) {
        None => return Err(CreateError::InboundNotFound),
        Some(k) => k,
    };
    assert(spec_node(nodes@, node_id) == Some(*node));
    assert(spec_inbound(node.inbounds@, req.proto) == Some(node.inbounds@[k as int]));
    let network = match &node.inbounds[k].wg {
        None => return Err(CreateError::WireguardSettingsMissing),
        Some(ws) => ws.network,
    };
    let base = wg_inbound_address(node);
    let m = store.max_wireguard_address();
    match next_peer_address(m, base) {
        None => Err(CreateError::IpGenerationFailed),
        Some(a) => {
            if !ip_in_mask(&network, a) {
                Err(CreateError::GeneratedOutOfNetmask(a, network))
            } else {
                Ok(ProtoPlan::NewWireguardPeer { address: IpMask::new(a, 32), node_id })
            }
        },
    }
}

/// Resolves a connection request: checks it, checks its subscription, and
/// decides its protocol; a WireGuard request gets a node (the one it names or
/// `least_loaded`) and an address (the one it gives, if free and inside the
/// node's network, or a new one past every stored peer).
pub fn plan_connection(
    req: ConnCreateRequest,
    subs: &SubscriptionStore,
    nodes: &Vec<Node>,
    store: &ConnectionStore,
    least_loaded: Option<u128>,
    now: i64,
) -> (r: Result<ConnPlan, CreateError>)
    requires
        plan_preconditions(req, subscription_known(req, subs@), now),
    ensures
        conn_request_error(req) matches Some(m) ==> (r matches Err(CreateError::Invalid(e)) && e@ == m),
        conn_request_error(req) is None ==> r == spec_plan(
            req,
            subscription_known(req, subs@),
            nodes@,
            store@,
            least_loaded,
            now,
        ),
{
    if let Err(e) = req.validate() {
        return Err(CreateError::Invalid(e));
    }
    let expires_at = match req.days {
        Some(d) => Some(now + (d as i64) * 86400),
        None => None,
    };
    if let Some(sid) = req.subscription_id {
        if subs.find_by_id(sid).is_none() {
            return Err(CreateError::SubscriptionNotFound(sid));
        }
    }
    let ghost req0 = req;
    let proto = match req.proto {
        ProtoTag::Wireguard => {
            let node_id = match wg_node(&req, nodes, least_loaded) {
                Err(e) => return Err(e),
                Ok(n) => n,
            };
            match req.wg {
                Some(p) => {
                    if p.address.cidr > 32 {
                        return Err(CreateError::InvalidCidr);
                    }
                    if store.wireguard_address_taken(node_id, p.address.addr) {
                        return Err(CreateError::AddressTaken);
                    }
                    match inbound_network(nodes, node_id, req.proto) {
                        Some(net) => {
                            if !ip_in_mask(&net, p.address.addr) {
                                return Err(CreateError::AddressOutOfNetmask(net));
                            }
                        },
                        None => {},
                    }
                    ProtoPlan::Given(Proto::Wireguard { param: p, node_id })
                },
                None => {
                    match generated_peer(&req, node_id, nodes, store) {
                        Err(e) => return Err(e),
                        Ok(p) => p,
                    }
                },
            }
        },
        ProtoTag::Shadowsocks => ProtoPlan::Given(Proto::Shadowsocks { password: req.password.unwrap() }),
        ProtoTag::Hysteria2 => ProtoPlan::Given(Proto::Hysteria2 { token: req.token.unwrap() }),
        t => ProtoPlan::Given(Proto::Xray(t)),
    };
    Ok(ConnPlan { proto, expires_at })
}

/// The node and address of the WireGuard peer a protocol plan adds, if any.
pub open spec fn planned_peer(p: ProtoPlan) -> Option<(u128, u32)> {
    match p {
        ProtoPlan::NewWireguardPeer { address, node_id } => Some((node_id, address.addr)),
        ProtoPlan::Given(Proto::Wireguard { param, node_id }) => Some((node_id, param.address.addr)),
        _ => None,
    }
}

/// No stored connection is a WireGuard peer of node `n` at address `a`.
pub open spec fn peer_address_free(conns: Seq<(u128, crate::connection::Connection)>, n: u128, a: u32) -> bool {
    forall|i: int| 0 <= i < conns.len() ==> !wg_peer_at(#[trigger] conns[i].1, n, a)
}

/// A peer generated past the largest stored address collides with no stored peer.
proof fn lemma_generated_address_free(conns: Seq<(u128, crate::connection::Connection)>, base: Option<u32>, n: u128)
    requires
        max_wg_addr(conns) != Some(u32::MAX),
        spec_next_peer_address(max_wg_addr(conns), base) is Some,
    ensures
        peer_address_free(conns, n, spec_next_peer_address(max_wg_addr(conns), base).unwrap()),
{
    crate::store::lemma_max_wg_addr(conns);
    let a = spec_next_peer_address(max_wg_addr(conns), base).unwrap();
    assert forall|i: int| 0 <= i < conns.len() implies !wg_peer_at(#[trigger] conns[i].1, n, a) by {
        if wg_peer_at(conns[i].1, n, a) {
            assert(crate::connection::proto_wireguard(conns[i].1.proto) is Some);
        }
    }
}

/// A connection plan never adds a WireGuard peer at an address that a stored
/// peer of the same node already holds, and the address lies in the network
/// of the node's WireGuard inbound when that inbound has WireGuard settings.
/// (A generated address can collide only when a stored peer holds
/// 255.255.255.255, since the next address after it does not exist; those
/// stores are left out.)
pub proof fn lemma_planned_peer_is_free(
    req: ConnCreateRequest,
    sub_known: bool,
    nodes: Seq<Node>,
    conns: Seq<(u128, crate::connection::Connection)>,
    least_loaded: Option<u128>,
    now: i64,
)
    requires
        max_wg_addr(conns) != Some(u32::MAX),
    ensures
        spec_plan(req, sub_known, nodes, conns, least_loaded, now) matches Ok(plan) ==> (
        planned_peer(plan.proto) matches Some((n, a)) ==> {
            &&& peer_address_free(conns, n, a)
            &&& inbound_wg(nodes, n, req.proto) matches Some(ws) ==> in_network(ws.network, a)
        }),
{
    if spec_plan(req, sub_known, nodes, conns, least_loaded, now) is Ok && req.proto == ProtoTag::Wireguard {
        let node_id = spec_wg_node(req, nodes, least_loaded).unwrap();
        if req.wg is None {
            let node = spec_node(nodes, node_id).unwrap();
            lemma_generated_address_free(conns, wg_base(node), node_id);
        }
    }
}

/// Resolves a connection request as `plan_connection` does, after checking
/// its preconditions; `None` when they fail (a Shadowsocks request without
/// password or a Hysteria2 request without token whose subscription is known,
/// or a period whose end is no valid time), where creating it cannot go on.
pub fn try_plan_connection(
    req: ConnCreateRequest,
    subs: &SubscriptionStore,
    nodes: &Vec<Node>,
    store: &ConnectionStore,
    least_loaded: Option<u128>,
    now: i64,
) -> (r: Option<Result<ConnPlan, CreateError>>)
    ensures
        r is None <==> !plan_preconditions(req, subscription_known(req, subs@), now),
        r matches Some(p) ==> {
            &&& conn_request_error(req) matches Some(m) ==> (p matches Err(CreateError::Invalid(e)) && e@ == m)
            &&& conn_request_error(req) is None ==> p == spec_plan(
                req,
                subscription_known(req, subs@),
                nodes@,
                store@,
                least_loaded,
                now,
            )
        },
{
    if !plan_preconditions_hold(&req, subs, now) {
        return None;
    }
    Some(plan_connection(req, subs, nodes, store, least_loaded, now))
}

/// The text the service answers an error with.
pub open spec fn spec_error_message(e: CreateError) -> Seq<char> {
    match e {
        CreateError::Invalid(m) => m@,
        CreateError::SubscriptionNotFound(id) => "Subscription "@ + uuid_text(id) + " not found"@,
        CreateError::NodeMismatch => "node_id doesn't exist, mismatched env or missing WireGuard inbound"@,
        CreateError::NoNodeAvailable => "Node not found for  WireGuard connection"@,
        CreateError::InvalidCidr => "Invalid CIDR: must be 0..=32"@,
        CreateError::AddressTaken => "Address already taken for this node_id"@,
        CreateError::AddressOutOfNetmask(m) => "Address out of node netmask "@ + mask_text(m),
        CreateError::NodeNotFound => "Node not found"@,
        CreateError::InboundNotFound => "Inbound for proto not found"@,
        CreateError::WireguardSettingsMissing => "WireGuard settings missing"@,
        CreateError::IpGenerationFailed => "Failed to generate next IP"@,
        CreateError::GeneratedOutOfNetmask(a, m) => "Generated address "@ + ipv4_text(a)
            + " is out of node netmask "@ + mask_text(m),
    }
}

impl CreateError {
    /// The text the service answers this error with.
    pub fn message(&self) -> (r: String)
        ensures
            r@ == spec_error_message(*self),
    {
        match self {
            CreateError::Invalid(m) => m.clone(),
            CreateError::SubscriptionNotFound(id) => {
                let mut s = owned("Subscription ");
                let t = uuid_string(*id);
                s.append(t.as_str());
                s.append(" not found");
                s
            },
            CreateError::NodeMismatch => owned("node_id doesn't exist, mismatched env or missing WireGuard inbound"),
            CreateError::NoNodeAvailable => owned("Node not found for  WireGuard connection"),
            CreateError::InvalidCidr => owned("Invalid CIDR: must be 0..=32"),
            CreateError::AddressTaken => owned("Address already taken for this node_id"),
            CreateError::AddressOutOfNetmask(m) => {
                let mut s = owned("Address out of node netmask ");
                let t = mask_string(m);
                s.append(t.as_str());
                s
            },
            CreateError::NodeNotFound => owned("Node not found"),
            CreateError::InboundNotFound => owned("Inbound for proto not found"),
            CreateError::WireguardSettingsMissing => owned("WireGuard settings missing"),
            CreateError::IpGenerationFailed => owned("Failed to generate next IP"),
            CreateError::GeneratedOutOfNetmask(a, m) => {
                let mut s = owned("Generated address ");
                let t = ipv4_string(*a);
                s.append(t.as_str());
                s.append(" is out of node netmask ");
                let u = mask_string(m);
                s.append(u.as_str());
                s
            },
        }
    }
}

/// A request whose subscription is unknown is refused with that
/// subscription's id; otherwise a request of any protocol but WireGuard is
/// always planned, with the protocol it asks for: an Xray protocol as is, a
/// Shadowsocks connection with the request's password, a Hysteria2 one with
/// its token. Every plan ends `days` whole days after `now`, or never when the
/// request gives no period. A generated WireGuard peer is a single address
/// (prefix 32), one past the largest address of any stored peer when that
/// address exists.
pub proof fn lemma_plan_by_protocol(
    req: ConnCreateRequest,
    sub_known: bool,
    nodes: Seq<Node>,
    conns: Seq<(u128, crate::connection::Connection)>,
    least_loaded: Option<u128>,
    now: i64,
)
    ensures
        req.subscription_id matches Some(id) ==> (!sub_known ==> spec_plan(req, sub_known, nodes, conns, least_loaded, now)
            == Err::<ConnPlan, CreateError>(CreateError::SubscriptionNotFound(id))),
        !(req.subscription_id is Some && !sub_known) && req.proto != ProtoTag::Wireguard ==> (spec_plan(
            req,
            sub_known,
            nodes,
            conns,
            least_loaded,
            now,
        ) matches Ok(plan) && plan.proto == ProtoPlan::Given(
            if req.proto == ProtoTag::Shadowsocks {
                Proto::Shadowsocks { password: req.password.unwrap() }
            } else if req.proto == ProtoTag::Hysteria2 {
                Proto::Hysteria2 { token: req.token.unwrap() }
            } else {
                Proto::Xray(req.proto)
            },
        )),
        spec_plan(req, sub_known, nodes, conns, least_loaded, now) matches Ok(plan) ==> plan.expires_at == (
        if req.days is Some {
            Some((now + req.days.unwrap() * 86400) as i64)
        } else {
            None::<i64>
        }),
        spec_plan(req, sub_known, nodes, conns, least_loaded, now) matches Ok(plan) ==> (
        plan.proto matches ProtoPlan::NewWireguardPeer { address, .. } ==> address.cidr == 32 && (max_wg_addr(
            conns,
        ) matches Some(m) ==> (m < u32::MAX ==> address.addr == m + 1))),
{
}

/// A WireGuard connection plan puts the peer on the node the request names
/// only when that node is stored, lies in the request's environment and has
/// a WireGuard inbound; a request that names no node gets the balancer's node.
pub proof fn lemma_planned_node_matches_request(
    req: ConnCreateRequest,
    sub_known: bool,
    nodes: Seq<Node>,
    conns: Seq<(u128, crate::connection::Connection)>,
    least_loaded: Option<u128>,
    now: i64,
)
    ensures
        spec_plan(req, sub_known, nodes, conns, least_loaded, now) matches Ok(plan) ==> (req.proto
            == ProtoTag::Wireguard ==> (planned_peer(plan.proto) matches Some((n, _)) && match req.node_id {
            Some(id) => n == id && (spec_node(nodes, id) matches Some(node) && node.env@ == req.env@
                && spec_inbound(node.inbounds@, ProtoTag::Wireguard) is Some),
            None => least_loaded == Some(n),
        })),
        req.proto == ProtoTag::Wireguard && conn_request_error(req) is None && (req.subscription_id is None
            || sub_known) ==> (req.node_id matches Some(id) ==> (!(spec_node(nodes, id) matches Some(node)
            && node.env@ == req.env@ && spec_inbound(node.inbounds@, ProtoTag::Wireguard) is Some) ==> spec_plan(
            req,
            sub_known,
            nodes,
            conns,
            least_loaded,
            now,
        ) == Err::<ConnPlan, CreateError>(CreateError::NodeMismatch))),
{
}

} // verus!
