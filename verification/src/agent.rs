//! Decisions of the node agent: what to do with each message from the API
//! service, which connections to bring back from a snapshot, which topics to
//! listen to, and how it starts.
use vstd::prelude::*;
use crate::codec::{UrlError, push_url_segment, url_parses, url_with_segment};
use crate::codec::{uuid_string, uuid_text};
use crate::connection::{Connection, ConnectionStat, Proto, WgParam};
use crate::store::ConnectionStore;
use crate::tag::{ProtoTag, is_plain_xray, is_synced_by_agent};
use crate::text::{owned, str_eq};

verus! {

/// What the API service asks a node to do with a connection.
#[derive(Clone, Copy, Debug, PartialEq, Eq, Structural)]
pub enum Action {
    Create,
    Update,
    Delete,
    ResetStat,
}

/// A message from the API service to nodes.
#[derive(Debug)]
pub struct Message {
    pub action: Action,
    pub conn_id: u128,
    pub tag: ProtoTag,
    pub wg: Option<WgParam>,
    pub password: Option<String>,
    pub expires_at: Option<i64>,
    pub subscription_id: Option<u128>,
}

/// What the agent does for one message, or why it cannot.
#[derive(Debug)]
pub enum AgentStep {
    /// Store the connection, then add the WireGuard peer: refused after the
    /// storing when the node has no WireGuard interface, or when a peer with
    /// that public key exists (see `store_wireguard_connection`).
    AddWireguardPeer { conn_id: u128, param: WgParam, node_id: u128, expires_at: Option<i64>, subscription_id: Option<u128> },
    /// Add the user to the Xray inbound of `tag`, then store the connection.
    AddXrayUser { conn_id: u128, tag: ProtoTag, password: Option<String>, expires_at: Option<i64>, subscription_id: Option<u128> },
    /// Remove the WireGuard peer with this public key, then forget the connection.
    RemoveWireguardPeer { conn_id: u128, pubkey: String },
    /// Remove the user from the Xray inbound of `tag`, then forget the connection.
    RemoveXrayUser { conn_id: u128, tag: ProtoTag, password: Option<String> },
    /// Reset the traffic counters of the connection.
    ResetStat { conn_id: u128 },
    /// The message cannot be handled; the text says why.
    Refuse(String),
}

/// The decision for a message, with which tools the node has (an Xray core,
/// a WireGuard interface) and the node's own id. A refusal is given as its text.
pub open spec fn spec_step(m: Message, node_id: u128, xray: bool, wg: bool) -> Result<AgentStep, Seq<char>> {
    match m.action {
        Action::Create | Action::Update => match m.tag {
            ProtoTag::Wireguard => match m.wg {
                None => Err("Missing WireGuard keys"@),
                Some(p) => Ok(AgentStep::AddWireguardPeer {
                    conn_id: m.conn_id,
                    param: p,
                    node_id,
                    expires_at: m.expires_at,
                    subscription_id: m.subscription_id,
                }),
            },
            ProtoTag::Shadowsocks => match m.password {
                None => Err("Password not provided for Shadowsocks user"@),
                Some(p) => if !xray {
                    Err("Xray handler unavailable"@)
                } else {
                    Ok(AgentStep::AddXrayUser {
                        conn_id: m.conn_id,
                        tag: m.tag,
                        password: Some(p),
                        expires_at: m.expires_at,
                        subscription_id: m.subscription_id,
                    })
                },
            },
            ProtoTag::Hysteria2 => Err("Hysteria2 is not supported"@),
            ProtoTag::Mtproto => Err("Mtproto is not supported"@),
            t => if !xray {
                Err("Xray handler unavailable"@)
            } else {
                Ok(AgentStep::AddXrayUser {
                    conn_id: m.conn_id,
                    tag: t,
                    password: None,
                    expires_at: m.expires_at,
                    subscription_id: m.subscription_id,
                })
            },
        },
        Action::Delete => match m.tag {
            ProtoTag::Wireguard => if !wg {
                Err("WireGuard API is unavailable"@)
            } else {
                match m.wg {
                    None => Err("Missing WireGuard keys in message"@),
                    Some(p) => Ok(AgentStep::RemoveWireguardPeer { conn_id: m.conn_id, pubkey: p.keys.pubkey }),
                }
            },
            ProtoTag::Hysteria2 => Err("Hysteria2 is not supported"@),
            ProtoTag::Mtproto => Err("Mtproto is not supported"@),
            t => if !xray {
                Err("Xray handler unavailable"@)
            } else {
                Ok(AgentStep::RemoveXrayUser { conn_id: m.conn_id, tag: t, password: m.password })
            },
        },
        Action::ResetStat => Ok(AgentStep::ResetStat { conn_id: m.conn_id }),
    }
}

/// Decides what the agent does with message `m` on node `node_id`, where
/// `xray` and `wg` tell whether an Xray core and a WireGuard interface are
/// available.
pub fn step_for_message(m: Message, node_id: u128, xray: bool, wg: bool) -> (r: AgentStep)
    ensures
        match spec_step(m, node_id, xray, wg) {
            Ok(s) => r == s,
            Err(text) => r matches AgentStep::Refuse(e) && e@ == text,
        },
{
    match m.action {
        Action::Create | Action::Update => match m.tag {
            ProtoTag::Wireguard => match m.wg {
                None => AgentStep::Refuse(owned("Missing WireGuard keys")),
                Some(p) => AgentStep::AddWireguardPeer {
                    conn_id: m.conn_id,
                    param: p,
                    node_id,
                    expires_at: m.expires_at,
                    subscription_id: m.subscription_id,
                },
            },
            ProtoTag::Shadowsocks => match m.password {
                None => AgentStep::Refuse(owned("Password not provided for Shadowsocks user")),
                Some(p) => if !xray {
                    AgentStep::Refuse(owned("Xray handler unavailable"))
                } else {
                    AgentStep::AddXrayUser {
                        conn_id: m.conn_id,
                        tag: m.tag,
                        password: Some(p),
                        expires_at: m.expires_at,
                        subscription_id: m.subscription_id,
                    }
                },
            },
            ProtoTag::Hysteria2 => AgentStep::Refuse(owned("Hysteria2 is not supported")),
            ProtoTag::Mtproto => AgentStep::Refuse(owned("Mtproto is not supported")),
            t => if !xray {
                AgentStep::Refuse(owned("Xray handler unavailable"))
            } else {
                AgentStep::AddXrayUser {
                    conn_id: m.conn_id,
                    tag: t,
                    password: None,
                    expires_at: m.expires_at,
                    subscription_id: m.subscription_id,
                }
            },
        },
        Action::Delete => match m.tag {
            ProtoTag::Wireguard => if !wg {
                AgentStep::Refuse(owned("WireGuard API is unavailable"))
            } else {
                match m.wg {
                    None => AgentStep::Refuse(owned("Missing WireGuard keys in message")),
                    Some(p) => AgentStep::RemoveWireguardPeer { conn_id: m.conn_id, pubkey: p.keys.pubkey },
                }
            },
            ProtoTag::Hysteria2 => AgentStep::Refuse(owned("Hysteria2 is not supported")),
            ProtoTag::Mtproto => AgentStep::Refuse(owned("Mtproto is not supported")),
            t => if !xray {
                AgentStep::Refuse(owned("Xray handler unavailable"))
            } else {
                AgentStep::RemoveXrayUser { conn_id: m.conn_id, tag: t, password: m.password }
            },
        },
        Action::ResetStat => AgentStep::ResetStat { conn_id: m.conn_id },
    }
}

/// How a connection from a snapshot is brought back into the running tools.
#[derive(Debug)]
pub enum RestoreStep {
    /// Add the WireGuard peer with these parameters.
    WireguardPeer(WgParam),
    /// Add the user to the Xray inbound of `tag`, with the Shadowsocks password if any.
    XrayUser { tag: ProtoTag, password: Option<String> },
    /// Leave the connection as it is.
    Skip,
}

/// What restoring a connection of protocol `p` does, with the tools the node has.
pub open spec fn spec_restore(p: Proto, xray: bool, wg: bool) -> RestoreStep {
    match p {
        Proto::Wireguard { param, .. } => if wg {
            RestoreStep::WireguardPeer(param)
        } else {
            RestoreStep::Skip
        },
        Proto::Shadowsocks { password } => if xray {
            RestoreStep::XrayUser { tag: ProtoTag::Shadowsocks, password: Some(password) }
        } else {
            RestoreStep::Skip
        },
        Proto::Xray(t) => if xray && is_plain_xray(t) {
            RestoreStep::XrayUser { tag: t, password: None }
        } else {
            RestoreStep::Skip
        },
        Proto::Hysteria2 { .. } => RestoreStep::Skip,
    }
}

/// Decides how a connection of protocol `p` found in a snapshot is restored.
pub fn restore_step(p: &Proto, xray: bool, wg: bool) -> (r: RestoreStep)
    ensures
        r == spec_restore(*p, xray, wg),
        *p matches Proto::Xray(t) ==> (xray && (t == ProtoTag::VlessTcpReality
            || t == ProtoTag::VlessGrpcReality || t == ProtoTag::VlessXhttpReality
            || t == ProtoTag::Vmess) <==> r == (RestoreStep::XrayUser { tag: t, password: None })),
        *p matches Proto::Xray(t) ==> (r is Skip || r == (RestoreStep::XrayUser { tag: t, password: None })),
        *p matches Proto::Wireguard { param, .. } ==> r == (if wg {
            RestoreStep::WireguardPeer(param)
        } else {
            RestoreStep::Skip
        }),
        *p matches Proto::Shadowsocks { password } ==> r == (if xray {
            RestoreStep::XrayUser { tag: ProtoTag::Shadowsocks, password: Some(password) }
        } else {
            RestoreStep::Skip
        }),
        *p is Hysteria2 ==> r is Skip,
{
    match p {
        Proto::Wireguard { param, .. } => if wg {
            RestoreStep::WireguardPeer(param.clone())
        } else {
            RestoreStep::Skip
        },
        Proto::Shadowsocks { password } => if xray {
            RestoreStep::XrayUser { tag: ProtoTag::Shadowsocks, password: Some(password.clone()) }
        } else {
            RestoreStep::Skip
        },
        Proto::Xray(t) => if xray && t.is_plain_xray() {
            RestoreStep::XrayUser { tag: *t, password: None }
        } else {
            RestoreStep::Skip
        },
        Proto::Hysteria2 { .. } => RestoreStep::Skip,
    }
}

/// What a node does with a message follows its action and tag: creating or
/// updating a VLESS Reality or VMess connection adds the user to the inbound of
/// that tag without a password, a Shadowsocks one with its password, both only
/// where an Xray core runs; creating a WireGuard connection adds the peer that
/// the message carries, on this node; deleting removes the user or the peer of
/// that message; a reset of statistics always goes through; Hysteria2 and
/// Mtproto connections are never handled. Every accepted step concerns the
/// message's own connection.
pub proof fn lemma_step_follows_message(m: Message, node_id: u128, xray: bool, wg: bool)
    ensures
        (m.action == Action::Create || m.action == Action::Update) && (m.tag == ProtoTag::VlessTcpReality
            || m.tag == ProtoTag::VlessGrpcReality || m.tag == ProtoTag::VlessXhttpReality
            || m.tag == ProtoTag::Vmess) ==> spec_step(m, node_id, xray, wg) == (if xray {
            Ok(AgentStep::AddXrayUser {
                conn_id: m.conn_id,
                tag: m.tag,
                password: None,
                expires_at: m.expires_at,
                subscription_id: m.subscription_id,
            })
        } else {
            Err("Xray handler unavailable"@)
        }),
        (m.action == Action::Create || m.action == Action::Update) && m.tag == ProtoTag::Shadowsocks
            && xray && m.password is Some ==> spec_step(m, node_id, xray, wg) == Ok::<AgentStep, Seq<char>>(
            AgentStep::AddXrayUser {
                conn_id: m.conn_id,
                tag: ProtoTag::Shadowsocks,
                password: m.password,
                expires_at: m.expires_at,
                subscription_id: m.subscription_id,
            },
        ),
        (m.action == Action::Create || m.action == Action::Update) && m.tag == ProtoTag::Shadowsocks
            && m.password is None ==> spec_step(m, node_id, xray, wg) is Err,
        (m.action == Action::Create || m.action == Action::Update) && m.tag == ProtoTag::Wireguard ==> (
        m.wg is Some <==> spec_step(m, node_id, xray, wg) is Ok),
        (m.action == Action::Create || m.action == Action::Update) && m.tag == ProtoTag::Wireguard
            && m.wg is Some ==> spec_step(m, node_id, xray, wg) == Ok::<AgentStep, Seq<char>>(
            AgentStep::AddWireguardPeer {
                conn_id: m.conn_id,
                param: m.wg.unwrap(),
                node_id,
                expires_at: m.expires_at,
                subscription_id: m.subscription_id,
            },
        ),
        m.action == Action::Delete && (m.tag == ProtoTag::VlessTcpReality || m.tag
            == ProtoTag::VlessGrpcReality || m.tag == ProtoTag::VlessXhttpReality || m.tag
            == ProtoTag::Vmess || m.tag == ProtoTag::Shadowsocks) ==> spec_step(m, node_id, xray, wg) == (
        if xray {
            Ok(AgentStep::RemoveXrayUser { conn_id: m.conn_id, tag: m.tag, password: m.password })
        } else {
            Err("Xray handler unavailable"@)
        }),
        m.action == Action::Delete && m.tag == ProtoTag::Wireguard && wg && m.wg is Some
            ==> spec_step(m, node_id, xray, wg) == Ok::<AgentStep, Seq<char>>(
            AgentStep::RemoveWireguardPeer { conn_id: m.conn_id, pubkey: m.wg.unwrap().keys.pubkey },
        ),
        m.action == Action::Delete && m.tag == ProtoTag::Wireguard && !(wg && m.wg is Some)
            ==> spec_step(m, node_id, xray, wg) is Err,
        m.action == Action::ResetStat ==> spec_step(m, node_id, xray, wg) == Ok::<AgentStep, Seq<char>>(
            AgentStep::ResetStat { conn_id: m.conn_id },
        ),
        m.action != Action::ResetStat && (m.tag == ProtoTag::Hysteria2 || m.tag == ProtoTag::Mtproto)
            ==> spec_step(m, node_id, xray, wg) is Err,
{
}

/// Restoring a snapshot brings back every user of the four plain Xray
/// protocols (VLESS TCP, gRPC and XHTTP Reality, and VMess) into the inbound of
/// its own tag without a password, whenever the node runs Xray; a Shadowsocks
/// user comes back with its password, a WireGuard peer with its keys and
/// address when the node runs WireGuard; nothing else is restored.
pub proof fn lemma_restore_by_protocol(p: Proto, xray: bool, wg: bool)
    ensures
        forall|t: ProtoTag| xray && (t == ProtoTag::VlessTcpReality
            || t == ProtoTag::VlessGrpcReality || t == ProtoTag::VlessXhttpReality
            || t == ProtoTag::Vmess) ==> #[trigger] spec_restore(Proto::Xray(t), xray, wg)
            == (RestoreStep::XrayUser { tag: t, password: None }),
        forall|t: ProtoTag| !(xray && (t == ProtoTag::VlessTcpReality
            || t == ProtoTag::VlessGrpcReality || t == ProtoTag::VlessXhttpReality
            || t == ProtoTag::Vmess)) ==> #[trigger] spec_restore(Proto::Xray(t), xray, wg) is Skip,
        p matches Proto::Shadowsocks { password } ==> spec_restore(p, xray, wg) == (if xray {
            RestoreStep::XrayUser { tag: ProtoTag::Shadowsocks, password: Some(password) }
        } else {
            RestoreStep::Skip
        }),
        p matches Proto::Wireguard { param, .. } ==> spec_restore(p, xray, wg) == (if wg {
            RestoreStep::WireguardPeer(param)
        } else {
            RestoreStep::Skip
        }),
        p is Hysteria2 ==> spec_restore(p, xray, wg) is Skip,
{
}

/// A topic of the message bus, as the agent reads it.
#[derive(Debug)]
pub enum Topic {
    /// Initial state for one node, named by its id.
    Init(String),
    /// Updates for one environment.
    Updates(String),
    /// Messages for every node.
    All,
    Unknown(String),
}

/// A message under `t` concerns the node whose own topic is `node_topic` and
/// whose environment topic is `env_topic`.
pub open spec fn spec_accepts(t: Topic, node_topic: Seq<char>, env_topic: Seq<char>) -> bool {
    match t {
        Topic::Init(id) => id@ == node_topic,
        Topic::Updates(env) => env@ == env_topic,
        Topic::All => true,
        Topic::Unknown(_) => false,
    }
}

/// Whether a message under topic `t` is for this node.
pub fn accepts_topic(t: &Topic, node_topic: &str, env_topic: &str) -> (r: bool)
    ensures
        r == spec_accepts(*t, node_topic@, env_topic@),
{
    match t {
        Topic::Init(id) => str_eq(id.as_str(), node_topic),
        Topic::Updates(env) => str_eq(env.as_str(), env_topic),
        Topic::All => true,
        Topic::Unknown(_) => false,
    }
}

/// Which tools a node runs.
#[derive(Clone, Copy, Debug, PartialEq, Eq, Structural)]
pub enum NodeType {
    All,
    Wireguard,
    Xray,
}

/// The kind of node from what is enabled; `None` when neither WireGuard nor
/// Xray is, which the agent refuses to run with.
pub fn node_type(wg_enabled: bool, xray_enabled: bool) -> (r: Option<NodeType>)
    ensures
        wg_enabled && xray_enabled ==> r == Some(NodeType::All),
        wg_enabled && !xray_enabled ==> r == Some(NodeType::Wireguard),
        !wg_enabled && xray_enabled ==> r == Some(NodeType::Xray),
        !wg_enabled && !xray_enabled ==> r is None,
{
    if wg_enabled && xray_enabled {
        Some(NodeType::All)
    } else if wg_enabled {
        Some(NodeType::Wireguard)
    } else if xray_enabled {
        Some(NodeType::Xray)
    } else {
        None
    }
}

/// Worker threads of the agent's runtime: one on a single core, two per core otherwise.
pub fn worker_threads(num_cpus: usize) -> (r: usize)
    requires
        num_cpus * 2 <= usize::MAX,
    ensures
        num_cpus <= 1 ==> r == 1,
        num_cpus > 1 ==> r == num_cpus * 2,
{
    if num_cpus <= 1 {
        1
    } else {
        num_cpus * 2
    }
}

/// The tags among `tags` the agent fetches connections for, in order.
pub open spec fn synced_tags(tags: Seq<ProtoTag>) -> Seq<ProtoTag> {
    tags.filter(|t: ProtoTag| is_synced_by_agent(t))
}

/// After registering, the agent fetches connections for exactly the tags of
/// its inbounds other than Hysteria2 and Mtproto.
pub proof fn lemma_synced_tags(tags: Seq<ProtoTag>, t: ProtoTag)
    ensures
        synced_tags(tags).contains(t) <==> (tags.contains(t) && t != ProtoTag::Hysteria2 && t != ProtoTag::Mtproto),
{
    let pred = |x: ProtoTag| is_synced_by_agent(x);
    if synced_tags(tags).contains(t) {
        tags.lemma_filter_contains_rev(pred, t);
        let i = choose|i: int| 0 <= i < tags.filter(pred).len() && tags.filter(pred)[i] == t;
        tags.lemma_filter_pred(pred, i);
    }
    if tags.contains(t) && t != ProtoTag::Hysteria2 && t != ProtoTag::Mtproto {
        let i = choose|i: int| 0 <= i < tags.len() && tags[i] == t;
        tags.lemma_filter_contains(pred, i);
    }
}

/// Of a node's inbound tags, those whose connections the agent fetches after
/// registering: all but Hysteria2 and Mtproto.
pub fn tags_to_sync(tags: &Vec<ProtoTag>) -> (r: Vec<ProtoTag>)
    ensures
        r@ == synced_tags(tags@),
{
    let mut out: Vec<ProtoTag> = Vec::new();
    let mut i: usize = 0;
    while i < tags.len()
        invariant
            i <= tags@.len(),
            out@ == synced_tags(tags@.take(i as int)),
        decreases tags@.len() - i,
    {
        proof {
            reveal(Seq::filter);
            assert(tags@.take(i + 1).drop_last() =~= tags@.take(i as int));
        }
        if tags[i].is_synced_by_agent() {
            out.push(tags[i]);
        }
        i = i + 1;
    }
    assert(tags@.take(tags@.len() as int) =~= tags@);
    out
}

/// What the agent concludes from the status of an API answer: success and
/// "not modified" are accepted, anything else is a failure.
pub fn api_answer_accepted(status: u16) -> (r: bool)
    ensures
        r == ((200 <= status < 300) || status == 304),
{
    (200 <= status && status < 300) || status == 304
}

/// The address of API resource `segment` under the API endpoint `endpoint`
/// (the agent uses `node` to register and `connections` to fetch its
/// connections): the endpoint with one more path segment. An endpoint that is
/// no URL is refused with the URL parser's explanation, one that cannot have
/// a path with "Invalid API endpoint".
pub fn api_resource_url(endpoint: &str, segment: &str) -> (r: Result<String, String>)
    ensures
        r is Ok <==> (url_parses(endpoint@) && url_with_segment(endpoint@, segment@) is Some),
        r matches Ok(s) ==> url_with_segment(endpoint@, segment@) == Some(s@),
        url_parses(endpoint@) && url_with_segment(endpoint@, segment@) is None
            ==> (r matches Err(m) && m@ == "Invalid API endpoint"@),
{
    match push_url_segment(endpoint, segment) {
        Ok(s) => Ok(s),
        Err(UrlError::Parse(e)) => Err(e),
        Err(UrlError::CannotBeABase) => Err(owned("Invalid API endpoint")),
    }
}

/// The connection the agent keeps for a created connection: no traffic yet,
/// created and modified at `now`, not deleted.
pub open spec fn agent_connection(
    env: String,
    proto: Proto,
    expires_at: Option<i64>,
    subscription_id: Option<u128>,
    now: i64,
) -> Connection {
    Connection {
        env,
        proto,
        stat: ConnectionStat { online: 0, uplink: 0, downlink: 0 },
        subscription_id,
        created_at: now,
        modified_at: now,
        expires_at,
        is_deleted: false,
    }
}

/// The agent's memory after adding `c` under `id`: unchanged when `id` is
/// taken, else `c` is added.
pub open spec fn memory_with(mem: ConnectionStore, id: u128, c: Connection, x: u128) -> Option<Connection> {
    if x == id && mem.spec_get(id) is None {
        Some(c)
    } else {
        mem.spec_get(x)
    }
}

fn remember(
    mem: &mut ConnectionStore,
    conn_id: u128,
    proto: Proto,
    expires_at: Option<i64>,
    subscription_id: Option<u128>,
    env: String,
    now: i64,
)
    requires
        old(mem).well_formed(),
    ensures
        final(mem).well_formed(),
        forall|x: u128|
            #![trigger final(mem).spec_get(x)]
            final(mem).spec_get(x) == memory_with(
                *old(mem),
                conn_id,
                agent_connection(env, proto, expires_at, subscription_id, now),
                x,
            ),
{
    let c = Connection {
        env,
        proto,
        stat: ConnectionStat::zero(),
        subscription_id,
        created_at: now,
        modified_at: now,
        expires_at,
        is_deleted: false,
    };
    let _ = mem.add(conn_id, c);
}

/// The protocol the agent stores for an Xray user of tag `tag`: Shadowsocks
/// with its password, else the Xray protocol of that tag.
pub open spec fn xray_proto(tag: ProtoTag, password: Option<String>) -> Proto {
    if tag == ProtoTag::Shadowsocks {
        Proto::Shadowsocks { password: password.unwrap() }
    } else {
        Proto::Xray(tag)
    }
}

/// The end of an Xray or Shadowsocks creation (an `AddXrayUser` step), once
/// the Xray core answered `created`: on success the connection, with the
/// protocol of its tag (and password, for Shadowsocks), is stored in the
/// agent's memory; on failure the memory is left as it was and the creation
/// is refused with "Failed to create conn <id>: <error>".
pub fn store_xray_connection(
    mem: &mut ConnectionStore,
    conn_id: u128,
    tag: ProtoTag,
    password: Option<String>,
    expires_at: Option<i64>,
    subscription_id: Option<u128>,
    env: String,
    now: i64,
    created: Result<(), String>,
) -> (r: Result<(), String>)
    requires
        old(mem).well_formed(),
        is_plain_xray(tag) || (tag == ProtoTag::Shadowsocks && password is Some),
    ensures
        final(mem).well_formed(),
        created matches Err(e) ==> (r matches Err(m) && m@ == "Failed to create conn "@ + uuid_text(conn_id)
            + ": "@ + e@) && final(mem)@ == old(mem)@,
        created is Ok ==> r is Ok && forall|x: u128|
            #![trigger final(mem).spec_get(x)]
            final(mem).spec_get(x) == memory_with(
                *old(mem),
                conn_id,
                agent_connection(env, xray_proto(tag, password), expires_at, subscription_id, now),
                x,
            ),
{
    match created {
        Err(e) => {
            let mut m = owned("Failed to create conn ");
            let id = uuid_string(conn_id);
            m.append(id.as_str());
            m.append(": ");
            m.append(e.as_str());
            Err(m)
        },
        Ok(()) => {
            let proto = if tag == ProtoTag::Shadowsocks {
                Proto::Shadowsocks { password: password.unwrap() }
            } else {
                Proto::Xray(tag)
            };
            remember(mem, conn_id, proto, expires_at, subscription_id, env, now);
            Ok(())
        },
    }
}

/// The start of a WireGuard creation: the connection is stored in the agent's
/// memory first; then, without a WireGuard interface, the creation is refused
/// with "WireGuard API is unavailable" (the stored connection stays). `Ok`
/// means: ask the interface whether a peer with the key exists.
pub fn store_wireguard_connection(
    mem: &mut ConnectionStore,
    conn_id: u128,
    param: WgParam,
    node_id: u128,
    expires_at: Option<i64>,
    subscription_id: Option<u128>,
    env: String,
    now: i64,
    wg_available: bool,
) -> (r: Result<(), String>)
    requires
        old(mem).well_formed(),
    ensures
        final(mem).well_formed(),
        forall|x: u128|
            #![trigger final(mem).spec_get(x)]
            final(mem).spec_get(x) == memory_with(
                *old(mem),
                conn_id,
                agent_connection(env, Proto::Wireguard { param, node_id }, expires_at, subscription_id, now),
                x,
            ),
        wg_available <==> r is Ok,
        r matches Err(m) ==> m@ == "WireGuard API is unavailable"@,
{
    remember(mem, conn_id, Proto::Wireguard { param, node_id }, expires_at, subscription_id, env, now);
    if !wg_available {
        return Err(owned("WireGuard API is unavailable"));
    }
    Ok(())
}

/// Whether the peer is created, from whether the interface already has a
/// peer with its key: an existing peer is refused with "WG User already exist".
pub fn wireguard_peer_decision(exists: bool) -> (r: Result<(), String>)
    ensures
        !exists <==> r is Ok,
        r matches Err(m) ==> m@ == "WG User already exist"@,
{
    if exists {
        return Err(owned("WG User already exist"));
    }
    Ok(())
}

/// The end of a WireGuard creation, once the interface answered `created`.
pub fn wireguard_peer_created(created: Result<(), String>) -> (r: Result<(), String>)
    ensures
        created is Ok ==> r is Ok,
        created matches Err(e) ==> (r matches Err(m) && m@ == "Failed to create WireGuard peer: "@ + e@),
{
    match created {
        Ok(()) => Ok(()),
        Err(e) => {
            let mut m = owned("Failed to create WireGuard peer: ");
            m.append(e.as_str());
            Err(m)
        },
    }
}

/// The text a failed removal is refused with: the WireGuard interface's or
/// the Xray core's.
pub open spec fn removal_error(tag: ProtoTag, e: Seq<char>) -> Seq<char> {
    if tag == ProtoTag::Wireguard {
        "Failed to delete WireGuard peer: "@ + e
    } else {
        "Couldn't remove connection from Xray: "@ + e
    }
}

/// The end of a deletion, once the WireGuard interface (for tag `Wireguard`)
/// or the Xray core answered `removed`: on success the connection is
/// forgotten and every other one stays; on failure the memory is left as it
/// was and the deletion is refused with the tool's error.
pub fn forget_removed(
    mem: &mut ConnectionStore,
    conn_id: u128,
    tag: ProtoTag,
    removed: Result<(), String>,
) -> (r: Result<(), String>)
    requires
        old(mem).well_formed(),
    ensures
        final(mem).well_formed(),
        removed matches Err(e) ==> (r matches Err(m) && m@ == removal_error(tag, e@)) && final(mem)@
            == old(mem)@,
        removed is Ok ==> r is Ok && forall|x: u128|
            #![trigger final(mem).spec_get(x)]
            final(mem).spec_get(x) == if x == conn_id {
                None
            } else {
                old(mem).spec_get(x)
            },
{
    match removed {
        Err(e) => {
            let mut m = if tag == ProtoTag::Wireguard {
                owned("Failed to delete WireGuard peer: ")
            } else {
                owned("Couldn't remove connection from Xray: ")
            };
            m.append(e.as_str());
            Err(m)
        },
        Ok(()) => {
            let _ = mem.remove(conn_id);
            Ok(())
        },
    }
}

/// The end of a statistics reset.
pub fn reset_outcome(reset: Result<(), String>) -> (r: Result<(), String>)
    ensures
        reset is Ok ==> r is Ok,
        reset matches Err(e) ==> (r matches Err(m) && m@ == "Couldn't reset stat: "@ + e@),
{
    match reset {
        Ok(()) => Ok(()),
        Err(e) => {
            let mut m = owned("Couldn't reset stat: ");
            m.append(e.as_str());
            Err(m)
        },
    }
}

/// What the agent starts with.
#[derive(Clone, Copy, Debug, PartialEq, Eq, Structural)]
pub struct StartPlan {
    pub node_type: NodeType,
    /// Set up the Xray core and load the node's Xray inbounds.
    pub xray: bool,
    /// Set up the WireGuard interface.
    pub wireguard: bool,
    /// Register the node with the API service (a standalone node does not).
    pub register: bool,
    /// Send metrics and heartbeats.
    pub metrics: bool,
    /// Collect Xray and WireGuard traffic statistics.
    pub stats: bool,
    /// Serve the debug channel.
    pub debug: bool,
}

/// What the agent starts, from its settings: the tools that are enabled;
/// registration with the API unless the node runs standalone (`local`); the
/// metrics, statistics and debug tasks when enabled. The agent refuses to run
/// with neither Xray nor WireGuard enabled.
pub fn start_plan(
    local: bool,
    xray_enabled: bool,
    wg_enabled: bool,
    metrics_enabled: bool,
    stat_enabled: bool,
    debug_enabled: bool,
) -> (p: StartPlan)
    requires
        xray_enabled || wg_enabled,
    ensures
        Some(p.node_type) == spec_node_type(wg_enabled, xray_enabled),
        p.xray == xray_enabled,
        p.wireguard == wg_enabled,
        p.register == !local,
        p.metrics == metrics_enabled,
        p.stats == stat_enabled,
        p.debug == debug_enabled,
{
    let t = if wg_enabled && xray_enabled {
        NodeType::All
    } else if wg_enabled {
        NodeType::Wireguard
    } else {
        NodeType::Xray
    };
    StartPlan {
        node_type: t,
        xray: xray_enabled,
        wireguard: wg_enabled,
        register: !local,
        metrics: metrics_enabled,
        stats: stat_enabled,
        debug: debug_enabled,
    }
}

/// The start plan where the settings admit one; `None` when neither Xray nor
/// WireGuard is enabled, which the agent refuses to run with ("At least Wg
/// or Xray should be enabled").
pub fn try_start_plan(
    local: bool,
    xray_enabled: bool,
    wg_enabled: bool,
    metrics_enabled: bool,
    stat_enabled: bool,
    debug_enabled: bool,
) -> (r: Option<StartPlan>)
    ensures
        r is None <==> (!xray_enabled && !wg_enabled),
        r matches Some(p) ==> {
            &&& Some(p.node_type) == spec_node_type(wg_enabled, xray_enabled)
            &&& p.xray == xray_enabled
            &&& p.wireguard == wg_enabled
            &&& p.register == !local
            &&& p.metrics == metrics_enabled
            &&& p.stats == stat_enabled
            &&& p.debug == debug_enabled
        },
{
    if !xray_enabled && !wg_enabled {
        return None;
    }
    Some(start_plan(local, xray_enabled, wg_enabled, metrics_enabled, stat_enabled, debug_enabled))
}

/// The kind of node from what is enabled.
pub open spec fn spec_node_type(wg_enabled: bool, xray_enabled: bool) -> Option<NodeType> {
    if wg_enabled && xray_enabled {
        Some(NodeType::All)
    } else if wg_enabled {
        Some(NodeType::Wireguard)
    } else if xray_enabled {
        Some(NodeType::Xray)
    } else {
        None
    }
}

/// What the agent concludes from the service's answer to its request for
/// connections: a success must carry the count of connections sent, a "not
/// modified" answer is accepted, anything else is a failure.
pub fn connections_answer(status: u16, count: Option<i64>) -> (r: Result<(), String>)
    ensures
        (200 <= status < 300) ==> (count is Some <==> r is Ok),
        (200 <= status < 300) && count is None ==> (r matches Err(m) && m@ == "Unexpected instance type"@),
        status == 304 ==> r is Ok,
        !(200 <= status < 300) && status != 304 ==> r is Err,
{
    if 200 <= status && status < 300 {
        match count {
            Some(_) => Ok(()),
            None => Err(owned("Unexpected instance type")),
        }
    } else if status == 304 {
        Ok(())
    } else {
        Err(owned("Connections Request failed"))
    }
}

/// The snapshot restore plan: refused with "Empty snapshot" when the snapshot
/// holds no connection; else, for every stored connection in order, how it is
/// brought back with the tools the node has.
pub fn restore_plan(store: &ConnectionStore, xray: bool, wg: bool) -> (r: Result<Vec<(u128, RestoreStep)>, String>)
    ensures
        store@.len() == 0 <==> r is Err,
        r matches Err(m) ==> m@ == "Empty snapshot"@,
        r matches Ok(v) ==> v@.len() == store@.len() && forall|i: int|
            0 <= i < v@.len() ==> (#[trigger] v@[i]).0 == store@[i].0 && v@[i].1 == spec_restore(
                store@[i].1.proto,
                xray,
                wg,
            ),
{
    if store.len() == 0 {
        return Err(owned("Empty snapshot"));
    }
    let mut out: Vec<(u128, RestoreStep)> = Vec::new();
    let mut i: usize = 0;
    while i < store.len()
        invariant
            i <= store@.len(),
            out@.len() == i,
            forall|k: int|
                0 <= k < i ==> (#[trigger] out@[k]).0 == store@[k].0 && out@[k].1 == spec_restore(
                    store@[k].1.proto,
                    xray,
                    wg,
                ),
        decreases store@.len() - i,
    {
        let (id, c) = store.entry_at(i);
        let step = restore_step(&c.proto, xray, wg);
        out.push((id, step));
        i = i + 1;
    }
    Ok(out)
}

} // verus!
