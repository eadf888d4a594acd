//! How the API service combines the outcome of the database and of the
//! in-memory stores when it adds nodes and connections, and what it answers.
use vstd::prelude::*;
use crate::codec::{uuid_string, uuid_text};
use crate::agent::{Action, AgentStep, Message, spec_step};
use crate::tag::ProtoTag;
use crate::connection::{Proto, Connection, proto_password, proto_tag, proto_token, proto_wireguard, proto_wireguard_node};
use crate::request::ConnUpdateRequest;
use crate::node::SyncError;
use crate::store::{ConnectionStore, OperationStatus, deletable, deleted_version, status_text};
use crate::text::owned;

verus! {

fn unexpected_status(s: &OperationStatus) -> (r: String)
    ensures
        r@ == "Unexpected operation status: "@ + status_text(*s),
{
    let mut m = owned("Unexpected operation status: ");
    let t = s.text();
    m.append(t.as_str());
    m
}

/// The result of adding node `node_id` to memory, once the database accepted it:
/// a new, existing or updated node counts as added; "not modified" is passed
/// on; any other status is a memory error "Unexpected operation status: ..."
/// naming the status; a memory error is passed on.
pub fn add_node_outcome(node_id: u128, mem: Result<OperationStatus, String>) -> (r: Result<OperationStatus, SyncError>)
    ensures
        mem matches Ok(OperationStatus::Success(_)) ==> r == Ok::<OperationStatus, SyncError>(OperationStatus::Success(node_id)),
        mem matches Ok(OperationStatus::AlreadyExist(_)) ==> r == Ok::<OperationStatus, SyncError>(OperationStatus::Success(node_id)),
        mem matches Ok(OperationStatus::Updated(_)) ==> r == Ok::<OperationStatus, SyncError>(OperationStatus::Success(node_id)),
        mem matches Ok(OperationStatus::NotModified(id)) ==> r == Ok::<OperationStatus, SyncError>(OperationStatus::NotModified(id)),
        mem matches Ok(s) ==> (!(s is Success || s is AlreadyExist || s is Updated || s is NotModified)
            ==> (r matches Err(SyncError::Memory(m)) && m@ == "Unexpected operation status: "@ + status_text(s))),
        mem matches Err(e) ==> r == Err::<OperationStatus, SyncError>(SyncError::Memory(e)),
{
    match mem {
        Ok(OperationStatus::Success(_)) | Ok(OperationStatus::AlreadyExist(_))
        | Ok(OperationStatus::Updated(_)) => Ok(OperationStatus::Success(node_id)),
        Ok(OperationStatus::NotModified(id)) => Ok(OperationStatus::NotModified(id)),
        Ok(other) => Err(SyncError::Memory(unexpected_status(&other))),
        Err(e) => Err(SyncError::Memory(e)),
    }
}

/// The result of adding a connection to memory, once the database accepted
/// it: a new or existing connection counts as added, a bad request is passed
/// on; any other status is a memory error "Unexpected operation status: ..."
/// naming the status; a memory error is passed on.
pub fn add_conn_outcome(mem: Result<OperationStatus, String>) -> (r: Result<OperationStatus, SyncError>)
    ensures
        mem matches Ok(OperationStatus::Success(id)) ==> r == Ok::<OperationStatus, SyncError>(OperationStatus::Success(id)),
        mem matches Ok(OperationStatus::AlreadyExist(id)) ==> r == Ok::<OperationStatus, SyncError>(OperationStatus::Success(id)),
        mem matches Ok(OperationStatus::BadRequest(id, m)) ==> r == Ok::<OperationStatus, SyncError>(OperationStatus::BadRequest(id, m)),
        mem matches Ok(s) ==> (!(s is Success || s is AlreadyExist || s is BadRequest)
            ==> (r matches Err(SyncError::Memory(m)) && m@ == "Unexpected operation status: "@ + status_text(s))),
        mem matches Err(e) ==> r == Err::<OperationStatus, SyncError>(SyncError::Memory(e)),
{
    match mem {
        Ok(OperationStatus::Success(id)) | Ok(OperationStatus::AlreadyExist(id)) => Ok(OperationStatus::Success(id)),
        Ok(OperationStatus::BadRequest(id, m)) => Ok(OperationStatus::BadRequest(id, m)),
        Ok(other) => Err(SyncError::Memory(unexpected_status(&other))),
        Err(e) => Err(SyncError::Memory(e)),
    }
}

/// What the service answers a node registration with: the HTTP status, and
/// the node id when it is accepted (then the node is also marked online).
pub fn node_registration_reply(r: &Result<OperationStatus, SyncError>) -> (out: (u16, Option<u128>))
    ensures
        r matches Ok(OperationStatus::Success(id)) ==> out == (200u16, Some(*id)),
        r matches Ok(OperationStatus::AlreadyExist(id)) ==> out == (200u16, Some(*id)),
        r matches Ok(OperationStatus::NotModified(id)) ==> out == (200u16, Some(*id)),
        r matches Ok(s) ==> (!(s is Success || s is AlreadyExist || s is NotModified) ==> out == (400u16, None::<u128>)),
        r is Err ==> out == (500u16, None::<u128>),
{
    match r {
        Ok(OperationStatus::Success(id)) | Ok(OperationStatus::AlreadyExist(id))
        | Ok(OperationStatus::NotModified(id)) => (200, Some(*id)),
        Ok(_) => (400, None),
        Err(_) => (500, None),
    }
}

/// What the service answers a connection creation with: 200 when it was
/// added (then it is published), 304 when it exists, 400 for a bad request
/// or an unexpected status, 500 on an error.
pub fn conn_creation_status(r: &Result<OperationStatus, SyncError>) -> (s: u16)
    ensures
        r matches Ok(OperationStatus::Success(_)) ==> s == 200,
        r matches Ok(OperationStatus::AlreadyExist(_)) ==> s == 304,
        r matches Ok(st) ==> (!(st is Success || st is AlreadyExist) ==> s == 400),
        r is Err ==> s == 500,
{
    match r {
        Ok(OperationStatus::Success(_)) => 200,
        Ok(OperationStatus::AlreadyExist(_)) => 304,
        Ok(_) => 400,
        Err(_) => 500,
    }
}

/// What the service answers a connection deletion with, from the stored
/// connection before the deletion and the deletion's result: 404 when the
/// connection is unknown or already deleted (then nothing is deleted), else 200
/// on success, 404 when it vanished meanwhile, 400 for another status, 500 on
/// an error.
pub fn conn_deletion_status(before: Option<&Connection>, r: &Result<OperationStatus, SyncError>) -> (s: u16)
    ensures
        before is None ==> s == 404,
        before matches Some(c) ==> (c.is_deleted ==> s == 404),
        before matches Some(c) ==> (!c.is_deleted ==> {
            &&& r matches Ok(OperationStatus::Success(_)) ==> s == 200
            &&& r matches Ok(OperationStatus::NotFound(_)) ==> s == 404
            &&& r matches Ok(st) ==> (!(st is Success || st is NotFound) ==> s == 400)
            &&& r is Err ==> s == 500
        }),
{
    match before {
        None => 404,
        Some(c) => {
            if c.is_deleted {
                return 404;
            }
            match r {
                Ok(OperationStatus::Success(_)) => 200,
                Ok(OperationStatus::NotFound(_)) => 404,
                Ok(_) => 400,
                Err(_) => 500,
            }
        },
    }
}

/// The bus topic a connection is published under: its WireGuard node (peers
/// are configured on one node), `all` for Hysteria2 (its authentication
/// serves every environment), otherwise its environment.
pub open spec fn spec_publish_topic(c: Connection) -> Seq<char> {
    match proto_wireguard_node(c.proto) {
        Some(n) => uuid_text(n),
        None => match proto_token(c.proto) {
            Some(_) => "all"@,
            None => c.env@,
        },
    }
}

/// The bus topic connection `c` is published under.
pub fn publish_topic(c: &Connection) -> (r: String)
    ensures
        r@ == spec_publish_topic(*c),
        c.proto matches Proto::Wireguard { node_id, .. } ==> r@ == uuid_text(node_id),
        c.proto is Hysteria2 ==> r@ == "all"@,
        c.proto is Shadowsocks || c.proto is Xray ==> r@ == c.env@,
{
    match c.get_wireguard_node_id() {
        Some(n) => uuid_string(n),
        None => match c.get_token() {
            Some(_) => owned("all"),
            None => c.env.clone(),
        },
    }
}

/// Why a request is rejected before it reaches a handler.
#[derive(Debug)]
pub enum Rejection {
    MethodNotAllowed,
    Unauthorized,
    Json(String),
    NotFound,
    Other,
}

/// The answer to a rejected request: the status and the error text; `None`
/// passes the rejection on untouched.
pub fn rejection(r: Rejection) -> (out: Option<(u16, String)>)
    ensures
        r is MethodNotAllowed ==> (out matches Some((405, m)) && m@ == "Method Not Allowed"@),
        r is Unauthorized ==> (out matches Some((401, m)) && m@ == "UNAUTHORIZED"@),
        r matches Rejection::Json(e) ==> (out matches Some((400, m)) && m == e),
        r is NotFound ==> (out matches Some((404, m)) && m@ == "Not Found"@),
        r is Other ==> out is None,
{
    match r {
        Rejection::MethodNotAllowed => Some((405, owned("Method Not Allowed"))),
        Rejection::Unauthorized => Some((401, owned("UNAUTHORIZED"))),
        Rejection::Json(e) => Some((400, e)),
        Rejection::NotFound => Some((404, owned("Not Found"))),
        Rejection::Other => None,
    }
}

/// The key a connection's update and delete messages are published under:
/// its node (a WireGuard peer lives on one node), else its environment.
pub open spec fn spec_message_key(c: Connection) -> Seq<char> {
    match proto_wireguard_node(c.proto) {
        Some(n) => uuid_text(n),
        None => c.env@,
    }
}

/// The key connection `c`'s update and delete messages are published under.
pub fn message_key(c: &Connection) -> (r: String)
    ensures
        r@ == spec_message_key(*c),
        c.proto matches Proto::Wireguard { node_id, .. } ==> r@ == uuid_text(node_id),
        !(c.proto is Wireguard) ==> r@ == c.env@,
{
    match c.get_wireguard_node_id() {
        Some(n) => uuid_string(n),
        None => c.env.clone(),
    }
}

/// The message that tells nodes to apply `action` to connection `id`: its
/// tag, WireGuard parameters, password, end and subscription.
pub open spec fn spec_connection_message(id: u128, c: Connection, action: Action) -> Message {
    Message {
        action,
        conn_id: id,
        tag: proto_tag(c.proto),
        wg: proto_wireguard(c.proto),
        password: proto_password(c.proto),
        expires_at: c.expires_at,
        subscription_id: c.subscription_id,
    }
}

/// The message that tells nodes to apply `action` to connection `id`.
pub fn connection_message(id: u128, c: &Connection, action: Action) -> (r: Message)
    ensures
        r == spec_connection_message(id, *c, action),
        r.action == action && r.conn_id == id,
        c.proto matches Proto::Wireguard { param, .. } ==> r.wg == Some(param) && r.tag == ProtoTag::Wireguard,
        c.proto matches Proto::Shadowsocks { password } ==> r.password == Some(password) && r.tag
            == ProtoTag::Shadowsocks,
        c.proto matches Proto::Xray(t) ==> r.tag == t && r.wg is None && r.password is None,
        r.expires_at == c.expires_at && r.subscription_id == c.subscription_id,
{
    let wg = match c.get_wireguard() {
        Some(p) => Some(p.clone()),
        None => None,
    };
    Message {
        action,
        conn_id: id,
        tag: c.proto.proto(),
        wg,
        password: c.get_password(),
        expires_at: c.expires_at,
        subscription_id: c.subscription_id,
    }
}

/// The change that brings back a deleted connection of an active
/// subscription: same environment and password, no longer deleted, period
/// unchanged.
pub fn restore_request(c: &Connection) -> (r: ConnUpdateRequest)
    ensures
        r.env == Some(c.env),
        r.is_deleted == Some(false),
        r.password == proto_password(c.proto),
        r.days is None,
{
    ConnUpdateRequest { env: Some(c.env.clone()), is_deleted: Some(false), password: c.get_password(), days: None }
}

/// Adding a connection: the database is written first; when that fails the
/// memory is left as it was and the error is the database's. Then the
/// connection is added to memory (a taken id leaves memory as it was), and
/// either way the connection counts as added.
pub fn add_conn_synced(
    mem: &mut ConnectionStore,
    conn_id: u128,
    conn: Connection,
    db: Result<(), String>,
) -> (r: Result<OperationStatus, SyncError>)
    requires
        old(mem).well_formed(),
    ensures
        final(mem).well_formed(),
        db matches Err(e) ==> r == Err::<OperationStatus, SyncError>(SyncError::Database(e)) && final(mem)@
            == old(mem)@,
        db is Ok ==> r == Ok::<OperationStatus, SyncError>(OperationStatus::Success(conn_id)) && forall|
            x: u128,
        |
            #![trigger final(mem).spec_get(x)]
            final(mem).spec_get(x) == if x == conn_id && old(mem).spec_get(conn_id) is None {
                Some(conn)
            } else {
                old(mem).spec_get(x)
            },
{
    match db {
        Err(e) => Err(SyncError::Database(e)),
        Ok(()) => {
            let st = mem.add(conn_id, conn);
            add_conn_outcome(Ok(st))
        },
    }
}

/// Whether deleting connection `id` goes on to the database: only a stored
/// connection that is not deleted yet; otherwise the deletion answers
/// `NotFound` and nothing is written.
pub fn deletion_gate(mem: &ConnectionStore, id: u128) -> (r: bool)
    requires
        mem.well_formed(),
    ensures
        r == deletable(mem.spec_get(id)),
{
    match mem.get(id) {
        None => false,
        Some(c) => !c.is_deleted,
    }
}

/// The end of a deletion that passed `deletion_gate`, once the database
/// answered `db`: on failure the memory is left as it was and the error is
/// the database's; on success the connection is marked deleted at `now`.
pub fn finish_deletion(mem: &mut ConnectionStore, id: u128, now: i64, db: Result<(), String>) -> (r: Result<
    OperationStatus,
    SyncError,
>)
    requires
        old(mem).well_formed(),
        deletable(old(mem).spec_get(id)),
    ensures
        final(mem).well_formed(),
        db matches Err(e) ==> r == Err::<OperationStatus, SyncError>(SyncError::Database(e)) && final(mem)@
            == old(mem)@,
        db is Ok ==> r == Ok::<OperationStatus, SyncError>(OperationStatus::Success(id)) && forall|x: u128|
            #![trigger final(mem).spec_get(x)]
            final(mem).spec_get(x) == if x == id {
                Some(deleted_version(old(mem).spec_get(id).unwrap(), now))
            } else {
                old(mem).spec_get(x)
            },
{
    match db {
        Err(e) => Err(SyncError::Database(e)),
        Ok(()) => Ok(mem.mark_deleted(id, now)),
    }
}

/// The message the service publishes for a WireGuard connection lets a node
/// with a WireGuard interface add the peer on a create, with the
/// connection's keys and address, and remove it by its public key on a delete.
pub proof fn lemma_wireguard_message_reaches_agent(id: u128, c: Connection, node: u128, xray: bool)
    ensures
        c.proto matches Proto::Wireguard { param, .. } ==> spec_step(
            spec_connection_message(id, c, Action::Create),
            node,
            xray,
            true,
        ) == Ok::<AgentStep, Seq<char>>(
            AgentStep::AddWireguardPeer {
                conn_id: id,
                param,
                node_id: node,
                expires_at: c.expires_at,
                subscription_id: c.subscription_id,
            },
        ),
        c.proto matches Proto::Wireguard { param, .. } ==> spec_step(
            spec_connection_message(id, c, Action::Delete),
            node,
            xray,
            true,
        ) == Ok::<AgentStep, Seq<char>>(AgentStep::RemoveWireguardPeer { conn_id: id, pubkey: param.keys.pubkey }),
        c.proto matches Proto::Shadowsocks { password } ==> spec_step(
            spec_connection_message(id, c, Action::Create),
            node,
            true,
            false,
        ) == Ok::<AgentStep, Seq<char>>(
            AgentStep::AddXrayUser {
                conn_id: id,
                tag: ProtoTag::Shadowsocks,
                password: Some(password),
                expires_at: c.expires_at,
                subscription_id: c.subscription_id,
            },
        ),
{
}

} // verus!
