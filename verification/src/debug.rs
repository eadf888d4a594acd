//! The debug channel of the service: which requests it understands and how
//! it names its answers.
use vstd::prelude::*;
use crate::store::ConnectionStore;
use crate::text::{owned, str_eq};

verus! {

/// What an answer on the debug channel holds.
#[derive(Clone, Copy, Debug, PartialEq, Eq, Structural)]
pub enum Kind {
    Conn,
    Conns,
    Nodes,
}

/// The name an answer of kind `k` carries.
pub open spec fn kind_name(k: Kind) -> Seq<char> {
    match k {
        Kind::Conn => "conn"@,
        Kind::Conns => "conns"@,
        Kind::Nodes => "nodes"@,
    }
}

impl Kind {
    /// The name an answer of this kind carries.
    pub fn name(&self) -> (r: String)
        ensures
            r@ == kind_name(*self),
    {
        match self {
            Kind::Conn => owned("conn"),
            Kind::Conns => owned("conns"),
            Kind::Nodes => owned("nodes"),
        }
    }
}

/// A request the debug channel answers.
#[derive(Clone, Copy, Debug, PartialEq, Eq, Structural)]
pub enum DebugQuery {
    /// The ids of all connections.
    Connections,
    /// All nodes.
    Nodes,
    /// One connection.
    ConnInfo(u128),
}

/// The request named by `kind`: `get_connections`, `get_nodes`, or
/// `get_conn_info` with a connection id; anything else is ignored.
pub open spec fn spec_debug_query(kind: Seq<char>, conn_id: Option<u128>) -> Option<DebugQuery> {
    if kind == "get_connections"@ {
        Some(DebugQuery::Connections)
    } else if kind == "get_nodes"@ {
        Some(DebugQuery::Nodes)
    } else if kind == "get_conn_info"@ {
        match conn_id {
            Some(id) => Some(DebugQuery::ConnInfo(id)),
            None => None,
        }
    } else {
        None
    }
}

/// The request that a debug message of kind `kind` makes.
pub fn debug_query(kind: &str, conn_id: Option<u128>) -> (r: Option<DebugQuery>)
    ensures
        r == spec_debug_query(kind@, conn_id),
        kind@ == "get_connections"@ ==> r == Some(DebugQuery::Connections),
        kind@ == "get_nodes"@ ==> r == Some(DebugQuery::Nodes),
        kind@ == "get_conn_info"@ ==> r == (match conn_id {
            Some(id) => Some(DebugQuery::ConnInfo(id)),
            None => None,
        }),
        kind@ != "get_connections"@ && kind@ != "get_nodes"@ && kind@ != "get_conn_info"@ ==> r is None,
{
    proof {
        reveal_strlit("get_connections");
        reveal_strlit("get_nodes");
        reveal_strlit("get_conn_info");
        assert("get_connections"@.len() == 15 && "get_nodes"@.len() == 9 && "get_conn_info"@.len() == 13);
    }
    if str_eq(kind, "get_connections") {
        Some(DebugQuery::Connections)
    } else if str_eq(kind, "get_nodes") {
        Some(DebugQuery::Nodes)
    } else if str_eq(kind, "get_conn_info") {
        match conn_id {
            Some(id) => Some(DebugQuery::ConnInfo(id)),
            None => None,
        }
    } else {
        None
    }
}

/// The kind of the answer to a debug request.
pub fn answer_kind(q: DebugQuery) -> (r: Kind)
    ensures
        q is Connections ==> r == Kind::Conns,
        q is Nodes ==> r == Kind::Nodes,
        q is ConnInfo ==> r == Kind::Conn,
{
    match q {
        DebugQuery::Connections => Kind::Conns,
        DebugQuery::Nodes => Kind::Nodes,
        DebugQuery::ConnInfo(_) => Kind::Conn,
    }
}

/// The kind and length of the answer to a debug request, from the agent's
/// connections: all connection ids (their number), all nodes (the length
/// carried is the number of connections), or one known connection (length
/// one); `None` for an unknown connection, which gets no answer.
pub fn debug_answer(q: DebugQuery, store: &ConnectionStore) -> (r: Option<(Kind, usize)>)
    requires
        store.well_formed(),
    ensures
        q is Connections ==> r == Some((Kind::Conns, store@.len() as usize)),
        q is Nodes ==> r == Some((Kind::Nodes, store@.len() as usize)),
        q matches DebugQuery::ConnInfo(id) ==> (store.spec_get(id) is Some ==> r == Some((Kind::Conn, 1usize))),
        q matches DebugQuery::ConnInfo(id) ==> (store.spec_get(id) is None ==> r is None),
{
    match q {
        DebugQuery::Connections => Some((Kind::Conns, store.len())),
        DebugQuery::Nodes => Some((Kind::Nodes, store.len())),
        DebugQuery::ConnInfo(id) => {
            if store.contains(id) {
                Some((Kind::Conn, 1))
            } else {
                None
            }
        },
    }
}

} // verus!
