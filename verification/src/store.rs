//! The in-memory table of connections, keyed by connection id.
use vstd::prelude::*;
use crate::connection::{Connection, ConnectionStat, Proto, proto_tag, proto_wireguard};
use crate::tag::ProtoTag;
use crate::text::{owned, str_eq};
use crate::codec::{uuid_string, uuid_text};

verus! {

/// No two entries share an id.
pub open spec fn ids_unique(s: Seq<(u128, Connection)>) -> bool {
    forall|i: int, j: int| 0 <= i < s.len() && 0 <= j < s.len() && i != j ==> s[i].0 != s[j].0
}

/// Some entry has id `id`.
pub open spec fn has_id(s: Seq<(u128, Connection)>, id: u128) -> bool {
    exists|i: int| 0 <= i < s.len() && s[i].0 == id
}

/// The connection stored under `id`.
pub open spec fn lookup(s: Seq<(u128, Connection)>, id: u128) -> Option<Connection> {
    if has_id(s, id) {
        Some(s[choose|i: int| 0 <= i < s.len() && s[i].0 == id].1)
    } else {
        None
    }
}

/// With unique ids, the connection stored under the id of entry `i` is that entry's.
pub proof fn lemma_lookup_at(s: Seq<(u128, Connection)>, i: int)
    requires
        ids_unique(s),
        0 <= i < s.len(),
    ensures
        lookup(s, s[i].0) == Some(s[i].1),
{
    assert(has_id(s, s[i].0));
}

/// The ids of the entries whose connection satisfies `p`, in table order.
pub open spec fn select_ids(s: Seq<(u128, Connection)>, p: spec_fn(Connection) -> bool) -> Seq<u128>
    decreases s.len(),
{
    if s.len() == 0 {
        Seq::empty()
    } else {
        let rest = select_ids(s.drop_last(), p);
        if p(s.last().1) {
            rest.push(s.last().0)
        } else {
            rest
        }
    }
}

/// An id is selected exactly when some entry with that id satisfies `p`.
pub proof fn lemma_select_ids_member(s: Seq<(u128, Connection)>, p: spec_fn(Connection) -> bool, x: u128)
    ensures
        select_ids(s, p).contains(x) <==> exists|i: int|
            0 <= i < s.len() && s[i].0 == x && p(s[i].1),
    decreases s.len(),
{
    if s.len() > 0 {
        let t = s.drop_last();
        lemma_select_ids_member(t, p, x);
        if select_ids(s, p).contains(x) {
            if p(s.last().1) && s.last().0 == x {
                assert(s[s.len() - 1].0 == x);
            } else {
                assert(select_ids(t, p).contains(x)) by {
                    if p(s.last().1) {
                        let k = choose|k: int| 0 <= k < select_ids(s, p).len() && select_ids(s, p)[k] == x;
                        assert(k < select_ids(t, p).len());
                        assert(select_ids(t, p)[k] == x);
                    }
                }
                let i = choose|i: int| 0 <= i < t.len() && t[i].0 == x && p(t[i].1);
                assert(s[i] == t[i]);
            }
        }
        if exists|i: int| 0 <= i < s.len() && s[i].0 == x && p(s[i].1) {
            let i = choose|i: int| 0 <= i < s.len() && s[i].0 == x && p(s[i].1);
            if i == s.len() - 1 {
                assert(select_ids(s, p).last() == x);
            } else {
                assert(t[i] == s[i]);
                let r = select_ids(t, p);
                assert(r.contains(x));
                let k = choose|k: int| 0 <= k < r.len() && r[k] == x;
                if p(s.last().1) {
                    assert(r.push(s.last().0)[k] == x);
                }
            }
        }
    }
}

/// Selecting over a prefix one entry longer extends the selection by that entry
/// when it satisfies `p`.
proof fn lemma_select_ids_step(s: Seq<(u128, Connection)>, p: spec_fn(Connection) -> bool, i: int)
    requires
        0 <= i < s.len(),
    ensures
        select_ids(s.take(i + 1), p) == (if p(s[i].1) {
            select_ids(s.take(i), p).push(s[i].0)
        } else {
            select_ids(s.take(i), p)
        }),
{
    assert(s.take(i + 1).drop_last() =~= s.take(i));
}

/// Outcome of an operation on a store, with the id it concerned.
#[derive(Debug)]
pub enum OperationStatus {
    Success(u128),
    AlreadyExist(u128),
    Updated(u128),
    NotModified(u128),
    NotFound(u128),
    DeletedPreviously(u128),
    UpdatedStat(u128),
    BadRequest(u128, String),
}

/// How a status is written in error texts: its name, then its id (and the
/// explanation of a bad request) in parentheses.
pub open spec fn status_text(s: OperationStatus) -> Seq<char> {
    match s {
        OperationStatus::Success(id) => "Ok"@ + "("@ + uuid_text(id) + ")"@,
        OperationStatus::AlreadyExist(id) => "AlreadyExist"@ + "("@ + uuid_text(id) + ")"@,
        OperationStatus::Updated(id) => "Updated"@ + "("@ + uuid_text(id) + ")"@,
        OperationStatus::NotModified(id) => "NotModified"@ + "("@ + uuid_text(id) + ")"@,
        OperationStatus::NotFound(id) => "NotFound"@ + "("@ + uuid_text(id) + ")"@,
        OperationStatus::DeletedPreviously(id) => "DeletedPreviously"@ + "("@ + uuid_text(id) + ")"@,
        OperationStatus::UpdatedStat(id) => "UpdatedStat"@ + "("@ + uuid_text(id) + ")"@,
        OperationStatus::BadRequest(id, m) => "BadRequest("@ + uuid_text(id) + ", "@ + m@ + ")"@,
    }
}

fn named_id(name: &str, id: u128) -> (r: String)
    ensures
        r@ == name@ + "("@ + uuid_text(id) + ")"@,
{
    let mut s = owned(name);
    s.append("(");
    let t = uuid_string(id);
    s.append(t.as_str());
    s.append(")");
    s
}

impl OperationStatus {
    /// How this status is written in error texts.
    pub fn text(&self) -> (r: String)
        ensures
            r@ == status_text(*self),
    {
        match self {
            OperationStatus::Success(id) => named_id("Ok", *id),
            OperationStatus::AlreadyExist(id) => named_id("AlreadyExist", *id),
            OperationStatus::Updated(id) => named_id("Updated", *id),
            OperationStatus::NotModified(id) => named_id("NotModified", *id),
            OperationStatus::NotFound(id) => named_id("NotFound", *id),
            OperationStatus::DeletedPreviously(id) => named_id("DeletedPreviously", *id),
            OperationStatus::UpdatedStat(id) => named_id("UpdatedStat", *id),
            OperationStatus::BadRequest(id, m) => {
                let mut s = owned("BadRequest(");
                let t = uuid_string(*id);
                s.append(t.as_str());
                s.append(", ");
                s.append(m.as_str());
                s.append(")");
                s
            },
        }
    }
}

/// Connections by id.
pub struct ConnectionStore {
    entries: Vec<(u128, Connection)>,
}

impl View for ConnectionStore {
    type V = Seq<(u128, Connection)>;

    closed spec fn view(&self) -> Seq<(u128, Connection)> {
        self.entries@
    }
}

/// Connection `c` should be sent to a node that asks for connections of tag
/// `proto` in environment `env` modified since `last_update`: it is not
/// deleted, it has that tag, it belongs to `env` (when one is given) and was
/// modified no earlier than `last_update` (when one is given).
pub open spec fn wanted_for_sync(
    c: Connection,
    proto: ProtoTag,
    env: Option<Seq<char>>,
    last_update: Option<u64>,
) -> bool {
    &&& !c.is_deleted
    &&& proto_tag(c.proto) == proto
    &&& (env matches Some(e) ==> c.env@ == e)
    &&& (last_update matches Some(ts) ==> c.modified_at as u64 >= ts)
}

/// Connection `c` has expired at `now` and is not deleted yet.
pub open spec fn expired_at(c: Connection, now: i64) -> bool {
    &&& c.expires_at matches Some(t) && t <= now
    &&& !c.is_deleted
}

/// Connection `c` belongs to subscription `sub` and its deletion flag is `deleted`.
pub open spec fn of_subscription(c: Connection, sub: u128, deleted: bool) -> bool {
    c.subscription_id == Some(sub) && c.is_deleted == deleted
}

/// Connection `c` is a WireGuard peer on node `node` with address `addr`.
pub open spec fn wg_peer_at(c: Connection, node: u128, addr: u32) -> bool {
    match c.proto {
        Proto::Wireguard { param, node_id } => node_id == node && param.address.addr == addr,
        _ => false,
    }
}

/// The largest WireGuard address among the first entries, if any holds one.
pub open spec fn max_wg_addr(s: Seq<(u128, Connection)>) -> Option<u32>
    decreases s.len(),
{
    if s.len() == 0 {
        None
    } else {
        let rest = max_wg_addr(s.drop_last());
        match proto_wireguard(s.last().1.proto) {
            None => rest,
            Some(p) => match rest {
                None => Some(p.address.addr),
                Some(m) => Some(if p.address.addr > m { p.address.addr } else { m }),
            },
        }
    }
}

/// The largest WireGuard address is at least every stored WireGuard address,
/// and is one of them.
pub proof fn lemma_max_wg_addr(s: Seq<(u128, Connection)>)
    ensures
        forall|i: int|
            0 <= i < s.len() && proto_wireguard(#[trigger] s[i].1.proto) is Some ==> (max_wg_addr(s)
                matches Some(m) && proto_wireguard(s[i].1.proto).unwrap().address.addr <= m),
        max_wg_addr(s) matches Some(m) ==> exists|i: int|
            0 <= i < s.len() && proto_wireguard(s[i].1.proto) is Some && proto_wireguard(
                s[i].1.proto,
            ).unwrap().address.addr == m,
    decreases s.len(),
{
    if s.len() > 0 {
        let t = s.drop_last();
        lemma_max_wg_addr(t);
        assert forall|i: int|
            0 <= i < s.len() && proto_wireguard(#[trigger] s[i].1.proto) is Some implies (max_wg_addr(s)
            matches Some(m) && proto_wireguard(s[i].1.proto).unwrap().address.addr <= m) by {
            if i < s.len() - 1 {
                assert(t[i] == s[i]);
            }
        }
        if max_wg_addr(s) is Some {
            if max_wg_addr(s) != max_wg_addr(t) {
                assert(proto_wireguard(s[s.len() - 1].1.proto) is Some);
            } else {
                let i = choose|i: int|
                    0 <= i < t.len() && proto_wireguard(t[i].1.proto) is Some && proto_wireguard(
                        t[i].1.proto,
                    ).unwrap().address.addr == max_wg_addr(t).unwrap();
                assert(s[i] == t[i]);
            }
        }
    }
}

impl ConnectionStore {
    /// The ids of the store are pairwise distinct.
    pub open spec fn well_formed(&self) -> bool {
        ids_unique(self@)
    }

    /// The connection stored under `id`, if any.
    pub open spec fn spec_get(&self, id: u128) -> Option<Connection> {
        lookup(self@, id)
    }

    /// An empty store.
    pub fn new() -> (r: ConnectionStore)
        ensures
            r.well_formed(),
            r@ == Seq::<(u128, Connection)>::empty(),
    {
        ConnectionStore { entries: Vec::new() }
    }

    /// Number of stored connections.
    pub fn len(&self) -> (r: usize)
        ensures
            r == self@.len(),
    {
        self.entries.len()
    }

    fn index_of(&self, id: u128) -> (r: Option<usize>)
        ensures
            match r {
                Some(i) => i < self@.len() && self@[i as int].0 == id,
                None => !has_id(self@, id),
            },
    {
        let mut i: usize = 0;
        while i < self.entries.len()
            invariant
                i <= self.entries@.len(),
                forall|j: int| 0 <= j < i ==> self.entries@[j].0 != id,
            decreases self.entries@.len() - i,
        {
            if self.entries[i].0 == id {
                return Some(i);
            }
            i = i + 1;
        }
        None
    }

    /// The connection stored under `id`.
    pub fn get(&self, id: u128) -> (r: Option<&Connection>)
        requires
            self.well_formed(),
        ensures
            match r {
                Some(c) => self.spec_get(id) == Some(*c),
                None => self.spec_get(id) is None,
            },
    {
        match self.index_of(id) {
            Some(i) => {
                proof {
                    lemma_lookup_at(self@, i as int);
                }
                Some(&self.entries[i].1)
            },
            None => None,
        }
    }

    /// Whether a connection is stored under `id`.
    pub fn contains(&self, id: u128) -> (r: bool)
        requires
            self.well_formed(),
        ensures
            r == (self.spec_get(id) is Some),
    {
        self.get(id).is_some()
    }

    /// Adds `conn` under `id` unless that id is taken; a taken id leaves the
    /// store as it was.
    pub fn add(&mut self, id: u128, conn: Connection) -> (r: OperationStatus)
        requires
            old(self).well_formed(),
        ensures
            final(self).well_formed(),
            old(self).spec_get(id) is Some ==> r == OperationStatus::AlreadyExist(id)
                && final(self)@ == old(self)@,
            old(self).spec_get(id) is None ==> r == OperationStatus::Success(id)
                && final(self)@ == old(self)@.push((id, conn)),
            forall|x: u128|
                #![trigger final(self).spec_get(x)]
                final(self).spec_get(x) == if x == id && old(self).spec_get(id) is None {
                    Some(conn)
                } else {
                    old(self).spec_get(x)
                },
    {
        if self.index_of(id).is_some() {
            return OperationStatus::AlreadyExist(id);
        }
        let ghost before = self.entries@;
        self.entries.push((id, conn));
        proof {
            let after = self.entries@;
            assert(after =~= before.push((id, conn)));
            assert(ids_unique(after));
            assert forall|x: u128| #![trigger lookup(after, x)]
                lookup(after, x) == if x == id { Some(conn) } else { lookup(before, x) } by {
                if x == id {
                    lemma_lookup_at(after, before.len() as int);
                } else if has_id(before, x) {
                    let i = choose|i: int| 0 <= i < before.len() && before[i].0 == x;
                    lemma_lookup_at(before, i);
                    assert(after[i] == before[i]);
                    lemma_lookup_at(after, i);
                } else {
                    assert(!has_id(after, x));
                }
            }
        }
        OperationStatus::Success(id)
    }

    /// Puts `conn` under `id`, in place of what was stored there, and returns
    /// what was.
    pub fn insert(&mut self, id: u128, conn: Connection) -> (r: Option<Connection>)
        requires
            old(self).well_formed(),
        ensures
            final(self).well_formed(),
            r == old(self).spec_get(id),
            forall|x: u128|
                #![trigger final(self).spec_get(x)]
                final(self).spec_get(x) == if x == id {
                    Some(conn)
                } else {
                    old(self).spec_get(x)
                },
    {
        let ghost before = self.entries@;
        match self.index_of(id) {
            None => {
                self.entries.push((id, conn));
                proof {
                    let after = self.entries@;
                    assert(ids_unique(after));
                    assert forall|x: u128| #![trigger lookup(after, x)]
                        lookup(after, x) == if x == id { Some(conn) } else { lookup(before, x) } by {
                        if x == id {
                            lemma_lookup_at(after, before.len() as int);
                        } else if has_id(before, x) {
                            let i = choose|i: int| 0 <= i < before.len() && before[i].0 == x;
                            lemma_lookup_at(before, i);
                            assert(after[i] == before[i]);
                            lemma_lookup_at(after, i);
                        } else {
                            assert(!has_id(after, x));
                        }
                    }
                }
                None
            },
            Some(i) => {
                proof {
                    lemma_lookup_at(before, i as int);
                }
                let ghost old_conn = before[i as int].1;
                let mut entry = (id, conn);
                std::mem::swap(&mut entry, &mut self.entries[i]);
                let ghost after_ghost = self.entries@;
                proof {
                    assert(after_ghost =~= before.update(i as int, (id, conn)));
                    assert(ids_unique(after_ghost));
                    assert forall|x: u128| #![trigger lookup(after_ghost, x)]
                        lookup(after_ghost, x) == if x == id { Some(conn) } else { lookup(before, x) } by {
                        if x == id {
                            lemma_lookup_at(after_ghost, i as int);
                        } else if has_id(before, x) {
                            let k = choose|k: int| 0 <= k < before.len() && before[k].0 == x;
                            lemma_lookup_at(before, k);
                            assert(after_ghost[k] == before[k]);
                            lemma_lookup_at(after_ghost, k);
                        } else {
                            assert(!has_id(after_ghost, x));
                        }
                    }
                }
                Some(entry.1)
            },
        }
    }
}


/// The selection predicate of `wanted_for_sync`.
pub open spec fn sync_filter(proto: ProtoTag, env: Option<Seq<char>>, last_update: Option<u64>) -> spec_fn(
    Connection,
) -> bool {
    |c: Connection| wanted_for_sync(c, proto, env, last_update)
}

/// The selection predicate of `expired_at`.
pub open spec fn expired_filter(now: i64) -> spec_fn(Connection) -> bool {
    |c: Connection| expired_at(c, now)
}

/// The selection predicate of `of_subscription`.
pub open spec fn subscription_filter(sub: u128, deleted: bool) -> spec_fn(Connection) -> bool {
    |c: Connection| of_subscription(c, sub, deleted)
}

/// The view of an optional string.
pub open spec fn opt_text(o: Option<String>) -> Option<Seq<char>> {
    match o {
        Some(s) => Some(s@),
        None => None,
    }
}

/// Marks connection `c` deleted at `now`.
pub open spec fn deleted_version(c: Connection, now: i64) -> Connection {
    Connection { is_deleted: true, modified_at: now, ..c }
}

/// A connection may be deleted when it is stored and not deleted yet.
pub open spec fn deletable(c: Option<Connection>) -> bool {
    c matches Some(c) && !c.is_deleted
}

impl ConnectionStore {
    /// The ids of all stored connections, in table order.
    pub fn ids(&self) -> (r: Vec<u128>)
        ensures
            r@.len() == self@.len(),
            forall|i: int| 0 <= i < r@.len() ==> r@[i] == self@[i].0,
    {
        let mut out: Vec<u128> = Vec::new();
        let mut i: usize = 0;
        while i < self.entries.len()
            invariant
                i <= self.entries@.len(),
                out@.len() == i,
                forall|j: int| 0 <= j < i ==> out@[j] == self.entries@[j].0,
            decreases self.entries@.len() - i,
        {
            out.push(self.entries[i].0);
            i = i + 1;
        }
        out
    }

    fn position(&self, id: u128) -> (r: Option<usize>)
        requires
            self.well_formed(),
        ensures
            match r {
                Some(i) => i < self@.len() && self@[i as int].0 == id && self.spec_get(id) == Some(
                    self@[i as int].1,
                ),
                None => self.spec_get(id) is None,
            },
    {
        let r = self.index_of(id);
        proof {
            if let Some(i) = r {
                lemma_lookup_at(self@, i as int);
            }
        }
        r
    }

    /// Replaces the connection at a known position; ids stay as they were.
    fn replace_at(&mut self, i: usize, conn: Connection)
        requires
            old(self).well_formed(),
            i < old(self)@.len(),
        ensures
            final(self).well_formed(),
            final(self)@ == old(self)@.update(i as int, (old(self)@[i as int].0, conn)),
            forall|x: u128|
                #![trigger final(self).spec_get(x)]
                final(self).spec_get(x) == if x == old(self)@[i as int].0 {
                    Some(conn)
                } else {
                    old(self).spec_get(x)
                },
    {
        let ghost before = self.entries@;
        let id = self.entries[i].0;
        self.entries.set(i, (id, conn));
        proof {
            let after = self.entries@;
            assert(ids_unique(after));
            assert forall|x: u128| #![trigger lookup(after, x)]
                lookup(after, x) == if x == id { Some(conn) } else { lookup(before, x) } by {
                if x == id {
                    lemma_lookup_at(after, i as int);
                } else if has_id(before, x) {
                    let k = choose|k: int| 0 <= k < before.len() && before[k].0 == x;
                    lemma_lookup_at(before, k);
                    assert(after[k] == before[k]);
                    lemma_lookup_at(after, k);
                } else {
                    assert(!has_id(after, x));
                }
            }
        }
    }

    /// Marks connection `id` deleted at `now`. A connection that is not stored,
    /// or is deleted already, is reported not found and nothing changes.
    pub fn mark_deleted(&mut self, id: u128, now: i64) -> (r: OperationStatus)
        requires
            old(self).well_formed(),
        ensures
            final(self).well_formed(),
            deletable(old(self).spec_get(id)) ==> r == OperationStatus::Success(id),
            !deletable(old(self).spec_get(id)) ==> r == OperationStatus::NotFound(id)
                && final(self)@ == old(self)@,
            old(self).spec_get(id) matches Some(c) ==> (!c.is_deleted ==> r == OperationStatus::Success(id)
                && final(self).spec_get(id) == Some(Connection { is_deleted: true, modified_at: now, ..c })),
            (old(self).spec_get(id) is None || old(self).spec_get(id).unwrap().is_deleted) ==> r
                == OperationStatus::NotFound(id),
            forall|x: u128|
                #![trigger final(self).spec_get(x)]
                final(self).spec_get(x) == if x == id && deletable(old(self).spec_get(id)) {
                    Some(deleted_version(old(self).spec_get(id).unwrap(), now))
                } else {
                    old(self).spec_get(x)
                },
    {
        match self.position(id) {
            None => OperationStatus::NotFound(id),
            Some(i) => {
                if self.entries[i].1.is_deleted {
                    return OperationStatus::NotFound(id);
                }
                let mut c = self.entries[i].1.clone();
                c.is_deleted = true;
                c.modified_at = now;
                self.replace_at(i, c);
                OperationStatus::Success(id)
            },
        }
    }

    /// Sets the traffic counters of connection `id`; false when it is not stored.
    pub fn update_stats(&mut self, id: u128, stat: ConnectionStat) -> (r: bool)
        requires
            old(self).well_formed(),
        ensures
            final(self).well_formed(),
            r == (old(self).spec_get(id) is Some),
            forall|x: u128|
                #![trigger final(self).spec_get(x)]
                final(self).spec_get(x) == if x == id && r {
                    Some(Connection { stat, ..old(self).spec_get(id).unwrap() })
                } else {
                    old(self).spec_get(x)
                },
    {
        match self.position(id) {
            None => false,
            Some(i) => {
                let mut c = self.entries[i].1.clone();
                c.stat = stat;
                self.replace_at(i, c);
                true
            },
        }
    }

    /// Ids of the connections a node asks for: not deleted, of tag `proto`, in
    /// `env` when given, modified at or after `last_update` when given.
    pub fn sync_ids(&self, proto: ProtoTag, env: &Option<String>, last_update: Option<u64>) -> (r: Vec<u128>)
        ensures
            r@ == select_ids(self@, sync_filter(proto, opt_text(*env), last_update)),
    {
        let ghost p = sync_filter(proto, opt_text(*env), last_update);
        let mut out: Vec<u128> = Vec::new();
        let mut i: usize = 0;
        while i < self.entries.len()
            invariant
                i <= self.entries@.len(),
                p == sync_filter(proto, opt_text(*env), last_update),
                out@ == select_ids(self.entries@.take(i as int), p),
            decreases self.entries@.len() - i,
        {
            proof {
                lemma_select_ids_step(self.entries@, p, i as int);
            }
            let c = &self.entries[i].1;
            let env_ok = match env {
                Some(e) => c.env == *e,
                None => true,
            };
            let ts_ok = match last_update {
                Some(ts) => c.modified_at as u64 >= ts,
                None => true,
            };
            if !c.is_deleted && c.proto.proto() == proto && env_ok && ts_ok {
                out.push(self.entries[i].0);
            }
            i = i + 1;
        }
        assert(self.entries@.take(self.entries@.len() as int) =~= self.entries@);
        out
    }

    /// Ids of the connections that have expired at `now` and are not deleted.
    pub fn expired_ids(&self, now: i64) -> (r: Vec<u128>)
        ensures
            r@ == select_ids(self@, expired_filter(now)),
    {
        let ghost p = expired_filter(now);
        let mut out: Vec<u128> = Vec::new();
        let mut i: usize = 0;
        while i < self.entries.len()
            invariant
                i <= self.entries@.len(),
                p == expired_filter(now),
                out@ == select_ids(self.entries@.take(i as int), p),
            decreases self.entries@.len() - i,
        {
            proof {
                lemma_select_ids_step(self.entries@, p, i as int);
            }
            let c = &self.entries[i].1;
            let expired = match c.expires_at {
                Some(t) => t <= now,
                None => false,
            };
            if expired && !c.is_deleted {
                out.push(self.entries[i].0);
            }
            i = i + 1;
        }
        assert(self.entries@.take(self.entries@.len() as int) =~= self.entries@);
        out
    }

    /// Ids of the connections of subscription `sub` whose deletion flag is `deleted`.
    pub fn subscription_ids(&self, sub: u128, deleted: bool) -> (r: Vec<u128>)
        ensures
            r@ == select_ids(self@, subscription_filter(sub, deleted)),
    {
        let ghost p = subscription_filter(sub, deleted);
        let mut out: Vec<u128> = Vec::new();
        let mut i: usize = 0;
        while i < self.entries.len()
            invariant
                i <= self.entries@.len(),
                p == subscription_filter(sub, deleted),
                out@ == select_ids(self.entries@.take(i as int), p),
            decreases self.entries@.len() - i,
        {
            proof {
                lemma_select_ids_step(self.entries@, p, i as int);
            }
            let c = &self.entries[i].1;
            if c.subscription_id == Some(sub) && c.is_deleted == deleted {
                out.push(self.entries[i].0);
            }
            i = i + 1;
        }
        assert(self.entries@.take(self.entries@.len() as int) =~= self.entries@);
        out
    }

    /// Whether some stored connection is a WireGuard peer of node `node` with address `addr`.
    pub fn wireguard_address_taken(&self, node: u128, addr: u32) -> (r: bool)
        ensures
            r == exists|i: int| 0 <= i < self@.len() && wg_peer_at(self@[i].1, node, addr),
    {
        let mut i: usize = 0;
        while i < self.entries.len()
            invariant
                i <= self.entries@.len(),
                forall|j: int| 0 <= j < i ==> !wg_peer_at(self.entries@[j].1, node, addr),
            decreases self.entries@.len() - i,
        {
            match &self.entries[i].1.proto {
                Proto::Wireguard { param, node_id } => {
                    if *node_id == node && param.address.addr == addr {
                        assert(wg_peer_at(self@[i as int].1, node, addr));
                        return true;
                    }
                },
                _ => {},
            }
            i = i + 1;
        }
        false
    }

    /// The largest address of a stored WireGuard peer, on any node.
    pub fn max_wireguard_address(&self) -> (r: Option<u32>)
        ensures
            r == max_wg_addr(self@),
    {
        let mut best: Option<u32> = None;
        let mut i: usize = 0;
        while i < self.entries.len()
            invariant
                i <= self.entries@.len(),
                best == max_wg_addr(self.entries@.take(i as int)),
            decreases self.entries@.len() - i,
        {
            proof {
                assert(self.entries@.take(i + 1).drop_last() =~= self.entries@.take(i as int));
            }
            match &self.entries[i].1.proto {
                Proto::Wireguard { param, .. } => {
                    let a = param.address.addr;
                    best = match best {
                        None => Some(a),
                        Some(m) => Some(if a > m { a } else { m }),
                    };
                },
                _ => {},
            }
            i = i + 1;
        }
        assert(self.entries@.take(self.entries@.len() as int) =~= self.entries@);
        best
    }
}
/// Connection `c` is a live connection of subscription `sub` in environment `env`.
pub open spec fn live_in_env(c: Connection, sub: u128, env: Seq<char>) -> bool {
    c.subscription_id == Some(sub) && !c.is_deleted && c.env@ == env
}

/// The selection predicate of `live_in_env`.
pub open spec fn env_filter(sub: u128, env: Seq<char>) -> spec_fn(Connection) -> bool {
    |c: Connection| live_in_env(c, sub, env)
}

impl ConnectionStore {
    /// Ids of the live connections of subscription `sub` in environment `env`.
    pub fn subscription_env_ids(&self, sub: u128, env: &str) -> (r: Vec<u128>)
        ensures
            r@ == select_ids(self@, env_filter(sub, env@)),
    {
        let ghost p = env_filter(sub, env@);
        let mut out: Vec<u128> = Vec::new();
        let mut i: usize = 0;
        while i < self.entries.len()
            invariant
                i <= self.entries@.len(),
                p == env_filter(sub, env@),
                out@ == select_ids(self.entries@.take(i as int), p),
            decreases self.entries@.len() - i,
        {
            proof {
                lemma_select_ids_step(self.entries@, p, i as int);
            }
            let c = &self.entries[i].1;
            if c.subscription_id == Some(sub) && !c.is_deleted && str_eq(c.env.as_str(), env) {
                out.push(self.entries[i].0);
            }
            i = i + 1;
        }
        assert(self.entries@.take(self.entries@.len() as int) =~= self.entries@);
        out
    }
}

impl ConnectionStore {
    /// Forgets connection `id`; every other connection stays as it was.
    /// Returns what was stored under `id`.
    pub fn remove(&mut self, id: u128) -> (r: Option<Connection>)
        requires
            old(self).well_formed(),
        ensures
            final(self).well_formed(),
            r == old(self).spec_get(id),
            forall|x: u128|
                #![trigger final(self).spec_get(x)]
                final(self).spec_get(x) == if x == id {
                    None
                } else {
                    old(self).spec_get(x)
                },
    {
        match self.position(id) {
            None => None,
            Some(i) => {
                let ghost before = self.entries@;
                let e = self.entries.remove(i);
                proof {
                    let after = self.entries@;
                    assert(after =~= before.remove(i as int));
                    assert(ids_unique(after));
                    assert forall|x: u128| #![trigger lookup(after, x)]
                        lookup(after, x) == if x == id { None } else { lookup(before, x) } by {
                        if x == id {
                            if has_id(after, x) {
                                let k = choose|k: int| 0 <= k < after.len() && after[k].0 == x;
                                if k < i {
                                    assert(before[k].0 == x);
                                } else {
                                    assert(before[k + 1].0 == x);
                                }
                            }
                        } else if has_id(before, x) {
                            let k = choose|k: int| 0 <= k < before.len() && before[k].0 == x;
                            lemma_lookup_at(before, k);
                            if k < i {
                                assert(after[k] == before[k]);
                                lemma_lookup_at(after, k);
                            } else {
                                assert(k != i);
                                assert(after[k - 1] == before[k]);
                                lemma_lookup_at(after, k - 1);
                            }
                        } else {
                            if has_id(after, x) {
                                let k = choose|k: int| 0 <= k < after.len() && after[k].0 == x;
                                if k < i {
                                    assert(before[k].0 == x);
                                } else {
                                    assert(before[k + 1].0 == x);
                                }
                            }
                        }
                    }
                }
                Some(e.1)
            },
        }
    }
}

/// The counters that the last successful reading in `readings` gives
/// connection `x`, if any reading for it succeeded.
pub open spec fn last_reading(readings: Seq<(u128, Option<ConnectionStat>)>, x: u128) -> Option<ConnectionStat>
    decreases readings.len(),
{
    if readings.len() == 0 {
        None
    } else {
        let r = readings.last();
        if r.0 == x && r.1 is Some {
            r.1
        } else {
            last_reading(readings.drop_last(), x)
        }
    }
}

/// Connection `c` after the readings: its counters from the last successful
/// reading for `x`, unchanged without one.
pub open spec fn with_readings(c: Option<Connection>, readings: Seq<(u128, Option<ConnectionStat>)>, x: u128) -> Option<
    Connection,
> {
    match c {
        None => None,
        Some(c) => match last_reading(readings, x) {
            Some(st) => Some(Connection { stat: st, ..c }),
            None => Some(c),
        },
    }
}

impl ConnectionStore {
    /// Applies the readings of the traffic counters, in order: a successful
    /// reading of a stored connection replaces its counters; a failed
    /// reading, or one of an unknown connection, changes nothing. No
    /// connection is added or removed.
    pub fn apply_readings(&mut self, readings: &Vec<(u128, Option<ConnectionStat>)>)
        requires
            old(self).well_formed(),
        ensures
            final(self).well_formed(),
            forall|x: u128|
                #![trigger final(self).spec_get(x)]
                final(self).spec_get(x) == with_readings(old(self).spec_get(x), readings@, x),
    {
        let ghost start = *self;
        let mut i: usize = 0;
        while i < readings.len()
            invariant
                i <= readings@.len(),
                self.well_formed(),
                forall|x: u128|
                    #![trigger self.spec_get(x)]
                    self.spec_get(x) == with_readings(start.spec_get(x), readings@.take(i as int), x),
            decreases readings@.len() - i,
        {
            let ghost before = *self;
            proof {
                assert(readings@.take(i + 1).drop_last() =~= readings@.take(i as int));
                assert(readings@.take(i + 1).last() == readings@[i as int]);
            }
            let (id, reading) = readings[i];
            match reading {
                Some(st) => {
                    let _ = self.update_stats(id, st);
                },
                None => {},
            }
            proof {
                assert forall|x: u128| #![trigger self.spec_get(x)]
                    self.spec_get(x) == with_readings(start.spec_get(x), readings@.take(i + 1), x) by {
                    assert(before.spec_get(x) == with_readings(start.spec_get(x), readings@.take(i as int), x));
                }
            }
            i = i + 1;
        }
        proof {
            assert(readings@.take(readings@.len() as int) =~= readings@);
        }
    }
}

impl ConnectionStore {
    /// Records a WireGuard peer reading of connection `id`: its uplink and
    /// downlink are set and its online count stays; false when it is not stored.
    pub fn set_traffic(&mut self, id: u128, uplink: i64, downlink: i64) -> (r: bool)
        requires
            old(self).well_formed(),
        ensures
            final(self).well_formed(),
            r == (old(self).spec_get(id) is Some),
            forall|x: u128|
                #![trigger final(self).spec_get(x)]
                final(self).spec_get(x) == if x == id && r {
                    Some(
                        Connection {
                            stat: ConnectionStat { uplink, downlink, ..old(self).spec_get(id).unwrap().stat },
                            ..old(self).spec_get(id).unwrap()
                        },
                    )
                } else {
                    old(self).spec_get(x)
                },
    {
        match self.get(id) {
            None => false,
            Some(c) => {
                let st = ConnectionStat { online: c.stat.online, uplink, downlink };
                self.update_stats(id, st)
            },
        }
    }
}

impl ConnectionStore {
    /// The entry at position `i`, in table order.
    pub fn entry_at(&self, i: usize) -> (r: (u128, &Connection))
        requires
            i < self@.len(),
        ensures
            r.0 == self@[i as int].0,
            *r.1 == self@[i as int].1,
    {
        (self.entries[i].0, &self.entries[i].1)
    }
}

/// Which stored connections each query hands out, with unique ids: a node's
/// sync gets exactly the live connections of its protocol, of its environment
/// when it names one, changed no earlier than its last update when it gives
/// one; the expiry sweep gets exactly the live connections whose expiry time
/// has come; a subscription's listing gets exactly its connections with the
/// asked deletion flag; a subscription's environment listing gets exactly its
/// live connections in that environment.
pub proof fn lemma_store_queries(
    s: Seq<(u128, Connection)>,
    i: int,
    proto: ProtoTag,
    env: Option<Seq<char>>,
    last_update: Option<u64>,
    now: i64,
    sub: u128,
    deleted: bool,
    e: Seq<char>,
)
    requires
        ids_unique(s),
        0 <= i < s.len(),
    ensures
        select_ids(s, sync_filter(proto, env, last_update)).contains(s[i].0) <==> {
            &&& !s[i].1.is_deleted
            &&& proto_tag(s[i].1.proto) == proto
            &&& (env is Some ==> s[i].1.env@ == env.unwrap())
            &&& (last_update is Some ==> s[i].1.modified_at as u64 >= last_update.unwrap())
        },
        select_ids(s, expired_filter(now)).contains(s[i].0) <==> (!s[i].1.is_deleted
            && s[i].1.expires_at is Some && s[i].1.expires_at.unwrap() <= now),
        select_ids(s, subscription_filter(sub, deleted)).contains(s[i].0) <==> (s[i].1.subscription_id
            == Some(sub) && s[i].1.is_deleted == deleted),
        select_ids(s, env_filter(sub, e)).contains(s[i].0) <==> (s[i].1.subscription_id == Some(sub)
            && !s[i].1.is_deleted && s[i].1.env@ == e),
{
    let x = s[i].0;
    lemma_select_ids_member(s, sync_filter(proto, env, last_update), x);
    lemma_select_ids_member(s, expired_filter(now), x);
    lemma_select_ids_member(s, subscription_filter(sub, deleted), x);
    lemma_select_ids_member(s, env_filter(sub, e), x);
    assert forall|j: int| 0 <= j < s.len() && s[j].0 == x implies j == i by {}
}

/// A connection that is marked deleted is never handed to a node that asks
/// for connections, and is never expired again, whatever the filters.
pub proof fn lemma_deleted_never_selected(
    s: Seq<(u128, Connection)>,
    id: u128,
    proto: ProtoTag,
    env: Option<Seq<char>>,
    last_update: Option<u64>,
    now: i64,
)
    requires
        ids_unique(s),
        lookup(s, id) matches Some(c) && c.is_deleted,
    ensures
        !select_ids(s, sync_filter(proto, env, last_update)).contains(id),
        !select_ids(s, expired_filter(now)).contains(id),
{
    lemma_select_ids_member(s, sync_filter(proto, env, last_update), id);
    lemma_select_ids_member(s, expired_filter(now), id);
    assert forall|i: int| 0 <= i < s.len() && s[i].0 == id implies s[i].1.is_deleted by {
        lemma_lookup_at(s, i);
    }
}

} // verus!
