//! Nodes of the cluster, their inbounds, and their health.
use vstd::prelude::*;
use chrono::TimeZone;
use crate::net::IpMask;
use crate::tag::ProtoTag;
use crate::text::{owned, str_len};

verus! {

/// Whether a node answers its heartbeat.
#[derive(Clone, Copy, Debug, PartialEq, Eq, Structural)]
pub enum NodeStatus {
    Online,
    Offline,
}

/// WireGuard settings of an inbound: its keys, interface, network and own address.
#[derive(Debug)]
pub struct WgSettings {
    pub pubkey: String,
    pub privkey: String,
    pub interface: String,
    pub network: IpMask,
    pub address: u32,
    pub port: u16,
    pub dns: Vec<u32>,
}

/// An inbound of a node: a listening protocol with its counters.
#[derive(Debug)]
pub struct Inbound {
    pub tag: ProtoTag,
    pub port: u16,
    pub uplink: Option<i64>,
    pub downlink: Option<i64>,
    pub conn_count: Option<i64>,
    pub wg: Option<WgSettings>,
}

/// A node of the cluster. `created_at` and `modified_at` are UNIX seconds.
#[derive(Debug)]
pub struct Node {
    pub uuid: u128,
    pub env: String,
    pub hostname: String,
    pub address: u32,
    pub inbounds: Vec<Inbound>,
    pub status: NodeStatus,
    pub created_at: i64,
    pub modified_at: i64,
    pub label: String,
    pub interface: String,
    pub cores: usize,
    pub max_bandwidth_bps: i64,
}

/// The first inbound of tag `t` among `ins`, by position.
#[verifier::opaque]
pub open spec fn inbound_index(ins: Seq<Inbound>, t: ProtoTag) -> Option<int> {
    if exists|i: int| 0 <= i < ins.len() && ins[i].tag == t {
        Some(
            choose|i: int|
                0 <= i < ins.len() && ins[i].tag == t && forall|j: int|
                    0 <= j < i ==> ins[j].tag != t,
        )
    } else {
        None
    }
}

/// The inbound of tag `t` among `ins`.
pub open spec fn spec_inbound(ins: Seq<Inbound>, t: ProtoTag) -> Option<Inbound> {
    match inbound_index(ins, t) {
        Some(i) => Some(ins[i]),
        None => None,
    }
}

proof fn lemma_first_index(ins: Seq<Inbound>, t: ProtoTag, i: int)
    requires
        0 <= i < ins.len(),
        ins[i].tag == t,
        forall|j: int| 0 <= j < i ==> ins[j].tag != t,
    ensures
        inbound_index(ins, t) == Some(i),
{
    reveal(inbound_index);
    let k = choose|k: int|
        0 <= k < ins.len() && ins[k].tag == t && forall|j: int| 0 <= j < k ==> ins[j].tag != t;
    if k < i {
        assert(ins[k].tag != t);
    }
    if i < k {
        assert(ins[i].tag != t);
    }
}

proof fn lemma_first_of_tag(ins: Seq<Inbound>, t: ProtoTag, i: int) -> (k: int)
    requires
        0 <= i < ins.len(),
        ins[i].tag == t,
    ensures
        0 <= k <= i,
        ins[k].tag == t,
        forall|j: int| 0 <= j < k ==> ins[j].tag != t,
    decreases i,
{
    if forall|j: int| 0 <= j < i ==> ins[j].tag != t {
        i
    } else {
        let j = choose|j: int| 0 <= j < i && ins[j].tag == t;
        lemma_first_of_tag(ins, t, j)
    }
}

/// The position of the inbound of tag `t` holds an inbound of that tag, and it
/// is the first such; there is no position exactly when no inbound has the tag.
pub proof fn lemma_inbound_index(ins: Seq<Inbound>, t: ProtoTag)
    ensures
        inbound_index(ins, t) matches Some(i) ==> 0 <= i < ins.len() && ins[i].tag == t && forall|j: int|
            0 <= j < i ==> ins[j].tag != t,
        inbound_index(ins, t) is None <==> forall|j: int| 0 <= j < ins.len() ==> ins[j].tag != t,
{
    if exists|i: int| 0 <= i < ins.len() && ins[i].tag == t {
        let i = choose|i: int| 0 <= i < ins.len() && ins[i].tag == t;
        let k = lemma_first_of_tag(ins, t, i);
        lemma_first_index(ins, t, k);
    } else {
        assert(inbound_index(ins, t) is None) by {
            reveal(inbound_index);
        }
    }
}

/// The position of the first inbound of tag `t`.
pub fn find_inbound(ins: &Vec<Inbound>, t: ProtoTag) -> (r: Option<usize>)
    ensures
        match r {
            Some(i) => i < ins@.len() && inbound_index(ins@, t) == Some(i as int),
            None => inbound_index(ins@, t) is None,
        },
{
    reveal(inbound_index);
    let mut i: usize = 0;
    while i < ins.len()
        invariant
            i <= ins@.len(),
            forall|j: int| 0 <= j < i ==> ins@[j].tag != t,
        decreases ins@.len() - i,
    {
        if ins[i].tag == t {
            proof {
                lemma_first_index(ins@, t, i as int);
            }
            return Some(i);
        }
        i = i + 1;
    }
    None
}

/// The first node of `nodes` with id `id`, by position.
#[verifier::opaque]
pub open spec fn node_index(nodes: Seq<Node>, id: u128) -> Option<int> {
    if exists|i: int| 0 <= i < nodes.len() && nodes[i].uuid == id {
        Some(
            choose|i: int|
                0 <= i < nodes.len() && nodes[i].uuid == id && forall|j: int|
                    0 <= j < i ==> nodes[j].uuid != id,
        )
    } else {
        None
    }
}

proof fn lemma_first_node(nodes: Seq<Node>, id: u128, i: int)
    requires
        0 <= i < nodes.len(),
        nodes[i].uuid == id,
        forall|j: int| 0 <= j < i ==> nodes[j].uuid != id,
    ensures
        node_index(nodes, id) == Some(i),
{
    reveal(node_index);
    let k = choose|k: int|
        0 <= k < nodes.len() && nodes[k].uuid == id && forall|j: int| 0 <= j < k ==> nodes[j].uuid != id;
    if k < i {
        assert(nodes[k].uuid != id);
    }
    if i < k {
        assert(nodes[i].uuid != id);
    }
}

/// The node with id `id`.
pub open spec fn spec_node(nodes: Seq<Node>, id: u128) -> Option<Node> {
    match node_index(nodes, id) {
        Some(i) => Some(nodes[i]),
        None => None,
    }
}

/// The position of the first node with id `id`.
pub fn find_node(nodes: &Vec<Node>, id: u128) -> (r: Option<usize>)
    ensures
        match r {
            Some(i) => i < nodes@.len() && node_index(nodes@, id) == Some(i as int),
            None => node_index(nodes@, id) is None,
        },
{
    reveal(node_index);
    let mut i: usize = 0;
    while i < nodes.len()
        invariant
            i <= nodes@.len(),
            forall|j: int| 0 <= j < i ==> nodes@[j].uuid != id,
        decreases nodes@.len() - i,
    {
        if nodes[i].uuid == id {
            proof {
                lemma_first_node(nodes@, id, i as int);
            }
            return Some(i);
        }
        i = i + 1;
    }
    None
}

/// Why a node is refused.
#[derive(Debug)]
pub enum SyncError {
    Validation(String),
    Database(String),
    Memory(String),
}

/// Whether `c` is a Unicode `White_Space` character (what `char::is_whitespace` tells).
pub uninterp spec fn unicode_white_space(c: char) -> bool;

/// `char::is_whitespace`: whether `c` has the Unicode `White_Space` property.
#[verifier::external_body]
fn is_white_space(c: char) -> (r: bool)
    ensures
        r == unicode_white_space(c),
{
    c.is_whitespace()
}

/// `s` is empty once white space is trimmed from both ends: every character is white space.
pub open spec fn blank(s: Seq<char>) -> bool {
    forall|i: int| 0 <= i < s.len() ==> unicode_white_space(#[trigger] s[i])
}

/// Whether trimming `s` leaves nothing.
pub fn is_blank(s: &str) -> (r: bool)
    ensures
        r == blank(s@),
{
    let n = s.unicode_len();
    let mut i: usize = 0;
    while i < n
        invariant
            n == s@.len(),
            i <= n,
            forall|j: int| 0 <= j < i ==> unicode_white_space(#[trigger] s@[j]),
        decreases n - i,
    {
        if !is_white_space(s.get_char(i)) {
            return false;
        }
        i = i + 1;
    }
    true
}

/// Longest environment name, in bytes of UTF-8.
pub const MAX_ENV_BYTES: usize = 50;

impl Node {
    /// A node is accepted when its environment name is not blank and takes at
    /// most 50 bytes.
    pub fn validate(&self) -> (r: Result<(), SyncError>)
        ensures
            blank(self.env@) ==> (r matches Err(SyncError::Validation(m)) && m@
                == "Environment cannot be empty"@),
            !blank(self.env@) && str_len(self.env@) > 50 ==> (r matches Err(
                SyncError::Validation(m)) && m@ == "Environment name too long"@),
            !blank(self.env@) && str_len(self.env@) <= 50 ==> r is Ok,
    {
        if is_blank(self.env.as_str()) {
            return Err(SyncError::Validation(owned("Environment cannot be empty")));
        }
        if self.env.as_str().len() > MAX_ENV_BYTES {
            return Err(SyncError::Validation(owned("Environment name too long")));
        }
        Ok(())
    }

    /// The position of this node's inbound of tag `t`.
    pub fn inbound(&self, t: ProtoTag) -> (r: Option<usize>)
        ensures
            match r {
                Some(i) => i < self.inbounds@.len() && inbound_index(self.inbounds@, t) == Some(i as int),
                None => inbound_index(self.inbounds@, t) is None,
            },
    {
        find_inbound(&self.inbounds, t)
    }
}

/// No two inbounds share a tag (a node has at most one inbound per protocol).
pub open spec fn tags_unique(ins: Seq<Inbound>) -> bool {
    forall|i: int, j: int| 0 <= i < ins.len() && 0 <= j < ins.len() && i != j ==> ins[i].tag != ins[j].tag
}

impl Node {
    /// The node has at most one inbound per protocol.
    pub open spec fn well_formed(&self) -> bool {
        tags_unique(self.inbounds@)
    }
}

/// The inbounds after a reading of the inbound of tag `t`: its downlink,
/// uplink and connection count are set; every other inbound stays.
pub open spec fn inbounds_with_reading(ins: Seq<Inbound>, t: ProtoTag, downlink: i64, uplink: i64, conn_count: i64) -> Seq<Inbound> {
    match inbound_index(ins, t) {
        None => ins,
        Some(k) => ins.update(
            k,
            Inbound { downlink: Some(downlink), uplink: Some(uplink), conn_count: Some(conn_count), ..ins[k] },
        ),
    }
}

impl Node {
    /// Records a reading of the counters of this node's inbound of tag `t`;
    /// without such an inbound nothing changes. The other fields stay.
    pub fn apply_inbound_reading(&mut self, t: ProtoTag, downlink: i64, uplink: i64, conn_count: i64)
        ensures
            final(self).inbounds@ == inbounds_with_reading(old(self).inbounds@, t, downlink, uplink, conn_count),
            old(self).well_formed() ==> final(self).well_formed(),
            final(self).uuid == old(self).uuid,
            final(self).env == old(self).env,
            final(self).hostname == old(self).hostname,
            final(self).address == old(self).address,
            final(self).status == old(self).status,
            final(self).created_at == old(self).created_at,
            final(self).modified_at == old(self).modified_at,
            final(self).label == old(self).label,
            final(self).interface == old(self).interface,
            final(self).cores == old(self).cores,
            final(self).max_bandwidth_bps == old(self).max_bandwidth_bps,
    {
        match find_inbound(&self.inbounds, t) {
            None => {},
            Some(k) => {
                let mut ib = self.inbounds.remove(k);
                ib.downlink = Some(downlink);
                ib.uplink = Some(uplink);
                ib.conn_count = Some(conn_count);
                self.inbounds.insert(k, ib);
            },
        }
    }
}

/// Whether `secs` is a time that `chrono` can represent as a `DateTime<Utc>`.
pub uninterp spec fn chrono_timestamp_representable(secs: i64) -> bool;

/// `Utc.timestamp_opt(secs, 0)`: whether the time `secs` seconds after the
/// UNIX epoch is within the range of `chrono`'s dates.
#[verifier::external_body]
pub(crate) fn timestamp_representable(secs: i64) -> (r: bool)
    ensures
        r == chrono_timestamp_representable(secs),
{
    chrono::Utc.timestamp_opt(secs, 0).single().is_some()
}

/// Why a node's health could not be judged.
#[derive(Clone, Copy, Debug, PartialEq, Eq, Structural)]
pub enum HealthError {
    NoHeartbeat,
    BadTimestamp(i64),
}

/// Largest timeout in seconds that `chrono::Duration::seconds` accepts.
pub open spec fn max_timeout_secs() -> int {
    i64::MAX / 1000
}

/// The status of a node whose last heartbeat was at `heartbeat` (if any
/// reached the metrics store), judged at `now` with `timeout` seconds of grace.
pub open spec fn spec_heartbeat_status(now: i64, heartbeat: Option<i64>, timeout: i64) -> Result<
    NodeStatus,
    HealthError,
> {
    match heartbeat {
        None => Err(HealthError::NoHeartbeat),
        Some(hb) => if !chrono_timestamp_representable(hb) {
            Err(HealthError::BadTimestamp(hb))
        } else if now - hb <= timeout {
            Ok(NodeStatus::Online)
        } else {
            Ok(NodeStatus::Offline)
        },
    }
}

/// A node whose last heartbeat has a valid time is online exactly while that
/// heartbeat is at most `timeout` seconds old: online at some time means online
/// at every earlier time and with any longer timeout; without a heartbeat its
/// health cannot be judged.
pub proof fn lemma_heartbeat_ages(now: i64, earlier: i64, hb: i64, timeout: i64, longer: i64)
    ensures
        spec_heartbeat_status(now, None, timeout) == Err::<NodeStatus, HealthError>(HealthError::NoHeartbeat),
        chrono_timestamp_representable(hb) ==> (spec_heartbeat_status(now, Some(hb), timeout) == Ok::<
            NodeStatus,
            HealthError,
        >(NodeStatus::Online) <==> now - hb <= timeout),
        chrono_timestamp_representable(hb) ==> (spec_heartbeat_status(now, Some(hb), timeout) is Ok),
        spec_heartbeat_status(now, Some(hb), timeout) == Ok::<NodeStatus, HealthError>(NodeStatus::Online)
            && earlier <= now && timeout <= longer ==> spec_heartbeat_status(earlier, Some(hb), longer) == Ok::<
            NodeStatus,
            HealthError,
        >(NodeStatus::Online),
{
}

/// Online when the last heartbeat is at most `timeout` seconds old at `now`,
/// offline when it is older; an error when there is none or its time is out
/// of range.
pub fn heartbeat_status(now: i64, heartbeat: Option<i64>, timeout: i64) -> (r: Result<
    NodeStatus,
    HealthError,
>)
    requires
        -max_timeout_secs() <= timeout <= max_timeout_secs(),
    ensures
        r == spec_heartbeat_status(now, heartbeat, timeout),
{
    match heartbeat {
        None => Err(HealthError::NoHeartbeat),
        Some(hb) => {
            if !timestamp_representable(hb) {
                return Err(HealthError::BadTimestamp(hb));
            }
            let diff: i128 = now as i128 - hb as i128;
            if diff <= timeout as i128 {
                Ok(NodeStatus::Online)
            } else {
                Ok(NodeStatus::Offline)
            }
        },
    }
}

/// What to do with a node's status: leave it (the node is unknown or its
/// status is already the new one) or store the new one.
#[derive(Clone, Copy, Debug, PartialEq, Eq, Structural)]
pub enum StatusChange {
    Unknown,
    Unchanged,
    Store(NodeStatus),
}

/// Decides whether the status of the node at `current` (its present status,
/// if the node is known) must be written.
pub fn status_change(current: Option<NodeStatus>, new: NodeStatus) -> (r: StatusChange)
    ensures
        current is None ==> r == StatusChange::Unknown,
        current == Some(new) ==> r == StatusChange::Unchanged,
        current matches Some(c) && c != new ==> r == StatusChange::Store(new),
{
    match current {
        None => StatusChange::Unknown,
        Some(c) => if c == new {
            StatusChange::Unchanged
        } else {
            StatusChange::Store(new)
        },
    }
}

} // verus!
