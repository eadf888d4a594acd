//! Building the nodes of the cluster from the rows of the node table joined
//! with the inbound table: one row per inbound, or one row without inbound
//! for a node that has none.
use vstd::prelude::*;
use crate::net::IpMask;
use crate::node::{Inbound, Node, NodeStatus, WgSettings, find_inbound, inbound_index, tags_unique};
use crate::tag::ProtoTag;

verus! {

/// The inbound half of a joined row.
#[derive(Debug)]
pub struct InboundRow {
    pub tag: ProtoTag,
    pub port: i32,
    pub uplink: Option<i64>,
    pub downlink: Option<i64>,
    pub conn_count: Option<i64>,
    pub wg_pubkey: Option<String>,
    pub wg_privkey: Option<String>,
    pub wg_interface: Option<String>,
    pub wg_network: Option<IpMask>,
    pub wg_address: Option<u32>,
    pub dns: Option<Vec<u32>>,
}

/// A row of the node table joined with one of its inbounds. `node_id` is the
/// row key of the node; `address` is `None` when the stored address is not
/// IPv4, and such rows are skipped.
#[derive(Debug)]
pub struct NodeRow {
    pub node_id: u128,
    pub uuid: u128,
    pub env: String,
    pub hostname: String,
    pub address: Option<u32>,
    pub status: NodeStatus,
    pub created_at: i64,
    pub modified_at: i64,
    pub label: String,
    pub interface: String,
    pub cores: i32,
    pub max_bandwidth_bps: i64,
    pub inbound: Option<InboundRow>,
}

/// The WireGuard settings of an inbound row: present only when all of key
/// pair, interface, network, address and DNS servers are.
pub open spec fn wg_of(r: InboundRow) -> Option<WgSettings> {
    if r.wg_pubkey is Some && r.wg_privkey is Some && r.wg_interface is Some && r.wg_network is Some
        && r.wg_address is Some && r.dns is Some {
        Some(
            WgSettings {
                pubkey: r.wg_pubkey.unwrap(),
                privkey: r.wg_privkey.unwrap(),
                interface: r.wg_interface.unwrap(),
                network: r.wg_network.unwrap(),
                address: r.wg_address.unwrap(),
                port: r.port as u16,
                dns: r.dns.unwrap(),
            },
        )
    } else {
        None
    }
}

/// The inbound an inbound row describes.
pub open spec fn inbound_of(r: InboundRow) -> Inbound {
    Inbound {
        tag: r.tag,
        port: r.port as u16,
        uplink: r.uplink,
        downlink: r.downlink,
        conn_count: r.conn_count,
        wg: wg_of(r),
    }
}

/// `ins` with `ib` in place of the inbound of the same tag, or added at the end.
pub open spec fn upsert_inbound(ins: Seq<Inbound>, ib: Inbound) -> Seq<Inbound> {
    match inbound_index(ins, ib.tag) {
        Some(j) => ins.update(j, ib),
        None => ins.push(ib),
    }
}

/// A node being assembled: its row key, the first row that named it, and its
/// inbounds so far.
pub type NodeGroup = (u128, NodeRow, Seq<Inbound>);

/// The first group with row key `id`, by position.
#[verifier::opaque]
pub open spec fn group_index(acc: Seq<NodeGroup>, id: u128) -> Option<int> {
    if exists|i: int| 0 <= i < acc.len() && acc[i].0 == id {
        Some(
            choose|i: int|
                0 <= i < acc.len() && acc[i].0 == id && forall|j: int| 0 <= j < i ==> acc[j].0 != id,
        )
    } else {
        None
    }
}

/// Adds one row to the groups: a row without IPv4 address is skipped; a new
/// row key opens a group taken from this row; the row's inbound, if any,
/// replaces the group's inbound of the same tag or is added.
pub open spec fn add_row(acc: Seq<NodeGroup>, row: NodeRow) -> Seq<NodeGroup> {
    if row.address is None {
        acc
    } else {
        let acc1 = match group_index(acc, row.node_id) {
            Some(_) => acc,
            None => acc.push((row.node_id, row, Seq::<Inbound>::empty())),
        };
        let k = match group_index(acc, row.node_id) {
            Some(k) => k,
            None => acc.len() as int,
        };
        match row.inbound {
            None => acc1,
            Some(ir) => acc1.update(k, (acc1[k].0, acc1[k].1, upsert_inbound(acc1[k].2, inbound_of(ir)))),
        }
    }
}

/// The groups that the rows make, in order of first appearance of each node.
pub open spec fn group_rows(rows: Seq<NodeRow>) -> Seq<NodeGroup>
    decreases rows.len(),
{
    if rows.len() == 0 {
        Seq::empty()
    } else {
        add_row(group_rows(rows.drop_last()), rows.last())
    }
}

/// Node `n` is the one group `g` describes: identity, addresses, status,
/// times, label, interface, cores (the stored count as `usize`) and bandwidth
/// from the group's first row, and the group's inbounds.
pub open spec fn node_of_group(n: Node, g: NodeGroup) -> bool {
    let row = g.1;
    &&& n.uuid == row.uuid
    &&& n.env == row.env
    &&& n.hostname == row.hostname
    &&& row.address == Some(n.address)
    &&& n.status == row.status
    &&& n.created_at == row.created_at
    &&& n.modified_at == row.modified_at
    &&& n.label == row.label
    &&& n.interface == row.interface
    &&& n.cores == row.cores as usize
    &&& n.max_bandwidth_bps == row.max_bandwidth_bps
    &&& n.inbounds@ == g.2
}

/// No two groups share a row key, and no group has two inbounds of one tag.
pub open spec fn groups_well_formed(acc: Seq<NodeGroup>) -> bool {
    &&& forall|i: int, j: int| 0 <= i < acc.len() && 0 <= j < acc.len() && i != j ==> acc[i].0 != acc[j].0
    &&& forall|i: int| 0 <= i < acc.len() ==> tags_unique(#[trigger] acc[i].2)
}

proof fn lemma_upsert_unique(ins: Seq<Inbound>, ib: Inbound)
    requires
        tags_unique(ins),
    ensures
        tags_unique(upsert_inbound(ins, ib)),
{
    reveal(inbound_index);
    let r = upsert_inbound(ins, ib);
    if exists|i: int| 0 <= i < ins.len() && ins[i].tag == ib.tag {
        let k = inbound_index(ins, ib.tag).unwrap();
        assert(ins[k].tag == ib.tag);
        assert forall|i: int, j: int| 0 <= i < r.len() && 0 <= j < r.len() && i != j implies r[i].tag != r[j].tag by {
            assert(r[i].tag == ins[i].tag);
            assert(r[j].tag == ins[j].tag);
        }
    } else {
        assert forall|i: int, j: int| 0 <= i < r.len() && 0 <= j < r.len() && i != j implies r[i].tag != r[j].tag by {
            if i < ins.len() && j < ins.len() {
            } else if i == ins.len() {
                assert(ins[j].tag != ib.tag);
            } else {
                assert(ins[i].tag != ib.tag);
            }
        }
    }
}

proof fn lemma_add_row_well_formed(acc: Seq<NodeGroup>, row: NodeRow)
    requires
        groups_well_formed(acc),
    ensures
        groups_well_formed(add_row(acc, row)),
{
    reveal(group_index);
    if row.address is Some {
        let acc1 = match group_index(acc, row.node_id) {
            Some(_) => acc,
            None => acc.push((row.node_id, row, Seq::<Inbound>::empty())),
        };
        let k = match group_index(acc, row.node_id) {
            Some(k) => k,
            None => acc.len() as int,
        };
        assert(groups_well_formed(acc1)) by {
            if group_index(acc, row.node_id) is None {
                assert forall|i: int, j: int|
                    0 <= i < acc1.len() && 0 <= j < acc1.len() && i != j implies acc1[i].0 != acc1[j].0 by {
                    if i == acc.len() {
                        assert(acc[j].0 != row.node_id);
                    } else if j == acc.len() {
                        assert(acc[i].0 != row.node_id);
                    }
                }
                assert forall|i: int| 0 <= i < acc1.len() implies tags_unique(#[trigger] acc1[i].2) by {
                    if i < acc.len() {
                        assert(acc1[i] == acc[i]);
                    }
                }
            }
        }
        assert(0 <= k < acc1.len());
        match row.inbound {
            None => {},
            Some(ir) => {
                lemma_upsert_unique(acc1[k].2, inbound_of(ir));
                let acc2 = add_row(acc, row);
                assert forall|i: int| 0 <= i < acc2.len() implies tags_unique(#[trigger] acc2[i].2) by {
                    if i != k {
                        assert(acc2[i] == acc1[i]);
                    }
                }
                assert forall|i: int, j: int|
                    0 <= i < acc2.len() && 0 <= j < acc2.len() && i != j implies acc2[i].0 != acc2[j].0 by {
                    assert(acc2[i].0 == acc1[i].0);
                    assert(acc2[j].0 == acc1[j].0);
                }
            },
        }
    }
}

/// The groups that rows make have distinct row keys, and each has at most
/// one inbound of each tag.
pub proof fn lemma_group_rows_well_formed(rows: Seq<NodeRow>)
    ensures
        groups_well_formed(group_rows(rows)),
    decreases rows.len(),
{
    if rows.len() > 0 {
        lemma_group_rows_well_formed(rows.drop_last());
        lemma_add_row_well_formed(group_rows(rows.drop_last()), rows.last());
    }
}

proof fn lemma_first_group(acc: Seq<NodeGroup>, id: u128, i: int)
    requires
        0 <= i < acc.len(),
        acc[i].0 == id,
        forall|j: int| 0 <= j < i ==> acc[j].0 != id,
    ensures
        group_index(acc, id) == Some(i),
{
    reveal(group_index);
    let k = choose|k: int|
        0 <= k < acc.len() && acc[k].0 == id && forall|j: int| 0 <= j < k ==> acc[j].0 != id;
    if k < i {
        assert(acc[k].0 != id);
    }
    if i < k {
        assert(acc[i].0 != id);
    }
}

proof fn lemma_no_group(acc: Seq<NodeGroup>, id: u128)
    requires
        forall|j: int| 0 <= j < acc.len() ==> acc[j].0 != id,
    ensures
        group_index(acc, id) is None,
{
    reveal(group_index);
}

/// Some group has row key `id`.
pub open spec fn has_group(gs: Seq<NodeGroup>, id: u128) -> bool {
    exists|g: int| 0 <= g < gs.len() && gs[g].0 == id
}

/// The group with row key `id` has an inbound of tag `t`.
pub open spec fn group_has_tag(gs: Seq<NodeGroup>, id: u128, t: ProtoTag) -> bool {
    exists|g: int, k: int| 0 <= g < gs.len() && gs[g].0 == id && 0 <= k < gs[g].2.len() && gs[g].2[k].tag == t
}

/// Some row with an IPv4 address has node key `id`.
pub open spec fn addressed_row(rows: Seq<NodeRow>, id: u128) -> bool {
    exists|i: int| 0 <= i < rows.len() && rows[i].node_id == id && rows[i].address is Some
}

proof fn lemma_group_index_found(acc: Seq<NodeGroup>, id: u128)
    requires
        groups_well_formed(acc),
    ensures
        group_index(acc, id) matches Some(k) ==> 0 <= k < acc.len() && acc[k].0 == id,
        group_index(acc, id) is None <==> !has_group(acc, id),
{
    if has_group(acc, id) {
        let i = choose|i: int| 0 <= i < acc.len() && acc[i].0 == id;
        lemma_first_group(acc, id, i);
    } else {
        lemma_no_group(acc, id);
    }
}

proof fn lemma_upsert_tags(ins: Seq<Inbound>, ib: Inbound, t: ProtoTag)
    ensures
        (exists|k: int| 0 <= k < upsert_inbound(ins, ib).len() && upsert_inbound(ins, ib)[k].tag == t) <==> ((
        exists|k: int| 0 <= k < ins.len() && ins[k].tag == t) || t == ib.tag),
{
    crate::node::lemma_inbound_index(ins, ib.tag);
    let u = upsert_inbound(ins, ib);
    match inbound_index(ins, ib.tag) {
        Some(j) => {
            if exists|k: int| 0 <= k < ins.len() && ins[k].tag == t {
                let k = choose|k: int| 0 <= k < ins.len() && ins[k].tag == t;
                if k == j {
                    assert(u[j].tag == ib.tag);
                    assert(ins[j].tag == ib.tag);
                } else {
                    assert(u[k].tag == t);
                }
            }
            if t == ib.tag {
                assert(u[j].tag == t);
            }
            if exists|k: int| 0 <= k < u.len() && u[k].tag == t {
                let k = choose|k: int| 0 <= k < u.len() && u[k].tag == t;
                if k != j {
                    assert(ins[k].tag == t);
                }
            }
        },
        None => {
            if exists|k: int| 0 <= k < ins.len() && ins[k].tag == t {
                let k = choose|k: int| 0 <= k < ins.len() && ins[k].tag == t;
                assert(u[k].tag == t);
            }
            if t == ib.tag {
                assert(u[ins.len() as int].tag == t);
            }
            if exists|k: int| 0 <= k < u.len() && u[k].tag == t {
                let k = choose|k: int| 0 <= k < u.len() && u[k].tag == t;
                if k < ins.len() {
                    assert(ins[k].tag == t);
                }
            }
        },
    }
}

proof fn lemma_add_row_cover(acc: Seq<NodeGroup>, row: NodeRow)
    requires
        groups_well_formed(acc),
    ensures
        forall|id: u128| has_group(acc, id) ==> #[trigger] has_group(add_row(acc, row), id),
        forall|id: u128|
            #[trigger] has_group(add_row(acc, row), id) ==> has_group(acc, id) || (row.address is Some && id
                == row.node_id),
        row.address is Some ==> has_group(add_row(acc, row), row.node_id),
        forall|id: u128, t: ProtoTag| group_has_tag(acc, id, t) ==> #[trigger] group_has_tag(add_row(acc, row), id, t),
        row.address is Some && row.inbound is Some ==> group_has_tag(
            add_row(acc, row),
            row.node_id,
            row.inbound.unwrap().tag,
        ),
{
    lemma_group_index_found(acc, row.node_id);
    let out = add_row(acc, row);
    if row.address is Some {
        let acc1 = match group_index(acc, row.node_id) {
            Some(_) => acc,
            None => acc.push((row.node_id, row, Seq::<Inbound>::empty())),
        };
        let k = match group_index(acc, row.node_id) {
            Some(k) => k,
            None => acc.len() as int,
        };
        assert(0 <= k < acc1.len() && acc1[k].0 == row.node_id);
        assert(out.len() == acc1.len());
        assert forall|g: int| 0 <= g < acc1.len() implies out[g].0 == acc1[g].0 by {}
        assert forall|g: int| 0 <= g < acc1.len() && g != k implies out[g].2 == acc1[g].2 by {}
        assert forall|id: u128| has_group(acc, id) implies #[trigger] has_group(out, id) by {
            let g = choose|g: int| 0 <= g < acc.len() && acc[g].0 == id;
            assert(acc1[g] == acc[g]);
            assert(out[g].0 == id);
        }
        assert forall|id: u128| #[trigger] has_group(out, id) implies has_group(acc, id) || id == row.node_id by {
            let g = choose|g: int| 0 <= g < out.len() && out[g].0 == id;
            if g < acc.len() {
                assert(acc1[g] == acc[g]);
            }
        }
        assert(out[k].0 == row.node_id);
        assert forall|id: u128, t: ProtoTag| group_has_tag(acc, id, t) implies #[trigger] group_has_tag(out, id, t) by {
            let (g, q) = choose|g: int, q: int|
                0 <= g < acc.len() && acc[g].0 == id && 0 <= q < acc[g].2.len() && acc[g].2[q].tag == t;
            assert(acc1[g] == acc[g]);
            if g != k || row.inbound is None {
                assert(out[g].2[q].tag == t);
            } else {
                let ib = inbound_of(row.inbound.unwrap());
                lemma_upsert_tags(acc1[k].2, ib, t);
                assert(out[k].2 == upsert_inbound(acc1[k].2, ib));
                let q2 = choose|q2: int| 0 <= q2 < out[k].2.len() && out[k].2[q2].tag == t;
                assert(0 <= k < out.len() && out[k].0 == id && 0 <= q2 < out[k].2.len() && out[k].2[q2].tag == t);
            }
        }
        if row.inbound is Some {
            let ib = inbound_of(row.inbound.unwrap());
            let t = row.inbound.unwrap().tag;
            lemma_upsert_tags(acc1[k].2, ib, t);
            assert(out[k].2 == upsert_inbound(acc1[k].2, ib));
            let q2 = choose|q2: int| 0 <= q2 < out[k].2.len() && out[k].2[q2].tag == t;
            assert(0 <= k < out.len() && out[k].0 == row.node_id && 0 <= q2 < out[k].2.len() && out[k].2[q2].tag == t);
        }
    }
}

/// The nodes built from the rows are exactly those of the rows with an IPv4
/// address, one per node key, and each inbound of such a row is among its
/// node's inbounds.
pub proof fn lemma_group_rows_cover(rows: Seq<NodeRow>)
    ensures
        forall|i: int| 0 <= i < rows.len() && rows[i].address is Some ==> has_group(group_rows(rows), #[trigger] rows[i].node_id),
        forall|g: int| 0 <= g < group_rows(rows).len() ==> addressed_row(rows, #[trigger] group_rows(rows)[g].0),
        forall|i: int|
            0 <= i < rows.len() && rows[i].address is Some && rows[i].inbound is Some ==> group_has_tag(
                group_rows(rows),
                (#[trigger] rows[i]).node_id,
                rows[i].inbound.unwrap().tag,
            ),
    decreases rows.len(),
{
    if rows.len() > 0 {
        let prev = rows.drop_last();
        let last = rows.last();
        lemma_group_rows_cover(prev);
        lemma_group_rows_well_formed(prev);
        lemma_add_row_cover(group_rows(prev), last);
        let gs = group_rows(rows);
        assert(gs == add_row(group_rows(prev), last));
        assert forall|i: int| 0 <= i < rows.len() && rows[i].address is Some implies has_group(gs, #[trigger] rows[i].node_id) by {
            if i < rows.len() - 1 {
                assert(rows[i] == prev[i]);
                assert(has_group(group_rows(prev), prev[i].node_id));
            }
        }
        assert forall|g: int| 0 <= g < gs.len() implies addressed_row(rows, #[trigger] gs[g].0) by {
            assert(has_group(gs, gs[g].0));
            if has_group(group_rows(prev), gs[g].0) {
                let g0 = choose|g0: int| 0 <= g0 < group_rows(prev).len() && group_rows(prev)[g0].0 == gs[g].0;
                assert(addressed_row(prev, group_rows(prev)[g0].0));
                let i = choose|i: int| 0 <= i < prev.len() && prev[i].node_id == gs[g].0 && prev[i].address is Some;
                assert(rows[i] == prev[i]);
            } else {
                assert(rows[rows.len() - 1] == last);
            }
        }
        assert forall|i: int|
            0 <= i < rows.len() && rows[i].address is Some && rows[i].inbound is Some implies group_has_tag(
                gs,
                (#[trigger] rows[i]).node_id,
                rows[i].inbound.unwrap().tag,
            ) by {
            if i < rows.len() - 1 {
                assert(rows[i] == prev[i]);
                assert(group_has_tag(group_rows(prev), prev[i].node_id, prev[i].inbound.unwrap().tag));
            }
        }
    }
}

/// The inbound a row describes, built from the row's own values.
fn take_inbound(r: InboundRow) -> (ib: Inbound)
    ensures
        ib == inbound_of(r),
{
    let ghost r0 = r;
    let port = #[verifier::truncate] (r.port as u16);
    let wg = match (r.wg_pubkey, r.wg_privkey, r.wg_interface, r.wg_network, r.wg_address, r.dns) {
        (Some(pubkey), Some(privkey), Some(interface), Some(network), Some(address), Some(dns)) => Some(
            WgSettings { pubkey, privkey, interface, network, address, port, dns },
        ),
        _ => None,
    };
    assert(wg == wg_of(r0));
    Inbound {
        tag: r.tag,
        port,
        uplink: r.uplink,
        downlink: r.downlink,
        conn_count: r.conn_count,
        wg,
    }
}

/// The nodes that the joined rows describe, one per row key, in order of
/// first appearance; rows whose address is not IPv4 are skipped. A node's
/// fields come from its first row; each later inbound row replaces the
/// node's inbound of the same tag, or adds one.
pub fn nodes_from_rows(rows: Vec<NodeRow>) -> (r: Vec<Node>)
    ensures
        r@.len() == group_rows(rows@).len(),
        forall|i: int| 0 <= i < r@.len() ==> node_of_group(#[trigger] r@[i], group_rows(rows@)[i]),
        forall|i: int, j: int|
            0 <= i < r@.len() && 0 <= j < r@.len() && i != j ==> group_rows(rows@)[i].0 != group_rows(rows@)[j].0,
        forall|i: int| 0 <= i < r@.len() ==> tags_unique(#[trigger] r@[i].inbounds@),
{
    proof {
        lemma_group_rows_well_formed(rows@);
    }
    let ghost all = rows@;
    let mut rows = rows;
    let mut out: Vec<Node> = Vec::new();
    let mut ids: Vec<u128> = Vec::new();
    let n = rows.len();
    let mut done: usize = 0;
    while done < n
        invariant
            n == all.len(),
            done <= n,
            rows@ == all.skip(done as int),
            out@.len() == group_rows(all.take(done as int)).len(),
            ids@.len() == out@.len(),
            forall|i: int| 0 <= i < out@.len() ==> node_of_group(#[trigger] out@[i], group_rows(all.take(done as int))[i]),
            forall|i: int| 0 <= i < ids@.len() ==> #[trigger] ids@[i] == group_rows(all.take(done as int))[i].0,
        decreases n - done,
    {
        let ghost acc = group_rows(all.take(done as int));
        proof {
            assert(all.take(done + 1).drop_last() =~= all.take(done as int));
            assert(all.take(done + 1).last() == all[done as int]);
        }
        let row = rows.remove(0);
        proof {
            assert(row == all[done as int]);
            assert(rows@ =~= all.skip(done + 1));
        }
        let ghost row0 = row;
        match row.address {
            None => {},
            Some(address) => {
                let node_id = row.node_id;
                let mut k: usize = 0;
                while k < ids.len() && ids[k] != node_id
                    invariant
                        k <= ids@.len(),
                        node_id == row0.node_id,
                        ids@.len() == acc.len(),
                        forall|i: int| 0 <= i < ids@.len() ==> #[trigger] ids@[i] == acc[i].0,
                        forall|j: int| 0 <= j < k ==> acc[j].0 != row0.node_id,
                    decreases ids@.len() - k,
                {
                    k = k + 1;
                }
                let ghost acc1 = if k < ids.len() {
                    acc
                } else {
                    acc.push((row0.node_id, row0, Seq::<Inbound>::empty()))
                };
                if k < ids.len() {
                    proof {
                        lemma_first_group(acc, row0.node_id, k as int);
                    }
                } else {
                    proof {
                        lemma_no_group(acc, row0.node_id);
                    }
                    let ghost prev = out@;
                    out.push(Node {
                        uuid: row.uuid,
                        env: row.env,
                        hostname: row.hostname,
                        address,
                        inbounds: Vec::new(),
                        status: row.status,
                        created_at: row.created_at,
                        modified_at: row.modified_at,
                        label: row.label,
                        interface: row.interface,
                        cores: #[verifier::truncate] (row.cores as usize),
                        max_bandwidth_bps: row.max_bandwidth_bps,
                    });
                    ids.push(row.node_id);
                    proof {
                        assert(node_of_group(out@[k as int], acc1[k as int]));
                        assert forall|i: int| 0 <= i < out@.len() implies node_of_group(#[trigger] out@[i], acc1[i]) by {
                            if i < k {
                                assert(out@[i] == prev[i]);
                            }
                        }
                    }
                }
                assert(forall|i: int| 0 <= i < out@.len() ==> node_of_group(#[trigger] out@[i], acc1[i]));
                match row.inbound {
                    None => {},
                    Some(ir) => {
                        let ghost ir0 = ir;
                        let ib = take_inbound(ir);
                        let ghost before = out@;
                        let mut node = out.remove(k);
                        match find_inbound(&node.inbounds, ib.tag) {
                            Some(j) => {
                                node.inbounds.set(j, ib);
                            },
                            None => {
                                node.inbounds.push(ib);
                            },
                        }
                        out.insert(k, node);
                        proof {
                            assert(out@ =~= before.update(k as int, node));
                        }
                    },
                }
            },
        }
        proof {
            assert(group_rows(all.take(done + 1)) == add_row(acc, row0));
        }
        done = done + 1;
    }
    proof {
        assert(all.take(n as int) =~= all);
    }
    out
}

} // verus!
