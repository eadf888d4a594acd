//! Subscription links: which inbounds of which nodes a subscription's
//! connections are offered on, how the link body is written, and which
//! locations a subscription has.
use vstd::prelude::*;
use crate::codec::{base64_encode, base64_standard, uuid_string, uuid_text};
use crate::connection::{Connection, proto_tag};
use crate::node::{Node, inbound_index, lemma_inbound_index};
use crate::store::{ConnectionStore, env_filter, select_ids};
use crate::subscription::{SubscriptionStore, active_at, invited_count, spec_days_remaining};
use crate::tag::{ProtoTag, TagReq, spec_tags_for, tags_contain, is_reality};
use crate::text::{owned, str_eq};

verus! {

/// One line of a subscription: connection `conn_id` on the inbound at
/// position `inbound` of the node at position `node`.
#[derive(Clone, Copy, Debug, PartialEq, Eq, Structural)]
pub struct LinkTarget {
    pub conn_id: u128,
    pub node: usize,
    pub inbound: usize,
}

/// The targets of connection `cid` (of tag `t`, in environment `env`) on the
/// first `n` nodes: each node of that environment with an inbound of tag `t`.
pub open spec fn node_targets(nodes: Seq<Node>, n: int, cid: u128, env: Seq<char>, t: ProtoTag) -> Seq<LinkTarget>
    decreases n,
{
    if n <= 0 {
        Seq::empty()
    } else {
        let rest = node_targets(nodes, n - 1, cid, env, t);
        let nd = nodes[n - 1];
        if nd.env@ == env && inbound_index(nd.inbounds@, t) is Some {
            rest.push(LinkTarget { conn_id: cid, node: (n - 1) as usize, inbound: inbound_index(nd.inbounds@, t).unwrap() as usize })
        } else {
            rest
        }
    }
}

/// A connection is offered by a link of subscription `sub` for environment
/// `env` and tags `tags`: it belongs to the subscription, is not deleted, is in
/// `env` and has one of the tags.
pub open spec fn offered(c: Connection, sub: u128, env: Seq<char>, tags: Seq<ProtoTag>) -> bool {
    &&& c.subscription_id == Some(sub)
    &&& !c.is_deleted
    &&& c.env@ == env
    &&& tags.contains(proto_tag(c.proto))
}

/// The targets of the first `m` stored connections, in table order and then node order.
pub open spec fn link_targets(
    conns: Seq<(u128, Connection)>,
    m: int,
    nodes: Seq<Node>,
    sub: u128,
    env: Seq<char>,
    tags: Seq<ProtoTag>,
) -> Seq<LinkTarget>
    decreases m,
{
    if m <= 0 {
        Seq::empty()
    } else {
        let rest = link_targets(conns, m - 1, nodes, sub, env, tags);
        let e = conns[m - 1];
        if offered(e.1, sub, env, tags) {
            rest + node_targets(nodes, nodes.len() as int, e.0, e.1.env@, proto_tag(e.1.proto))
        } else {
            rest
        }
    }
}

/// Why a subscription link has nothing to offer.
#[derive(Clone, Copy, Debug, PartialEq, Eq, Structural)]
pub enum LinkError {
    /// The subscription exists and has expired.
    Expired,
    /// No node serves any of its connections.
    NoTargets,
}

fn targets_for_conn(nodes: &Vec<Node>, cid: u128, env: &str, t: ProtoTag, out: &mut Vec<LinkTarget>)
    ensures
        final(out)@ == old(out)@ + node_targets(nodes@, nodes@.len() as int, cid, env@, t),
{
    let ghost start = out@;
    let mut i: usize = 0;
    while i < nodes.len()
        invariant
            i <= nodes@.len(),
            out@ == start + node_targets(nodes@, i as int, cid, env@, t),
        decreases nodes@.len() - i,
    {
        let nd = &nodes[i];
        if str_eq(nd.env.as_str(), env) {
            match nd.inbound(t) {
                Some(k) => {
                    out.push(LinkTarget { conn_id: cid, node: i, inbound: k });
                },
                None => {},
            }
        }
        proof {
            assert(start + node_targets(nodes@, i + 1, cid, env@, t) =~= out@);
        }
        i = i + 1;
    }
}

/// Whether the subscription with id `sub` is stored and inactive at `now`.
pub open spec fn expired_subscription(subs: Seq<crate::subscription::Subscription>, sub: u128, now: i64) -> bool {
    exists|j: int| 0 <= j < subs.len() && subs[j].id == sub && !active_at(subs[j], now)
}

/// The lines of a subscription link: refused when the subscription has
/// expired; otherwise every inbound, on every node of the environment, that
/// serves a non-deleted connection of the subscription in environment `env`
/// with a tag of the requested family; refused when there is none.
pub fn subscription_link_targets(
    subs: &SubscriptionStore,
    store: &ConnectionStore,
    nodes: &Vec<Node>,
    sub: u128,
    env: &str,
    family: TagReq,
    now: i64,
) -> (r: Result<Vec<LinkTarget>, LinkError>)
    requires
        subs.well_formed(),
    ensures
        expired_subscription(subs@, sub, now) ==> r == Err::<Vec<LinkTarget>, LinkError>(LinkError::Expired),
        !expired_subscription(subs@, sub, now) ==> {
            let t = link_targets(store@, store@.len() as int, nodes@, sub, env@, spec_tags_for(family));
            &&& t.len() == 0 ==> r == Err::<Vec<LinkTarget>, LinkError>(LinkError::NoTargets)
            &&& t.len() > 0 ==> (r matches Ok(v) && v@ == t)
        },
{
    if let Some(j) = subs.find_by_id(sub) {
        if !subs.at(j).is_active(now) {
            return Err(LinkError::Expired);
        }
        proof {
            assert forall|k: int| 0 <= k < subs@.len() && subs@[k].id == sub implies active_at(subs@[k], now) by {
                if k != j {
                    assert(subs@[k].id != subs@[j as int].id);
                }
            }
        }
    }
    let tags = family.tags();
    let ids = store.ids();
    let mut out: Vec<LinkTarget> = Vec::new();
    let mut i: usize = 0;
    while i < store.len()
        invariant
            i <= store@.len(),
            ids@.len() == store@.len(),
            forall|q: int| 0 <= q < ids@.len() ==> ids@[q] == store@[q].0,
            tags@ == spec_tags_for(family),
            out@ == link_targets(store@, i as int, nodes@, sub, env@, tags@),
        decreases store@.len() - i,
    {
        let id = ids[i];
        match store.entry_at(i) {
            (_, c) => {
                if c.subscription_id == Some(sub) && !c.is_deleted && str_eq(c.env.as_str(), env)
                    && tags_contain(&tags, c.proto.proto()) {
                    targets_for_conn(nodes, id, c.env.as_str(), c.proto.proto(), &mut out);
                }
            },
        }
        i = i + 1;
    }
    if out.len() == 0 {
        return Err(LinkError::NoTargets);
    }
    Ok(out)
}

/// Line `x` is the stored connection at position `q` of `conns`, offered on an
/// inbound of its own protocol of a node in the requested environment: the
/// connection belongs to subscription `sub`, is not deleted, is in `env`, and
/// its protocol is one of `tags`.
pub open spec fn line_of_entry(
    conns: Seq<(u128, Connection)>,
    q: int,
    nodes: Seq<Node>,
    sub: u128,
    env: Seq<char>,
    tags: Seq<ProtoTag>,
    x: LinkTarget,
) -> bool {
    &&& conns[q].0 == x.conn_id
    &&& conns[q].1.subscription_id == Some(sub)
    &&& !conns[q].1.is_deleted
    &&& conns[q].1.env@ == env
    &&& tags.contains(proto_tag(conns[q].1.proto))
    &&& x.node < nodes.len()
    &&& nodes[x.node as int].env@ == env
    &&& x.inbound < nodes[x.node as int].inbounds@.len()
    &&& nodes[x.node as int].inbounds@[x.inbound as int].tag == proto_tag(conns[q].1.proto)
}

/// Some line of `lines` offers connection `cid` on the node at position `j`.
pub open spec fn has_line_on(lines: Seq<LinkTarget>, cid: u128, j: int) -> bool {
    exists|k: int| 0 <= k < lines.len() && lines[k].conn_id == cid && lines[k].node as int == j
}

/// Some of the first `m` stored connections is what line `x` offers.
pub open spec fn line_from_store(
    conns: Seq<(u128, Connection)>,
    m: int,
    nodes: Seq<Node>,
    sub: u128,
    env: Seq<char>,
    tags: Seq<ProtoTag>,
    x: LinkTarget,
) -> bool {
    exists|q: int| 0 <= q < m && line_of_entry(conns, q, nodes, sub, env, tags, x)
}

proof fn lemma_node_targets_lines(nodes: Seq<Node>, n: int, cid: u128, env: Seq<char>, t: ProtoTag)
    requires
        0 <= n <= nodes.len(),
        nodes.len() <= usize::MAX,
        forall|j: int| 0 <= j < nodes.len() ==> (#[trigger] nodes[j]).inbounds@.len() <= usize::MAX,
    ensures
        forall|k: int| 0 <= k < node_targets(nodes, n, cid, env, t).len() ==> {
            let x = #[trigger] node_targets(nodes, n, cid, env, t)[k];
            &&& x.conn_id == cid
            &&& x.node < n
            &&& nodes[x.node as int].env@ == env
            &&& x.inbound < nodes[x.node as int].inbounds@.len()
            &&& nodes[x.node as int].inbounds@[x.inbound as int].tag == t
        },
        forall|j: int, i: int|
            0 <= j < n && 0 <= i < nodes[j].inbounds@.len() && nodes[j].env@ == env
                && #[trigger] nodes[j].inbounds@[i].tag == t ==> has_line_on(node_targets(nodes, n, cid, env, t), cid, j),
    decreases n,
{
    if n > 0 {
        lemma_node_targets_lines(nodes, n - 1, cid, env, t);
        let rest = node_targets(nodes, n - 1, cid, env, t);
        let nd = nodes[n - 1];
        lemma_inbound_index(nd.inbounds@, t);
        let all = node_targets(nodes, n, cid, env, t);
        assert forall|j: int, i: int|
            0 <= j < n && 0 <= i < nodes[j].inbounds@.len() && nodes[j].env@ == env
                && #[trigger] nodes[j].inbounds@[i].tag == t implies has_line_on(all, cid, j) by {
            if j < n - 1 {
                let k = choose|k: int| 0 <= k < rest.len() && rest[k].conn_id == cid && rest[k].node as int == j;
                if nd.env@ == env && inbound_index(nd.inbounds@, t) is Some {
                    assert(all[k] == rest[k]);
                }
            } else {
                assert(all[rest.len() as int].node as int == n - 1);
            }
        }
    }
}

proof fn lemma_link_targets_lines(
    conns: Seq<(u128, Connection)>,
    m: int,
    nodes: Seq<Node>,
    sub: u128,
    env: Seq<char>,
    tags: Seq<ProtoTag>,
)
    requires
        0 <= m <= conns.len(),
        nodes.len() <= usize::MAX,
        forall|j: int| 0 <= j < nodes.len() ==> (#[trigger] nodes[j]).inbounds@.len() <= usize::MAX,
    ensures
        forall|k: int| 0 <= k < link_targets(conns, m, nodes, sub, env, tags).len()
            ==> line_from_store(conns, m, nodes, sub, env, tags, #[trigger] link_targets(conns, m, nodes, sub, env, tags)[k]),
        forall|q: int, j: int, i: int|
            0 <= q < m && 0 <= j < nodes.len() && 0 <= i < nodes[j].inbounds@.len()
                && (#[trigger] conns[q]).1.subscription_id == Some(sub) && !conns[q].1.is_deleted
                && conns[q].1.env@ == env && tags.contains(proto_tag(conns[q].1.proto)) && nodes[j].env@ == env
                && #[trigger] nodes[j].inbounds@[i].tag == proto_tag(conns[q].1.proto)
                ==> has_line_on(link_targets(conns, m, nodes, sub, env, tags), conns[q].0, j),
    decreases m,
{
    if m > 0 {
        lemma_link_targets_lines(conns, m - 1, nodes, sub, env, tags);
        let rest = link_targets(conns, m - 1, nodes, sub, env, tags);
        let all = link_targets(conns, m, nodes, sub, env, tags);
        let e = conns[m - 1];
        let t = proto_tag(e.1.proto);
        lemma_node_targets_lines(nodes, nodes.len() as int, e.0, e.1.env@, t);
        let nt = node_targets(nodes, nodes.len() as int, e.0, e.1.env@, t);
        assert forall|k: int| 0 <= k < all.len() implies line_from_store(conns, m, nodes, sub, env, tags, #[trigger] all[k]) by {
            if k < rest.len() {
                if offered(e.1, sub, env, tags) {
                    assert(all[k] == rest[k]);
                }
                let q = choose|q: int| 0 <= q < m - 1 && line_of_entry(conns, q, nodes, sub, env, tags, rest[k]);
                assert(line_of_entry(conns, q, nodes, sub, env, tags, all[k]));
            } else {
                assert(all[k] == nt[k - rest.len()]);
                assert(line_of_entry(conns, m - 1, nodes, sub, env, tags, all[k]));
            }
        }
        assert forall|q: int, j: int, i: int|
            0 <= q < m && 0 <= j < nodes.len() && 0 <= i < nodes[j].inbounds@.len()
                && (#[trigger] conns[q]).1.subscription_id == Some(sub) && !conns[q].1.is_deleted
                && conns[q].1.env@ == env && tags.contains(proto_tag(conns[q].1.proto)) && nodes[j].env@ == env
                && #[trigger] nodes[j].inbounds@[i].tag == proto_tag(conns[q].1.proto)
                implies has_line_on(all, conns[q].0, j) by {
            if q < m - 1 {
                let k = choose|k: int| 0 <= k < rest.len() && rest[k].conn_id == conns[q].0 && rest[k].node as int == j;
                if offered(e.1, sub, env, tags) {
                    assert(all[k] == rest[k]);
                }
            } else {
                assert(nodes[j].inbounds@[i].tag == t);
                let k = choose|k: int| 0 <= k < nt.len() && nt[k].conn_id == e.0 && nt[k].node as int == j;
                assert(all[rest.len() + k] == nt[k]);
            }
        }
    }
}

/// Each line of a subscription link is a live connection of the subscription,
/// in the requested environment and of a requested protocol, offered on a node
/// of that environment through an inbound of the connection's own protocol;
/// and each such pair of a connection and a node that has such an inbound gets
/// a line.
pub proof fn lemma_link_lines_sound_and_complete(
    conns: Seq<(u128, Connection)>,
    nodes: Seq<Node>,
    sub: u128,
    env: Seq<char>,
    family: TagReq,
)
    requires
        nodes.len() <= usize::MAX,
        forall|j: int| 0 <= j < nodes.len() ==> (#[trigger] nodes[j]).inbounds@.len() <= usize::MAX,
    ensures
        forall|k: int| 0 <= k < link_targets(conns, conns.len() as int, nodes, sub, env, spec_tags_for(family)).len()
            ==> line_from_store(conns, conns.len() as int, nodes, sub, env, spec_tags_for(family),
            #[trigger] link_targets(conns, conns.len() as int, nodes, sub, env, spec_tags_for(family))[k]),
        forall|q: int, j: int, i: int|
            0 <= q < conns.len() && 0 <= j < nodes.len() && 0 <= i < nodes[j].inbounds@.len()
                && (#[trigger] conns[q]).1.subscription_id == Some(sub) && !conns[q].1.is_deleted
                && conns[q].1.env@ == env && spec_tags_for(family).contains(proto_tag(conns[q].1.proto))
                && nodes[j].env@ == env && #[trigger] nodes[j].inbounds@[i].tag == proto_tag(conns[q].1.proto)
                ==> has_line_on(
                link_targets(conns, conns.len() as int, nodes, sub, env, spec_tags_for(family)),
                conns[q].0,
                j,
            ),
{
    lemma_link_targets_lines(conns, conns.len() as int, nodes, sub, env, spec_tags_for(family));
}

/// How a subscription link is written.
#[derive(Clone, Copy, Debug, PartialEq, Eq, Structural)]
pub enum LinkFormat {
    /// A Clash configuration in YAML.
    Clash,
    /// The connection links, one per line.
    Text,
    /// The connection links, one per line, encoded in base64.
    Base64,
}

/// The format named by the query: `clash`, `txt`, anything else base64.
pub fn link_format(name: &str) -> (r: LinkFormat)
    ensures
        name@ == "clash"@ ==> r == LinkFormat::Clash,
        name@ == "txt"@ ==> r == LinkFormat::Text,
        name@ != "clash"@ && name@ != "txt"@ ==> r == LinkFormat::Base64,
{
    proof {
        reveal_strlit("clash");
        reveal_strlit("txt");
        assert("clash"@.len() != "txt"@.len());
    }
    if str_eq(name, "clash") {
        LinkFormat::Clash
    } else if str_eq(name, "txt") {
        LinkFormat::Text
    } else {
        LinkFormat::Base64
    }
}

/// `parts` joined with `sep` between consecutive parts.
pub open spec fn joined(parts: Seq<Seq<char>>, sep: Seq<char>) -> Seq<char>
    decreases parts.len(),
{
    if parts.len() == 0 {
        Seq::empty()
    } else if parts.len() == 1 {
        parts[0]
    } else {
        joined(parts.drop_last(), sep) + sep + parts.last()
    }
}

/// The texts of a list of strings.
pub open spec fn texts(v: Seq<String>) -> Seq<Seq<char>> {
    v.map_values(|s: String| s@)
}

/// The lines joined with newlines, as `join("\n")` does.
pub fn join_lines(lines: &Vec<String>) -> (r: String)
    ensures
        r@ == joined(texts(lines@), "\n"@),
{
    let mut out = String::new();
    let mut i: usize = 0;
    while i < lines.len()
        invariant
            i <= lines@.len(),
            out@ == joined(texts(lines@.take(i as int)), "\n"@),
        decreases lines@.len() - i,
    {
        proof {
            assert(texts(lines@.take(i + 1)).drop_last() =~= texts(lines@.take(i as int)));
        }
        if i > 0 {
            out.append("\n");
        }
        out.append(lines[i].as_str());
        proof {
            if i == 0 {
                assert(texts(lines@.take(1)) =~= seq![lines@[0]@]);
            }
        }
        i = i + 1;
    }
    assert(lines@.take(lines@.len() as int) =~= lines@);
    out
}

/// The body of a plain-text subscription: the links one per line, in base64
/// (with a trailing newline) or as they are.
pub fn subscription_body(format: LinkFormat, links: &Vec<String>) -> (r: String)
    requires
        format != LinkFormat::Clash,
    ensures
        format == LinkFormat::Text ==> r@ == joined(texts(links@), "\n"@),
        format == LinkFormat::Base64 ==> r@ == base64_standard(joined(texts(links@), "\n"@)) + "\n"@,
{
    let text = join_lines(links);
    if format == LinkFormat::Text {
        return text;
    }
    let mut encoded = base64_encode(text.as_str());
    encoded.append("\n");
    encoded
}

/// What a subscription offers in one environment.
#[derive(Debug)]
pub struct EnvInfo {
    pub env: String,
    pub has_xray: bool,
    pub has_hysteria: bool,
}

/// Connection `c` is a live connection of subscription `sub`.
pub open spec fn live_of(c: Connection, sub: u128) -> bool {
    c.subscription_id == Some(sub) && !c.is_deleted
}

/// The environments of the live connections of `sub` among the first `m`
/// entries, each once, in order of first appearance.
pub open spec fn sub_envs(conns: Seq<(u128, Connection)>, m: int, sub: u128) -> Seq<Seq<char>>
    decreases m,
{
    if m <= 0 {
        Seq::empty()
    } else {
        let rest = sub_envs(conns, m - 1, sub);
        let c = conns[m - 1].1;
        if live_of(c, sub) && !rest.contains(c.env@) {
            rest.push(c.env@)
        } else {
            rest
        }
    }
}

/// Among the first `m` entries, subscription `sub` has a connection in
/// environment `env` that is not deleted.
pub open spec fn has_live_in_env(conns: Seq<(u128, Connection)>, m: int, sub: u128, env: Seq<char>) -> bool {
    exists|j: int|
        0 <= j < m && conns[j].1.subscription_id == Some(sub) && !conns[j].1.is_deleted && conns[j].1.env@ == env
}

/// The environments listed for subscription `sub` among the first `m`
/// entries are exactly those of its connections there that are not deleted,
/// each once.
pub proof fn lemma_sub_envs_are_live(conns: Seq<(u128, Connection)>, m: int, sub: u128)
    requires
        0 <= m <= conns.len(),
    ensures
        forall|i: int|
            0 <= i < sub_envs(conns, m, sub).len() ==> has_live_in_env(conns, m, sub, #[trigger] sub_envs(conns, m, sub)[i]),
        forall|j: int|
            0 <= j < m && conns[j].1.subscription_id == Some(sub) && !conns[j].1.is_deleted ==> sub_envs(
                conns,
                m,
                sub,
            ).contains(#[trigger] conns[j].1.env@),
        sub_envs(conns, m, sub).no_duplicates(),
    decreases m,
{
    if m > 0 {
        lemma_sub_envs_are_live(conns, m - 1, sub);
        let rest = sub_envs(conns, m - 1, sub);
        let c = conns[m - 1].1;
        let cur = sub_envs(conns, m, sub);
        assert forall|i: int| 0 <= i < cur.len() implies has_live_in_env(conns, m, sub, #[trigger] cur[i]) by {
            if i < rest.len() {
                assert(cur[i] == rest[i]);
                assert(has_live_in_env(conns, m - 1, sub, rest[i]));
                let j = choose|j: int|
                    0 <= j < m - 1 && conns[j].1.subscription_id == Some(sub) && !conns[j].1.is_deleted
                        && conns[j].1.env@ == rest[i];
                assert(0 <= j < m && conns[j].1.subscription_id == Some(sub) && !conns[j].1.is_deleted
                    && conns[j].1.env@ == cur[i]);
            } else {
                assert(live_of(c, sub) && !rest.contains(c.env@));
                assert(cur == rest.push(c.env@));
                let j = m - 1;
                assert(0 <= j < m && conns[j].1.subscription_id == Some(sub) && !conns[j].1.is_deleted
                    && conns[j].1.env@ == cur[i]);
            }
        }
        assert forall|j: int|
            0 <= j < m && conns[j].1.subscription_id == Some(sub) && !conns[j].1.is_deleted implies cur.contains(
            #[trigger] conns[j].1.env@) by {
            if j < m - 1 {
                assert(rest.contains(conns[j].1.env@));
                let k = choose|k: int| 0 <= k < rest.len() && rest[k] == conns[j].1.env@;
                assert(cur[k] == rest[k]);
            } else {
                if rest.contains(c.env@) {
                    let k = choose|k: int| 0 <= k < rest.len() && rest[k] == c.env@;
                    assert(cur[k] == rest[k]);
                } else {
                    assert(cur[rest.len() as int] == c.env@);
                }
            }
        }
        assert forall|a: int, b: int| 0 <= a < cur.len() && 0 <= b < cur.len() && a != b implies cur[a] != cur[b] by {
            if a < rest.len() && b < rest.len() {
                assert(cur[a] == rest[a] && cur[b] == rest[b]);
            } else if a == rest.len() {
                assert(cur[b] == rest[b]);
                assert(!rest.contains(c.env@));
            } else {
                assert(cur[a] == rest[a]);
                assert(!rest.contains(c.env@));
            }
        }
    }
}

/// Some node of environment `env` has an inbound whose tag is a Reality tag
/// (with `reality`) or Hysteria2 (without).
pub open spec fn env_serves(nodes: Seq<Node>, env: Seq<char>, reality: bool) -> bool {
    exists|n: int, k: int|
        0 <= n < nodes.len() && nodes[n].env@ == env && 0 <= k < nodes[n].inbounds@.len() && (if reality {
            is_reality(nodes[n].inbounds@[k].tag)
        } else {
            nodes[n].inbounds@[k].tag == ProtoTag::Hysteria2
        })
}

/// Some live connection of `sub` in `env` has a Reality tag (with `reality`)
/// or the Hysteria2 tag (without).
pub open spec fn env_has_conn(conns: Seq<(u128, Connection)>, sub: u128, env: Seq<char>, reality: bool) -> bool {
    exists|i: int|
        0 <= i < conns.len() && live_of(conns[i].1, sub) && conns[i].1.env@ == env && (if reality {
            is_reality(proto_tag(conns[i].1.proto))
        } else {
            proto_tag(conns[i].1.proto) == ProtoTag::Hysteria2
        })
}

fn serves(nodes: &Vec<Node>, env: &str, reality: bool) -> (r: bool)
    ensures
        r == env_serves(nodes@, env@, reality),
{
    let mut n: usize = 0;
    while n < nodes.len()
        invariant
            n <= nodes@.len(),
            forall|a: int, k: int|
                0 <= a < n && nodes@[a].env@ == env@ && 0 <= k < nodes@[a].inbounds@.len() ==> !(if reality {
                    is_reality(nodes@[a].inbounds@[k].tag)
                } else {
                    nodes@[a].inbounds@[k].tag == ProtoTag::Hysteria2
                }),
        decreases nodes@.len() - n,
    {
        if str_eq(nodes[n].env.as_str(), env) {
            let ins = &nodes[n].inbounds;
            let mut k: usize = 0;
            while k < ins.len()
                invariant
                    n < nodes@.len(),
                    *ins == nodes@[n as int].inbounds,
                    nodes@[n as int].env@ == env@,
                    k <= ins@.len(),
                    forall|q: int| 0 <= q < k ==> !(if reality {
                        is_reality(ins@[q].tag)
                    } else {
                        ins@[q].tag == ProtoTag::Hysteria2
                    }),
                decreases ins@.len() - k,
            {
                let t = ins[k].tag;
                let hit = if reality { t.is_reality() } else { t == ProtoTag::Hysteria2 };
                if hit {
                    assert(0 <= n < nodes@.len() && nodes@[n as int].env@ == env@ && 0 <= k < nodes@[n as int].inbounds@.len());
                    return true;
                }
                k = k + 1;
            }
        }
        n = n + 1;
    }
    false
}

fn has_conn(store: &ConnectionStore, sub: u128, env: &str, reality: bool) -> (r: bool)
    ensures
        r == env_has_conn(store@, sub, env@, reality),
{
    let mut i: usize = 0;
    while i < store.len()
        invariant
            i <= store@.len(),
            forall|q: int|
                0 <= q < i && live_of(store@[q].1, sub) && store@[q].1.env@ == env@ ==> !(if reality {
                    is_reality(proto_tag(store@[q].1.proto))
                } else {
                    proto_tag(store@[q].1.proto) == ProtoTag::Hysteria2
                }),
        decreases store@.len() - i,
    {
        let (_, c) = store.entry_at(i);
        if c.subscription_id == Some(sub) && !c.is_deleted && str_eq(c.env.as_str(), env) {
            let t = c.proto.proto();
            let hit = if reality { t.is_reality() } else { t == ProtoTag::Hysteria2 };
            if hit {
                return true;
            }
        }
        i = i + 1;
    }
    false
}

fn contains_text(v: &Vec<String>, s: &str) -> (r: bool)
    ensures
        r == texts(v@).contains(s@),
{
    let mut i: usize = 0;
    while i < v.len()
        invariant
            i <= v@.len(),
            forall|q: int| 0 <= q < i ==> v@[q]@ != s@,
        decreases v@.len() - i,
    {
        if str_eq(v[i].as_str(), s) {
            assert(texts(v@)[i as int] == s@);
            return true;
        }
        i = i + 1;
    }
    proof {
        if texts(v@).contains(s@) {
            let q = choose|q: int| 0 <= q < texts(v@).len() && texts(v@)[q] == s@;
            assert(v@[q]@ == s@);
        }
    }
    false
}

/// The locations of subscription `sub`: one entry per environment of its live
/// connections (in order of first appearance), telling whether a node there
/// serves a Reality inbound and the subscription has a Reality connection
/// there, and likewise for Hysteria2.
pub fn subscription_locations(store: &ConnectionStore, nodes: &Vec<Node>, sub: u128) -> (r: Vec<EnvInfo>)
    ensures
        forall|i: int|
            0 <= i < r@.len() ==> has_live_in_env(store@, store@.len() as int, sub, (#[trigger] r@[i]).env@),
        forall|j: int|
            0 <= j < store@.len() && store@[j].1.subscription_id == Some(sub) && !store@[j].1.is_deleted
                ==> exists|i: int| 0 <= i < r@.len() && (#[trigger] r@[i]).env@ == store@[j].1.env@,
        forall|a: int, b: int| 0 <= a < r@.len() && 0 <= b < r@.len() && a != b ==> r@[a].env@ != r@[b].env@,
        r@.len() == sub_envs(store@, store@.len() as int, sub).len(),
        forall|i: int|
            0 <= i < r@.len() ==> {
                let env = sub_envs(store@, store@.len() as int, sub)[i];
                &&& (#[trigger] r@[i]).env@ == env
                &&& r@[i].has_xray == (env_serves(nodes@, env, true) && env_has_conn(store@, sub, env, true))
                &&& r@[i].has_hysteria == (env_serves(nodes@, env, false) && env_has_conn(store@, sub, env, false))
            },
{
    proof {
        lemma_sub_envs_are_live(store@, store@.len() as int, sub);
    }
    let mut envs: Vec<String> = Vec::new();
    let mut i: usize = 0;
    while i < store.len()
        invariant
            i <= store@.len(),
            texts(envs@) == sub_envs(store@, i as int, sub),
        decreases store@.len() - i,
    {
        let (_, c) = store.entry_at(i);
        if c.subscription_id == Some(sub) && !c.is_deleted && !contains_text(&envs, c.env.as_str()) {
            envs.push(c.env.clone());
            proof {
                assert(texts(envs@) =~= sub_envs(store@, i as int, sub).push(c.env@));
            }
        }
        i = i + 1;
    }
    let mut out: Vec<EnvInfo> = Vec::new();
    let mut j: usize = 0;
    while j < envs.len()
        invariant
            j <= envs@.len(),
            texts(envs@) == sub_envs(store@, store@.len() as int, sub),
            out@.len() == j,
            forall|q: int|
                0 <= q < j ==> {
                    let env = sub_envs(store@, store@.len() as int, sub)[q];
                    &&& (#[trigger] out@[q]).env@ == env
                    &&& out@[q].has_xray == (env_serves(nodes@, env, true) && env_has_conn(store@, sub, env, true))
                    &&& out@[q].has_hysteria == (env_serves(nodes@, env, false) && env_has_conn(store@, sub, env, false))
                },
        decreases envs@.len() - j,
    {
        let env = envs[j].as_str();
        assert(texts(envs@)[j as int] == env@);
        let xray_node = serves(nodes, env, true);
        let hyst_node = serves(nodes, env, false);
        let has_xray = xray_node && has_conn(store, sub, env, true);
        let has_hysteria = hyst_node && has_conn(store, sub, env, false);
        out.push(EnvInfo { env: envs[j].clone(), has_xray, has_hysteria });
        j = j + 1;
    }
    proof {
        let envs_all = sub_envs(store@, store@.len() as int, sub);
        assert forall|q: int| 0 <= q < out@.len() implies has_live_in_env(store@, store@.len() as int, sub, (
        #[trigger] out@[q]).env@) by {
            assert(out@[q].env@ == envs_all[q]);
        }
        assert forall|j: int|
            0 <= j < store@.len() && store@[j].1.subscription_id == Some(sub) && !store@[j].1.is_deleted
                implies exists|i: int| 0 <= i < out@.len() && (#[trigger] out@[i]).env@ == store@[j].1.env@ by {
            assert(envs_all.contains(store@[j].1.env@));
            let k = choose|k: int| 0 <= k < envs_all.len() && envs_all[k] == store@[j].1.env@;
            assert(out@[k].env@ == envs_all[k]);
        }
        assert forall|a: int, b: int| 0 <= a < out@.len() && 0 <= b < out@.len() && a != b implies out@[a].env@
            != out@[b].env@ by {
            assert(out@[a].env@ == envs_all[a]);
            assert(out@[b].env@ == envs_all[b]);
        }
    }
    out
}

/// What the service tells about a subscription: its id, end (UNIX seconds,
/// 0 when it has none), whole days left (0 when it has no end), its referral
/// code, how many subscriptions that code brought, and its locations.
#[derive(Debug)]
pub struct SubscriptionResponse {
    pub id: u128,
    pub expires: i64,
    pub days: i64,
    pub ref_code: String,
    pub invited_count: usize,
    pub locations: Vec<EnvInfo>,
}

/// The description of subscription `sub` at `now`; `None` when it is not stored.
pub fn subscription_info(
    subs: &SubscriptionStore,
    store: &ConnectionStore,
    nodes: &Vec<Node>,
    sub: u128,
    now: i64,
) -> (r: Option<SubscriptionResponse>)
    ensures
        r is None <==> forall|j: int| 0 <= j < subs@.len() ==> subs@[j].id != sub,
        r matches Some(resp) ==> exists|j: int|
            0 <= j < subs@.len() && subs@[j].id == sub && {
                let s = subs@[j];
                &&& resp.id == sub
                &&& resp.expires == (match s.expires_at {
                    Some(t) => t,
                    None => 0,
                })
                &&& resp.days == (match spec_days_remaining(s, now) {
                    Some(d) => d,
                    None => 0,
                })
                &&& resp.ref_code == s.refer_code
                &&& resp.invited_count == invited_count(subs@, s.refer_code@)
            },
        r matches Some(resp) ==> {
            &&& resp.locations@.len() == sub_envs(store@, store@.len() as int, sub).len()
            &&& forall|i: int|
                0 <= i < resp.locations@.len() ==> {
                    let env = sub_envs(store@, store@.len() as int, sub)[i];
                    &&& (#[trigger] resp.locations@[i]).env@ == env
                    &&& resp.locations@[i].has_xray == (env_serves(nodes@, env, true) && env_has_conn(
                        store@,
                        sub,
                        env,
                        true,
                    ))
                    &&& resp.locations@[i].has_hysteria == (env_serves(nodes@, env, false)
                        && env_has_conn(store@, sub, env, false))
                }
        },
{
    let j = match subs.find_by_id(sub) {
        None => return None,
        Some(j) => j,
    };
    let s = subs.at(j);
    let expires = match s.expires_at {
        Some(t) => t,
        None => 0,
    };
    let days = match s.days_remaining(now) {
        Some(d) => d,
        None => 0,
    };
    let invited = subs.count_invited_by(s.refer_code.as_str());
    let locations = subscription_locations(store, nodes, sub);
    Some(
        SubscriptionResponse {
            id: sub,
            expires,
            days,
            ref_code: s.refer_code.clone(),
            invited_count: invited,
            locations,
        },
    )
}

/// The text a link request is refused with, naming the subscription.
pub open spec fn spec_link_error_message(e: LinkError, sub: u128) -> Seq<char> {
    match e {
        LinkError::Expired => "Subscription "@ + uuid_text(sub) + "  are expired"@,
        LinkError::NoTargets => "Nodes for subscription "@ + uuid_text(sub) + "  are not found"@,
    }
}

impl LinkError {
    /// The HTTP status a refused link request is answered with: not found.
    pub fn status(&self) -> (r: u16)
        ensures
            r == 404,
    {
        404
    }

    /// The text a refused link request for subscription `sub` is answered with.
    pub fn message(&self, sub: u128) -> (r: String)
        ensures
            r@ == spec_link_error_message(*self, sub),
    {
        let id = uuid_string(sub);
        match self {
            LinkError::Expired => {
                let mut m = owned("Subscription ");
                m.append(id.as_str());
                m.append("  are expired");
                m
            },
            LinkError::NoTargets => {
                let mut m = owned("Nodes for subscription ");
                m.append(id.as_str());
                m.append("  are not found");
                m
            },
        }
    }
}

/// The content type of a subscription link body of format `f`.
pub open spec fn spec_link_content_type(f: LinkFormat) -> Seq<char> {
    match f {
        LinkFormat::Clash => "application/yaml"@,
        _ => "text/plain"@,
    }
}

/// How a subscription link request is answered once its targets are known:
/// a refusal is answered with its status (404) and text; otherwise with 200
/// and the content type of the format (`application/yaml` for Clash,
/// `text/plain` otherwise).
pub fn link_reply_head(sub: u128, targets: &Result<Vec<LinkTarget>, LinkError>, format: LinkFormat) -> (r: (u16, String))
    ensures
        targets matches Err(e) ==> r.0 == 404 && r.1@ == spec_link_error_message(*e, sub),
        targets is Ok ==> r.0 == 200 && r.1@ == spec_link_content_type(format),
{
    match targets {
        Err(e) => (e.status(), e.message(sub)),
        Ok(_) => match format {
            LinkFormat::Clash => (200, owned("application/yaml")),
            _ => (200, owned("text/plain")),
        },
    }
}

/// The environment a request for a subscription's connections concerns: the
/// one given, else `dev`.
pub open spec fn spec_requested_env(env: Option<String>) -> Seq<char> {
    match env {
        Some(e) => e@,
        None => "dev"@,
    }
}

/// The connections of subscription `sub` in the requested environment (`dev`
/// when none is given) that are not deleted, in table order; refused with
/// 404 "Subscription <id>  is not found" when the subscription is not stored,
/// and with 404 "Connections <id>  are not found" when there are none.
pub fn subscription_connections(subs: &SubscriptionStore, store: &ConnectionStore, sub: u128, env: &Option<String>) -> (r:
    Result<Vec<u128>, (u16, String)>)
    ensures
        (forall|j: int| 0 <= j < subs@.len() ==> subs@[j].id != sub) ==> (r matches Err((s, m)) && s == 404
            && m@ == "Subscription "@ + uuid_text(sub) + "  is not found"@),
        (exists|j: int| 0 <= j < subs@.len() && subs@[j].id == sub) ==> {
            let ids = select_ids(store@, env_filter(sub, spec_requested_env(*env)));
            &&& ids.len() == 0 ==> (r matches Err((s, m)) && s == 404 && m@ == "Connections "@ + uuid_text(sub)
                + "  are not found"@)
            &&& ids.len() > 0 ==> (r matches Ok(v) && v@ == ids)
        },
{
    if subs.find_by_id(sub).is_none() {
        let mut m = owned("Subscription ");
        let id = uuid_string(sub);
        m.append(id.as_str());
        m.append("  is not found");
        return Err((404, m));
    }
    let e = match env {
        Some(e) => e.clone(),
        None => owned("dev"),
    };
    let ids = store.subscription_env_ids(sub, e.as_str());
    if ids.len() == 0 {
        let mut m = owned("Connections ");
        let id = uuid_string(sub);
        m.append(id.as_str());
        m.append("  are not found");
        return Err((404, m));
    }
    Ok(ids)
}

} // verus!
