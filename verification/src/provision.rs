//! Provisioning a user on the Xray inbounds of a node of the first
//! generation: which inbounds a user is added to or removed from, when an
//! addition is due, and the record of the protocols a user holds.
use vstd::prelude::*;
use crate::node::{Node, NodeStatus};
use crate::tag::{ProtoTag, tags_contain};
use crate::text::str_eq;

verus! {

/// The inbounds of a first-generation node.
#[derive(Clone, Copy, Debug, PartialEq, Eq, Structural)]
pub enum LegacyTag {
    Vmess,
    VlessXtls,
    VlessGrpc,
    Shadowsocks,
}

/// The inbounds a new user is added to, in order: VMess, VLESS with XTLS
/// (Vision flow), VLESS over gRPC, and Shadowsocks when the user has a password.
pub open spec fn spec_provisioning_order(has_password: bool) -> Seq<LegacyTag> {
    let base = seq![LegacyTag::Vmess, LegacyTag::VlessXtls, LegacyTag::VlessGrpc];
    if has_password {
        base.push(LegacyTag::Shadowsocks)
    } else {
        base
    }
}

/// The inbounds a new user is added to, in order.
pub fn provisioning_order(has_password: bool) -> (r: Vec<LegacyTag>)
    ensures
        r@ == spec_provisioning_order(has_password),
{
    let mut v: Vec<LegacyTag> = Vec::new();
    v.push(LegacyTag::Vmess);
    v.push(LegacyTag::VlessXtls);
    v.push(LegacyTag::VlessGrpc);
    if has_password {
        v.push(LegacyTag::Shadowsocks);
    }
    assert(v@ =~= spec_provisioning_order(has_password));
    v
}

/// The inbounds a user is removed from, in order: all four.
pub fn removal_order() -> (r: Vec<LegacyTag>)
    ensures
        r@ == spec_provisioning_order(true),
{
    provisioning_order(true)
}

/// A new user is added to VMess, VLESS XTLS and VLESS gRPC, in that order,
/// and to Shadowsocks last exactly when it has a password; each inbound at
/// most once. Removal goes through every inbound.
pub proof fn lemma_provisioning_orders(has_password: bool, t: LegacyTag)
    ensures
        spec_provisioning_order(has_password).contains(LegacyTag::Shadowsocks) <==> has_password,
        spec_provisioning_order(has_password).len() == if has_password { 4nat } else { 3nat },
        spec_provisioning_order(has_password)[0] == LegacyTag::Vmess,
        spec_provisioning_order(has_password)[1] == LegacyTag::VlessXtls,
        spec_provisioning_order(has_password)[2] == LegacyTag::VlessGrpc,
        spec_provisioning_order(has_password).no_duplicates(),
        spec_provisioning_order(true).contains(t),
{
    let o = spec_provisioning_order(has_password);
    if has_password {
        assert(o[3] == LegacyTag::Shadowsocks);
    } else {
        assert forall|i: int| 0 <= i < o.len() implies o[i] != LegacyTag::Shadowsocks by {}
    }
    let all = spec_provisioning_order(true);
    assert(all[0] == LegacyTag::Vmess && all[1] == LegacyTag::VlessXtls && all[2] == LegacyTag::VlessGrpc
        && all[3] == LegacyTag::Shadowsocks);
    match t {
        LegacyTag::Vmess => assert(all[0] == t),
        LegacyTag::VlessXtls => assert(all[1] == t),
        LegacyTag::VlessGrpc => assert(all[2] == t),
        LegacyTag::Shadowsocks => assert(all[3] == t),
    }
}

/// An addition is due when looking the user up on the inbound succeeded and
/// the answer lists a user without e-mail.
pub open spec fn spec_needs_adding(lookup: Option<Seq<Seq<char>>>) -> bool {
    match lookup {
        Some(emails) => emails.contains(Seq::<char>::empty()),
        None => false,
    }
}

/// The e-mails of a lookup answer.
pub open spec fn emails_of(lookup: Option<Vec<String>>) -> Option<Seq<Seq<char>>> {
    match lookup {
        Some(v) => Some(v@.map_values(|s: String| s@)),
        None => None,
    }
}

/// Whether a user must be added to an inbound, from the e-mails the inbound
/// answered the lookup with (`None` when the lookup failed).
pub fn needs_adding(lookup: &Option<Vec<String>>) -> (r: bool)
    ensures
        r == spec_needs_adding(emails_of(*lookup)),
{
    match lookup {
        None => false,
        Some(v) => {
            let ghost emails = v@.map_values(|s: String| s@);
            proof {
                assert(emails_of(*lookup) == Some(emails));
            }
            let mut i: usize = 0;
            while i < v.len()
                invariant
                    i <= v@.len(),
                    emails == v@.map_values(|s: String| s@),
                    emails_of(*lookup) == Some(emails),
                    forall|j: int| 0 <= j < i ==> emails[j] != Seq::<char>::empty(),
                decreases v@.len() - i,
            {
                if v[i].as_str().unicode_len() == 0 {
                    proof {
                        assert(emails[i as int] == v@[i as int]@);
                        assert(emails[i as int] =~= Seq::<char>::empty());
                        assert(emails.len() == v@.len());
                        assert(emails.contains(Seq::<char>::empty()));
                    }
                    return true;
                }
                i = i + 1;
            }
            false
        },
    }
}

/// The protocols a user holds: no protocol twice.
pub struct UserProtos {
    tags: Vec<LegacyTag>,
}

impl View for UserProtos {
    type V = Set<LegacyTag>;

    closed spec fn view(&self) -> Set<LegacyTag> {
        self.tags@.to_set()
    }
}

impl UserProtos {
    /// No protocol is recorded twice.
    pub closed spec fn well_formed(&self) -> bool {
        self.tags@.no_duplicates()
    }

    /// A user holding no protocol.
    pub fn new() -> (r: UserProtos)
        ensures
            r.well_formed(),
            r@ == Set::<LegacyTag>::empty(),
    {
        let r = UserProtos { tags: Vec::new() };
        assert(r.tags@.to_set() =~= Set::<LegacyTag>::empty());
        r
    }

    /// Whether the user holds `t`.
    pub fn holds(&self, t: LegacyTag) -> (r: bool)
        ensures
            r == self@.contains(t),
    {
        let mut i: usize = 0;
        while i < self.tags.len()
            invariant
                i <= self.tags@.len(),
                forall|j: int| 0 <= j < i ==> self.tags@[j] != t,
            decreases self.tags@.len() - i,
        {
            if self.tags[i] == t {
                assert(self.tags@.contains(t));
                return true;
            }
            i = i + 1;
        }
        false
    }

    /// Records that the user was added to inbound `t`.
    pub fn add_proto(&mut self, t: LegacyTag)
        requires
            old(self).well_formed(),
        ensures
            final(self).well_formed(),
            final(self)@ == old(self)@.insert(t),
    {
        if !self.holds(t) {
            let ghost before = self.tags@;
            self.tags.push(t);
            proof {
                assert(self.tags@ == before.push(t));
                before.lemma_push_to_set_commute(t);
                assert forall|a: int, b: int|
                    0 <= a < self.tags@.len() && 0 <= b < self.tags@.len() && a != b implies self.tags@[a]
                    != self.tags@[b] by {
                    if a == before.len() as int {
                        assert(before.contains(before[b]));
                    } else if b == before.len() as int {
                        assert(before.contains(before[a]));
                    }
                }
            }
        } else {
            assert(self@.insert(t) =~= self@);
        }
    }

    /// Records that the user was removed from inbound `t`.
    pub fn remove_proto(&mut self, t: LegacyTag)
        requires
            old(self).well_formed(),
        ensures
            final(self).well_formed(),
            final(self)@ == old(self)@.remove(t),
    {
        let ghost before = self.tags@;
        let mut kept: Vec<LegacyTag> = Vec::new();
        let mut i: usize = 0;
        while i < self.tags.len()
            invariant
                i <= self.tags@.len(),
                self.tags@ == before,
                before.no_duplicates(),
                kept@.no_duplicates(),
                forall|x: LegacyTag| kept@.contains(x) <==> (before.take(i as int).contains(x) && x != t),
            decreases self.tags@.len() - i,
        {
            let x = self.tags[i];
            proof {
                assert(before.take(i + 1) =~= before.take(i as int).push(x));
            }
            if x != t {
                proof {
                    assert(!before.take(i as int).contains(x)) by {
                        if before.take(i as int).contains(x) {
                            let k = choose|k: int| 0 <= k < i && before.take(i as int)[k] == x;
                            assert(before[k] == before[i as int]);
                        }
                    }
                    assert(!kept@.contains(x));
                }
                let ghost k0 = kept@;
                kept.push(x);
                proof {
                    assert(kept@ == k0.push(x));
                    assert forall|a: int, b: int|
                        0 <= a < kept@.len() && 0 <= b < kept@.len() && a != b implies kept@[a] != kept@[b] by {
                        if a == k0.len() as int {
                            assert(k0.contains(k0[b]));
                        } else if b == k0.len() as int {
                            assert(k0.contains(k0[a]));
                        }
                    }
                    assert forall|y: LegacyTag| kept@.contains(y) <==> (before.take(i + 1).contains(y) && y != t) by {
                        if y == x {
                            assert(kept@[k0.len() as int] == x);
                            assert(before.take(i + 1)[i as int] == x);
                        } else {
                            if kept@.contains(y) {
                                let q = choose|q: int| 0 <= q < kept@.len() && kept@[q] == y;
                                assert(k0[q] == y);
                            }
                            if k0.contains(y) {
                                let q = choose|q: int| 0 <= q < k0.len() && k0[q] == y;
                                assert(kept@[q] == y);
                            }
                            let t1 = before.take(i + 1);
                            if t1.contains(y) {
                                let q = choose|q: int| 0 <= q < t1.len() && t1[q] == y;
                                assert(before.take(i as int)[q] == y);
                            }
                        }
                    }
                }
            } else {
                proof {
                    assert forall|y: LegacyTag| kept@.contains(y) <==> (before.take(i + 1).contains(y) && y != t) by {
                        let t1 = before.take(i + 1);
                        if t1.contains(y) && y != t {
                            let q = choose|q: int| 0 <= q < t1.len() && t1[q] == y;
                            assert(before.take(i as int)[q] == y);
                        }
                    }
                }
            }
            i = i + 1;
        }
        proof {
            assert(before.take(before.len() as int) =~= before);
            assert(kept@.to_set() =~= before.to_set().remove(t));
        }
        self.tags = kept;
    }
}

/// Records the outcome of adding the user to inbound `t`: the protocol is
/// recorded only when the addition succeeded; a failure changes nothing.
pub fn record_addition(protos: &mut UserProtos, t: LegacyTag, added: bool)
    requires
        old(protos).well_formed(),
    ensures
        final(protos).well_formed(),
        final(protos)@ == if added {
            old(protos)@.insert(t)
        } else {
            old(protos)@
        },
{
    if added {
        protos.add_proto(t);
    }
}

/// Records the outcome of removing the user from inbound `t`: the protocol is
/// forgotten only when the removal succeeded.
pub fn record_removal(protos: &mut UserProtos, t: LegacyTag, removed: bool)
    requires
        old(protos).well_formed(),
    ensures
        final(protos).well_formed(),
        final(protos)@ == if removed {
            old(protos)@.remove(t)
        } else {
            old(protos)@
        },
{
    if removed {
        protos.remove_proto(t);
    }
}

/// Recording an addition and then a removal of the same inbound leaves the
/// user holding what it held before, when it did not hold that inbound.
pub proof fn lemma_add_then_remove(before: Set<LegacyTag>, t: LegacyTag)
    requires
        !before.contains(t),
    ensures
        before.insert(t).remove(t) == before,
{
    assert(before.insert(t).remove(t) =~= before);
}

/// Some online node of environment `env`, among the first `n` nodes, has an
/// inbound of tag `t`.
pub open spec fn offered_among(nodes: Seq<Node>, n: int, env: Seq<char>, t: ProtoTag) -> bool {
    exists|i: int, k: int|
        0 <= i < n && 0 <= k < nodes[i].inbounds@.len() && nodes[i].env@ == env && nodes[i].status
            == NodeStatus::Online && #[trigger] nodes[i].inbounds@[k].tag == t
}

/// Some node, among the first `n`, is in environment `env`.
pub open spec fn env_known_among(nodes: Seq<Node>, n: int, env: Seq<char>) -> bool {
    exists|i: int| 0 <= i < n && #[trigger] nodes[i].env@ == env
}

/// The protocols to create connections for so that a user of environment
/// `env` holds one of each protocol that an online node there serves: those
/// offered and not among `existing`, each once. `None` when no node is in
/// that environment.
pub fn missing_protocols(nodes: &Vec<Node>, env: &str, existing: &Vec<ProtoTag>) -> (r: Option<Vec<ProtoTag>>)
    ensures
        r is None <==> !env_known_among(nodes@, nodes@.len() as int, env@),
        r matches Some(v) ==> {
            &&& v@.no_duplicates()
            &&& forall|t: ProtoTag|
                v@.contains(t) <==> (offered_among(nodes@, nodes@.len() as int, env@, t) && !existing@.contains(t))
        },
{
    let mut out: Vec<ProtoTag> = Vec::new();
    let mut known = false;
    let mut i: usize = 0;
    while i < nodes.len()
        invariant
            i <= nodes@.len(),
            known == env_known_among(nodes@, i as int, env@),
            out@.no_duplicates(),
            forall|t: ProtoTag|
                out@.contains(t) <==> (offered_among(nodes@, i as int, env@, t) && !existing@.contains(t)),
        decreases nodes@.len() - i,
    {
        let node = &nodes[i];
        let in_env = str_eq(node.env.as_str(), env);
        proof {
            if in_env {
                assert(nodes@[i as int].env@ == env@);
            }
            assert(env_known_among(nodes@, i + 1, env@) == (known || in_env)) by {
                if env_known_among(nodes@, i + 1, env@) && !known {
                    let j = choose|j: int| 0 <= j < i + 1 && #[trigger] nodes@[j].env@ == env@;
                    assert(j == i);
                }
            }
        }
        known = known || in_env;
        if in_env && node.status == NodeStatus::Online {
            let mut k: usize = 0;
            while k < node.inbounds.len()
                invariant
                    i < nodes@.len(),
                    node == &nodes@[i as int],
                    node.env@ == env@,
                    node.status == NodeStatus::Online,
                    k <= node.inbounds@.len(),
                    out@.no_duplicates(),
                    forall|t: ProtoTag|
                        out@.contains(t) <==> ((offered_among(nodes@, i as int, env@, t) || exists|q: int|
                            0 <= q < k && #[trigger] node.inbounds@[q].tag == t) && !existing@.contains(t)),
                decreases node.inbounds@.len() - k,
            {
                let t = node.inbounds[k].tag;
                let ghost before_out = out@;
                if !tags_contain(existing, t) && !tags_contain(&out, t) {
                    let ghost o0 = out@;
                    out.push(t);
                    proof {
                        assert forall|a: int, b: int|
                            0 <= a < out@.len() && 0 <= b < out@.len() && a != b implies out@[a] != out@[b] by {
                            if a == o0.len() as int {
                                assert(o0.contains(o0[b]));
                            } else if b == o0.len() as int {
                                assert(o0.contains(o0[a]));
                            }
                        }
                        assert forall|x: ProtoTag| out@.contains(x) == o0.contains(x) || x == t by {
                            if out@.contains(x) && x != t {
                                let q = choose|q: int| 0 <= q < out@.len() && out@[q] == x;
                                assert(o0[q] == x);
                            }
                            if o0.contains(x) {
                                let q = choose|q: int| 0 <= q < o0.len() && o0[q] == x;
                                assert(out@[q] == x);
                            }
                            if x == t {
                                assert(out@[o0.len() as int] == t);
                            }
                        }
                    }
                }
                proof {
                    assert(node.inbounds@[k as int].tag == t);
                    assert forall|x: ProtoTag|
                        out@.contains(x) <==> ((offered_among(nodes@, i as int, env@, x) || exists|q: int|
                            0 <= q < k + 1 && #[trigger] node.inbounds@[q].tag == x) && !existing@.contains(x)) by {
                        if exists|q: int| 0 <= q < k + 1 && #[trigger] node.inbounds@[q].tag == x {
                            if !(exists|q: int| 0 <= q < k && #[trigger] node.inbounds@[q].tag == x) {
                                let q = choose|q: int| 0 <= q < k + 1 && #[trigger] node.inbounds@[q].tag == x;
                                assert(q == k);
                            }
                        }
                        if exists|q: int| 0 <= q < k && #[trigger] node.inbounds@[q].tag == x {
                            let q = choose|q: int| 0 <= q < k && #[trigger] node.inbounds@[q].tag == x;
                            assert(0 <= q < k + 1 && node.inbounds@[q].tag == x);
                        }
                        if out@.contains(x) && !before_out.contains(x) {
                            assert(x == t);
                        }
                        if before_out.contains(x) {
                            let q = choose|q: int| 0 <= q < before_out.len() && before_out[q] == x;
                            assert(out@.contains(x)) by {
                                if out@ != before_out {
                                    assert(out@[q] == x);
                                }
                            }
                        }
                    }
                }
                k = k + 1;
            }
            proof {
                assert forall|t: ProtoTag|
                    offered_among(nodes@, i + 1, env@, t) <==> (offered_among(nodes@, i as int, env@, t)
                        || exists|q: int| 0 <= q < node.inbounds@.len() && #[trigger] node.inbounds@[q].tag == t) by {
                    if offered_among(nodes@, i + 1, env@, t) && !offered_among(nodes@, i as int, env@, t) {
                        let (a, b) = choose|a: int, b: int|
                            0 <= a < i + 1 && 0 <= b < nodes@[a].inbounds@.len() && nodes@[a].env@ == env@
                                && nodes@[a].status == NodeStatus::Online && #[trigger] nodes@[a].inbounds@[b].tag == t;
                        assert(a == i);
                        assert(node.inbounds@[b].tag == t);
                    }
                    if exists|q: int| 0 <= q < node.inbounds@.len() && #[trigger] node.inbounds@[q].tag == t {
                        let q = choose|q: int| 0 <= q < node.inbounds@.len() && #[trigger] node.inbounds@[q].tag == t;
                        assert(nodes@[i as int].inbounds@[q].tag == t);
                    }
                }
            }
        } else {
            proof {
                assert forall|t: ProtoTag|
                    offered_among(nodes@, i + 1, env@, t) <==> offered_among(nodes@, i as int, env@, t) by {
                    if offered_among(nodes@, i + 1, env@, t) {
                        let (a, b) = choose|a: int, b: int|
                            0 <= a < i + 1 && 0 <= b < nodes@[a].inbounds@.len() && nodes@[a].env@ == env@
                                && nodes@[a].status == NodeStatus::Online && #[trigger] nodes@[a].inbounds@[b].tag == t;
                        assert(a != i);
                    }
                }
            }
        }
        i = i + 1;
    }
    if !known {
        return None;
    }
    Some(out)
}

} // verus!
