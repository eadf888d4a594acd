//! Protocol tags of inbounds and connections.
use vstd::prelude::*;

verus! {

/// Protocol of an inbound on a node, and of a connection.
#[derive(Clone, Copy, Debug, PartialEq, Eq, Hash, Structural)]
pub enum ProtoTag {
    VlessTcpReality,
    VlessGrpcReality,
    VlessXhttpReality,
    Vmess,
    Shadowsocks,
    Wireguard,
    Hysteria2,
    Mtproto,
}

/// Protocol family asked for by a subscription link request.
#[derive(Clone, Copy, Debug, PartialEq, Eq, Structural)]
pub enum TagReq {
    Xray,
    Wireguard,
    Hysteria2,
    Mtproto,
}

/// The Xray protocols that are served by an Xray core without extra settings.
pub open spec fn is_plain_xray(t: ProtoTag) -> bool {
    t == ProtoTag::VlessTcpReality || t == ProtoTag::VlessGrpcReality
        || t == ProtoTag::VlessXhttpReality || t == ProtoTag::Vmess
}

/// The VLESS Reality tags whose presence on a node makes a location offer Xray.
pub open spec fn is_reality(t: ProtoTag) -> bool {
    t == ProtoTag::VlessGrpcReality || t == ProtoTag::VlessTcpReality
        || t == ProtoTag::VlessXhttpReality
}

/// Tags that the agent fetches connections for after it registered:
/// Hysteria2 authenticates through an external provider, Mtproto has none.
pub open spec fn is_synced_by_agent(t: ProtoTag) -> bool {
    t != ProtoTag::Hysteria2 && t != ProtoTag::Mtproto
}

impl ProtoTag {
    pub fn is_wireguard(&self) -> (r: bool)
        ensures
            r == (*self == ProtoTag::Wireguard),
    {
        match self {
            ProtoTag::Wireguard => true,
            _ => false,
        }
    }

    pub fn is_shadowsocks(&self) -> (r: bool)
        ensures
            r == (*self == ProtoTag::Shadowsocks),
    {
        match self {
            ProtoTag::Shadowsocks => true,
            _ => false,
        }
    }

    pub fn is_hysteria2(&self) -> (r: bool)
        ensures
            r == (*self == ProtoTag::Hysteria2),
    {
        match self {
            ProtoTag::Hysteria2 => true,
            _ => false,
        }
    }

    pub fn is_mtproto(&self) -> (r: bool)
        ensures
            r == (*self == ProtoTag::Mtproto),
    {
        match self {
            ProtoTag::Mtproto => true,
            _ => false,
        }
    }

    /// One of VLESS TCP/gRPC/XHTTP Reality or VMess.
    pub fn is_plain_xray(&self) -> (r: bool)
        ensures
            r == is_plain_xray(*self),
    {
        match self {
            ProtoTag::VlessTcpReality | ProtoTag::VlessGrpcReality
            | ProtoTag::VlessXhttpReality | ProtoTag::Vmess => true,
            _ => false,
        }
    }

    /// One of the VLESS Reality tags.
    pub fn is_reality(&self) -> (r: bool)
        ensures
            r == is_reality(*self),
    {
        match self {
            ProtoTag::VlessTcpReality | ProtoTag::VlessGrpcReality
            | ProtoTag::VlessXhttpReality => true,
            _ => false,
        }
    }

    /// Whether the agent fetches connections of this tag from the API.
    pub fn is_synced_by_agent(&self) -> (r: bool)
        ensures
            r == is_synced_by_agent(*self),
    {
        match self {
            ProtoTag::Hysteria2 | ProtoTag::Mtproto => false,
            _ => true,
        }
    }
}

/// The tags a subscription link of the given family is built from.
pub open spec fn spec_tags_for(req: TagReq) -> Seq<ProtoTag> {
    match req {
        TagReq::Xray => seq![
            ProtoTag::VlessTcpReality,
            ProtoTag::VlessGrpcReality,
            ProtoTag::VlessXhttpReality,
            ProtoTag::Vmess,
            ProtoTag::Shadowsocks,
        ],
        TagReq::Wireguard => seq![ProtoTag::Wireguard],
        TagReq::Hysteria2 => seq![ProtoTag::Hysteria2],
        TagReq::Mtproto => seq![ProtoTag::Mtproto],
    }
}

impl TagReq {
    /// The tags a subscription link of this family is built from.
    pub fn tags(&self) -> (r: Vec<ProtoTag>)
        ensures
            r@ == spec_tags_for(*self),
    {
        let mut v: Vec<ProtoTag> = Vec::new();
        match self {
            TagReq::Xray => {
                v.push(ProtoTag::VlessTcpReality);
                v.push(ProtoTag::VlessGrpcReality);
                v.push(ProtoTag::VlessXhttpReality);
                v.push(ProtoTag::Vmess);
                v.push(ProtoTag::Shadowsocks);
            },
            TagReq::Wireguard => v.push(ProtoTag::Wireguard),
            TagReq::Hysteria2 => v.push(ProtoTag::Hysteria2),
            TagReq::Mtproto => v.push(ProtoTag::Mtproto),
        }
        v
    }
}

/// `default_proto` of the subscription query: the Xray family.
pub fn default_proto() -> (r: TagReq)
    ensures
        r == TagReq::Xray,
{
    TagReq::Xray
}

/// Whether `tags` holds `t`.
pub fn tags_contain(tags: &Vec<ProtoTag>, t: ProtoTag) -> (r: bool)
    ensures
        r == tags@.contains(t),
{
    let mut i: usize = 0;
    while i < tags.len()
        invariant
            i <= tags@.len(),
            forall|j: int| 0 <= j < i ==> tags@[j] != t,
        decreases tags@.len() - i,
    {
        if tags[i] == t {
            return true;
        }
        i = i + 1;
    }
    false
}

/// The Xray family of a subscription link holds exactly the VLESS Reality
/// tags, VMess and Shadowsocks; each other family holds its one protocol.
pub proof fn lemma_link_families(t: ProtoTag)
    ensures
        spec_tags_for(TagReq::Xray).contains(t) <==> (t == ProtoTag::VlessTcpReality || t
            == ProtoTag::VlessGrpcReality || t == ProtoTag::VlessXhttpReality || t == ProtoTag::Vmess || t
            == ProtoTag::Shadowsocks),
        spec_tags_for(TagReq::Wireguard).contains(t) <==> t == ProtoTag::Wireguard,
        spec_tags_for(TagReq::Hysteria2).contains(t) <==> t == ProtoTag::Hysteria2,
        spec_tags_for(TagReq::Mtproto).contains(t) <==> t == ProtoTag::Mtproto,
{
    let x = spec_tags_for(TagReq::Xray);
    assert(x[0] == ProtoTag::VlessTcpReality);
    assert(x[1] == ProtoTag::VlessGrpcReality);
    assert(x[2] == ProtoTag::VlessXhttpReality);
    assert(x[3] == ProtoTag::Vmess);
    assert(x[4] == ProtoTag::Shadowsocks);
    assert(spec_tags_for(TagReq::Wireguard)[0] == ProtoTag::Wireguard);
    assert(spec_tags_for(TagReq::Hysteria2)[0] == ProtoTag::Hysteria2);
    assert(spec_tags_for(TagReq::Mtproto)[0] == ProtoTag::Mtproto);
}

/// The VLESS Reality protocols are the TCP, gRPC and XHTTP ones; the plain
/// Xray protocols are those and VMess; every protocol but Hysteria2 and
/// Mtproto is fetched by the agent.
pub proof fn lemma_tag_groups(t: ProtoTag)
    ensures
        is_reality(t) <==> (t == ProtoTag::VlessTcpReality || t == ProtoTag::VlessGrpcReality || t
            == ProtoTag::VlessXhttpReality),
        is_plain_xray(t) <==> (is_reality(t) || t == ProtoTag::Vmess),
        !is_plain_xray(t) <==> (t == ProtoTag::Shadowsocks || t == ProtoTag::Wireguard || t == ProtoTag::Hysteria2
            || t == ProtoTag::Mtproto),
        is_synced_by_agent(t) <==> !(t == ProtoTag::Hysteria2 || t == ProtoTag::Mtproto),
{
}

} // verus!
