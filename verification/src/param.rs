//! Query parameters of the API's HTTP routes, with the defaults of those the
//! caller may leave out.
use vstd::prelude::*;
use crate::tag::{ProtoTag, TagReq};
use crate::text::owned;

verus! {

/// The subscription link format when none is asked for.
pub fn default_format() -> (r: String)
    ensures
        r@ == "plain"@,
{
    owned("plain")
}

/// The environment of a subscription link when none is asked for.
pub fn default_env() -> (r: String)
    ensures
        r@ == "dev"@,
{
    owned("dev")
}

/// A subscription, in an environment when one is given.
#[derive(Debug)]
pub struct SubIdQueryParam {
    pub id: u128,
    pub env: Option<String>,
}

/// A subscription link request: the subscription, the link format, the
/// environment and the protocol family.
#[derive(Debug)]
pub struct SubQueryParam {
    pub id: u128,
    pub format: String,
    pub env: String,
    pub proto: TagReq,
}

/// A node by id.
#[derive(Debug)]
pub struct NodeIdParam {
    pub id: u128,
}

/// A connection by id.
#[derive(Debug)]
pub struct ConnQueryParam {
    pub id: u128,
}

/// What an agent asks for when it fetches connections: one protocol, those
/// modified since `last_update` when given, of an environment when given; the
/// bus topic it listens on.
#[derive(Debug)]
pub struct ConnTypeParam {
    pub proto: ProtoTag,
    pub last_update: Option<u64>,
    pub env: Option<String>,
    pub topic: String,
}

/// An activation key code to check.
#[derive(Debug)]
pub struct KeyQueryParams {
    pub key: String,
}

} // verus!
