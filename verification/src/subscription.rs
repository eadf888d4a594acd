//! Subscriptions: paid or trial periods that own connections, with referral codes.
use vstd::prelude::*;
use crate::store::OperationStatus;
use crate::text::{owned, str_eq};
use crate::codec::{uuid_string, uuid_text};

verus! {

/// Seconds in a day.
pub const DAY_SECS: i64 = 86400;

/// A subscription. `expires_at` is in UNIX seconds; `None` means no end.
#[derive(Debug)]
pub struct Subscription {
    pub id: u128,
    pub expires_at: Option<i64>,
    pub referred_by: Option<String>,
    pub refer_code: String,
}

/// Active at `now`: without an end, or ending after `now`.
pub open spec fn active_at(s: Subscription, now: i64) -> bool {
    match s.expires_at {
        None => true,
        Some(t) => t > now,
    }
}

/// Whole days left at `now` (negative once expired), counted as
/// `chrono::Duration::num_days` counts them: truncated toward zero.
pub open spec fn spec_days_remaining(s: Subscription, now: i64) -> Option<int> {
    match s.expires_at {
        None => None,
        Some(t) => {
            let d = t - now;
            Some(if d >= 0 { d / 86400 } else { -((-d) / 86400) })
        },
    }
}

impl Subscription {
    pub fn new(id: u128, referred_by: Option<String>, refer_code: String, expires_at: Option<i64>) -> (r: Subscription)
        ensures
            r.id == id,
            r.referred_by == referred_by,
            r.refer_code == refer_code,
            r.expires_at == expires_at,
    {
        Subscription { id, expires_at, referred_by, refer_code }
    }

    /// Whether the subscription is active at `now`.
    pub fn is_active(&self, now: i64) -> (r: bool)
        ensures
            r == active_at(*self, now),
    {
        match self.expires_at {
            None => true,
            Some(t) => t > now,
        }
    }

    /// Whole days left at `now`; `None` for a subscription without end.
    pub fn days_remaining(&self, now: i64) -> (r: Option<i64>)
        ensures
            match r {
                Some(d) => spec_days_remaining(*self, now) == Some(d as int),
                None => spec_days_remaining(*self, now) is None,
            },
    {
        match self.expires_at {
            None => None,
            Some(t) => {
                let d: i128 = t as i128 - now as i128;
                let days: i128 = if d >= 0 { d / 86400 } else { -((-d) / 86400) };
                assert(-0x1_0000_0000_0000_0000int < d < 0x1_0000_0000_0000_0000int);
                Some(days as i64)
            },
        }
    }
}

/// No two subscriptions share an id.
pub open spec fn sub_ids_unique(s: Seq<Subscription>) -> bool {
    forall|i: int, j: int| 0 <= i < s.len() && 0 <= j < s.len() && i != j ==> s[i].id != s[j].id
}

/// Number of subscriptions among `s` referred by the code `code`.
pub open spec fn invited_count(s: Seq<Subscription>, code: Seq<char>) -> nat
    decreases s.len(),
{
    if s.len() == 0 {
        0
    } else {
        invited_count(s.drop_last(), code) + if s.last().referred_by matches Some(r) && r@
            == code {
            1nat
        } else {
            0nat
        }
    }
}

/// The ids among `s` of subscriptions whose activity at `now` is `active`.
pub open spec fn ids_by_activity(s: Seq<Subscription>, now: i64, active: bool) -> Seq<u128>
    decreases s.len(),
{
    if s.len() == 0 {
        Seq::empty()
    } else {
        let rest = ids_by_activity(s.drop_last(), now, active);
        if active_at(s.last(), now) == active {
            rest.push(s.last().id)
        } else {
            rest
        }
    }
}

/// Subscriptions by id.
pub struct SubscriptionStore {
    subs: Vec<Subscription>,
}

impl View for SubscriptionStore {
    type V = Seq<Subscription>;

    closed spec fn view(&self) -> Seq<Subscription> {
        self.subs@
    }
}

impl SubscriptionStore {
    /// Ids are pairwise distinct.
    pub open spec fn well_formed(&self) -> bool {
        sub_ids_unique(self@)
    }

    /// An empty store.
    pub fn new() -> (r: SubscriptionStore)
        ensures
            r@ == Seq::<Subscription>::empty(),
            r.well_formed(),
    {
        SubscriptionStore { subs: Vec::new() }
    }

    pub fn len(&self) -> (r: usize)
        ensures
            r == self@.len(),
    {
        self.subs.len()
    }

    /// The subscription at position `i`.
    pub fn at(&self, i: usize) -> (r: &Subscription)
        requires
            i < self@.len(),
        ensures
            *r == self@[i as int],
    {
        &self.subs[i]
    }

    /// The position of the subscription with id `id`.
    pub fn find_by_id(&self, id: u128) -> (r: Option<usize>)
        ensures
            match r {
                Some(i) => i < self@.len() && self@[i as int].id == id,
                None => forall|j: int| 0 <= j < self@.len() ==> self@[j].id != id,
            },
    {
        let mut i: usize = 0;
        while i < self.subs.len()
            invariant
                i <= self.subs@.len(),
                forall|j: int| 0 <= j < i ==> self.subs@[j].id != id,
            decreases self.subs@.len() - i,
        {
            if self.subs[i].id == id {
                return Some(i);
            }
            i = i + 1;
        }
        None
    }

    /// The position of the first subscription whose own referral code is `code`.
    pub fn find_by_refer_code(&self, code: &str) -> (r: Option<usize>)
        ensures
            match r {
                Some(i) => i < self@.len() && self@[i as int].refer_code@ == code@ && forall|j: int|
                    0 <= j < i ==> self@[j].refer_code@ != code@,
                None => forall|j: int| 0 <= j < self@.len() ==> self@[j].refer_code@ != code@,
            },
    {
        let mut i: usize = 0;
        while i < self.subs.len()
            invariant
                i <= self.subs@.len(),
                forall|j: int| 0 <= j < i ==> self.subs@[j].refer_code@ != code@,
            decreases self.subs@.len() - i,
        {
            if str_eq(self.subs[i].refer_code.as_str(), code) {
                return Some(i);
            }
            i = i + 1;
        }
        None
    }

    /// How many subscriptions were referred by the code `code`.
    pub fn count_invited_by(&self, code: &str) -> (r: usize)
        ensures
            r == invited_count(self@, code@),
    {
        let mut n: usize = 0;
        let mut i: usize = 0;
        while i < self.subs.len()
            invariant
                i <= self.subs@.len(),
                n == invited_count(self.subs@.take(i as int), code@),
                n <= i,
            decreases self.subs@.len() - i,
        {
            assert(self.subs@.take(i + 1).drop_last() =~= self.subs@.take(i as int));
            let hit = match &self.subs[i].referred_by {
                Some(r) => str_eq(r.as_str(), code),
                None => false,
            };
            if hit {
                n = n + 1;
            }
            i = i + 1;
        }
        assert(self.subs@.take(self.subs@.len() as int) =~= self.subs@);
        n
    }

    /// Ids of the subscriptions that are (or, with `active` false, are not)
    /// active at `now`, in store order.
    pub fn ids_by_activity(&self, now: i64, active: bool) -> (r: Vec<u128>)
        ensures
            r@ == ids_by_activity(self@, now, active),
    {
        let mut out: Vec<u128> = Vec::new();
        let mut i: usize = 0;
        while i < self.subs.len()
            invariant
                i <= self.subs@.len(),
                out@ == ids_by_activity(self.subs@.take(i as int), now, active),
            decreases self.subs@.len() - i,
        {
            assert(self.subs@.take(i + 1).drop_last() =~= self.subs@.take(i as int));
            if self.subs[i].is_active(now) == active {
                out.push(self.subs[i].id);
            }
            i = i + 1;
        }
        assert(self.subs@.take(self.subs@.len() as int) =~= self.subs@);
        out
    }

    /// Adds `sub` unless its id is taken, in which case nothing changes.
    pub fn add(&mut self, sub: Subscription) -> (r: OperationStatus)
        requires
            old(self).well_formed(),
        ensures
            final(self).well_formed(),
            (exists|j: int| 0 <= j < old(self)@.len() && old(self)@[j].id == sub.id) ==> (r
                == OperationStatus::AlreadyExist(sub.id) && final(self)@ == old(self)@),
            (forall|j: int| 0 <= j < old(self)@.len() ==> old(self)@[j].id != sub.id) ==> (r
                == OperationStatus::Success(sub.id) && final(self)@ == old(self)@.push(sub)),
    {
        let id = sub.id;
        if self.find_by_id(id).is_some() {
            return OperationStatus::AlreadyExist(id);
        }
        self.subs.push(sub);
        OperationStatus::Success(id)
    }
}

/// Why a new subscription is refused.
#[derive(Clone, Copy, Debug, PartialEq, Eq, Structural)]
pub enum ReferralError {
    /// The referral code names no subscription.
    UnknownCode,
}

/// Days a referral earns the new subscription, unless the code is a promo code.
pub const REFERRAL_BONUS_DAYS: i64 = 7;

/// Whether `codes` holds `code`.
pub fn code_listed(codes: &Vec<String>, code: &str) -> (r: bool)
    ensures
        r == exists|i: int| 0 <= i < codes@.len() && codes@[i]@ == code@,
{
    let mut i: usize = 0;
    while i < codes.len()
        invariant
            i <= codes@.len(),
            forall|j: int| 0 <= j < i ==> codes@[j]@ != code@,
        decreases codes@.len() - i,
    {
        if str_eq(codes[i].as_str(), code) {
            return true;
        }
        i = i + 1;
    }
    false
}

/// The referral part of creating a subscription: with no referral code, no
/// referrer and no bonus; with a code, the first subscription whose own code it
/// is (an error when there is none) and 7 bonus days unless the code is one of
/// the promo codes.
pub fn referral(subs: &SubscriptionStore, referred_by: &Option<String>, promo_codes: &Vec<String>) -> (r: Result<(Option<u128>, i64), ReferralError>)
    ensures
        referred_by is None ==> r == Ok::<(Option<u128>, i64), ReferralError>((None, 0)),
        referred_by matches Some(code) ==> {
            &&& (forall|j: int| 0 <= j < subs@.len() ==> subs@[j].refer_code@ != code@) ==> r
                == Err::<(Option<u128>, i64), ReferralError>(ReferralError::UnknownCode)
            &&& (exists|j: int| 0 <= j < subs@.len() && subs@[j].refer_code@ == code@) ==> (r
                matches Ok((Some(id), bonus)) && (exists|j: int|
                0 <= j < subs@.len() && subs@[j].refer_code@ == code@ && subs@[j].id == id
                    && forall|k: int| 0 <= k < j ==> subs@[k].refer_code@ != code@) && bonus == (
            if exists|i: int| 0 <= i < promo_codes@.len() && promo_codes@[i]@ == code@ {
                0i64
            } else {
                7i64
            }))
        },
{
    match referred_by {
        None => Ok((None, 0)),
        Some(code) => {
            let is_promo = code_listed(promo_codes, code.as_str());
            match subs.find_by_refer_code(code.as_str()) {
                None => Err(ReferralError::UnknownCode),
                Some(i) => {
                    let bonus: i64 = if is_promo { 0 } else { REFERRAL_BONUS_DAYS };
                    Ok((Some(subs.at(i).id), bonus))
                },
            }
        },
    }
}

/// Largest number of days `chrono::Duration::days` accepts.
pub open spec fn max_duration_days() -> int {
    i64::MAX / 1000 / 86400
}

/// When a new subscription of `days` days (plus `bonus_days`) created at `now`
/// ends; no days asked means no end.
pub fn subscription_expiry(now: i64, days: Option<i64>, bonus_days: i64) -> (r: Option<i64>)
    requires
        days matches Some(d) ==> -max_duration_days() <= d + bonus_days <= max_duration_days()
            && i64::MIN <= now + (d + bonus_days) * 86400 <= i64::MAX,
    ensures
        days is None ==> r is None,
        days matches Some(d) ==> r == Some((now + (d + bonus_days) * 86400) as i64),
{
    match days {
        None => None,
        Some(d) => {
            let total: i64 = d + bonus_days;
            Some(now + total * DAY_SECS)
        },
    }
}

/// A subscription id is listed exactly when some subscription with that id
/// has the asked activity.
pub proof fn lemma_ids_by_activity_member(s: Seq<Subscription>, now: i64, active: bool, x: u128)
    ensures
        ids_by_activity(s, now, active).contains(x) <==> exists|j: int|
            0 <= j < s.len() && s[j].id == x && active_at(s[j], now) == active,
    decreases s.len(),
{
    if s.len() > 0 {
        let t = s.drop_last();
        lemma_ids_by_activity_member(t, now, active, x);
        let r = ids_by_activity(t, now, active);
        if ids_by_activity(s, now, active).contains(x) {
            if active_at(s.last(), now) == active && s.last().id == x {
                assert(s[s.len() - 1].id == x);
            } else {
                assert(r.contains(x)) by {
                    if active_at(s.last(), now) == active {
                        let k = choose|k: int| 0 <= k < r.push(s.last().id).len() && r.push(s.last().id)[k] == x;
                        assert(k < r.len());
                        assert(r[k] == x);
                    }
                }
                let j = choose|j: int| 0 <= j < t.len() && t[j].id == x && active_at(t[j], now) == active;
                assert(s[j] == t[j]);
            }
        }
        if exists|j: int| 0 <= j < s.len() && s[j].id == x && active_at(s[j], now) == active {
            let j = choose|j: int| 0 <= j < s.len() && s[j].id == x && active_at(s[j], now) == active;
            if j == s.len() - 1 {
                assert(ids_by_activity(s, now, active).last() == x);
            } else {
                assert(t[j] == s[j]);
                assert(r.contains(x));
                let k = choose|k: int| 0 <= k < r.len() && r[k] == x;
                if active_at(s.last(), now) == active {
                    assert(r.push(s.last().id)[k] == x);
                }
            }
        }
    }
}

/// At any moment every stored subscription is either active or expired, never
/// both: the task that removes the connections of expired subscriptions and
/// the task that restores those of active ones each see every subscription,
/// and never the same one.
pub proof fn lemma_activity_partition(s: Seq<Subscription>, now: i64)
    requires
        sub_ids_unique(s),
    ensures
        forall|j: int|
            0 <= j < s.len() ==> (ids_by_activity(s, now, true).contains(#[trigger] s[j].id)
                || ids_by_activity(s, now, false).contains(s[j].id)),
        forall|x: u128|
            !(#[trigger] ids_by_activity(s, now, true).contains(x) && ids_by_activity(s, now, false).contains(x)),
{
    assert forall|j: int| 0 <= j < s.len() implies (ids_by_activity(s, now, true).contains(#[trigger] s[j].id)
        || ids_by_activity(s, now, false).contains(s[j].id)) by {
        lemma_ids_by_activity_member(s, now, active_at(s[j], now), s[j].id);
    }
    assert forall|x: u128| !(#[trigger] ids_by_activity(s, now, true).contains(x) && ids_by_activity(s, now, false).contains(x)) by {
        lemma_ids_by_activity_member(s, now, true, x);
        lemma_ids_by_activity_member(s, now, false, x);
        if ids_by_activity(s, now, true).contains(x) && ids_by_activity(s, now, false).contains(x) {
            let a = choose|j: int| 0 <= j < s.len() && s[j].id == x && active_at(s[j], now) == true;
            let b = choose|j: int| 0 <= j < s.len() && s[j].id == x && active_at(s[j], now) == false;
            assert(a != b);
        }
    }
}

/// The days left count whole days of 86400 seconds between `now` and the
/// end, truncated toward zero: for an end `d` seconds away, `d` lies within one
/// day past `days * 86400` in the direction of its sign. A subscription that is
/// active at some time is active at every earlier time, and has no negative
/// count of days left.
pub proof fn lemma_days_and_activity(s: Subscription, now: i64, earlier: i64)
    ensures
        s.expires_at is None <==> spec_days_remaining(s, now) is None,
        s.expires_at matches Some(t) ==> (t - now >= 0 ==> 0 <= (t - now) - spec_days_remaining(s, now).unwrap()
            * 86400 < 86400),
        s.expires_at matches Some(t) ==> (t - now < 0 ==> -86400 < (t - now) - spec_days_remaining(s, now).unwrap()
            * 86400 <= 0),
        earlier <= now && active_at(s, now) ==> active_at(s, earlier),
        active_at(s, now) && s.expires_at is Some ==> spec_days_remaining(s, now).unwrap() >= 0,
        s.expires_at matches Some(t) ==> (active_at(s, now) <==> now < t),
{
    if s.expires_at is Some {
        let t = s.expires_at.unwrap();
        let d = t - now;
        if d >= 0 {
            assert(0 <= d - (d / 86400) * 86400 < 86400) by (nonlinear_arith)
                requires
                    d >= 0,
            ;
        } else {
            let e = -d;
            assert(0 <= e - (e / 86400) * 86400 < 86400) by (nonlinear_arith)
                requires
                    e > 0,
            ;
        }
    }
}

impl ReferralError {
    /// The HTTP status a refused subscription is answered with.
    pub fn status(&self) -> (r: u16)
        ensures
            r == 400,
    {
        400
    }

    /// The text a refused subscription is answered with.
    pub fn message(&self) -> (r: String)
        ensures
            r@ == "Refer code no found"@,
    {
        owned("Refer code no found")
    }
}

/// The referrer to credit, and with how many days: the subscription that the
/// referral code names gets the service's referral bonus `bonus` (the new
/// subscription's own bonus is in the referral result).
pub fn referrer_credit(referral: &Result<(Option<u128>, i64), ReferralError>, bonus: i64) -> (r: Option<(u128, i64)>)
    ensures
        referral matches Ok((Some(id), _)) ==> r == Some((*id, bonus)),
        !(referral matches Ok((Some(_), _))) ==> r is None,
{
    match referral {
        Ok((Some(id), _)) => Some((*id, bonus)),
        _ => None,
    }
}

/// The answer when crediting the referrer failed with `e`.
pub fn credit_failed_reply(e: &str) -> (r: (u16, String))
    ensures
        r.0 == 500,
        r.1@ == "Couldn't create subscription: "@ + e@,
{
    let mut m = owned("Couldn't create subscription: ");
    m.append(e);
    (500, m)
}

/// The answer to creating subscription `sub_id`, from the store's result.
pub fn subscription_created_reply(sub_id: u128, added: &Result<OperationStatus, String>) -> (r: (u16, String))
    ensures
        added matches Ok(OperationStatus::Success(id)) ==> r.0 == 200 && r.1@ == "Subscription "@ + uuid_text(*id)
            + " has been created"@,
        added matches Ok(OperationStatus::AlreadyExist(id)) ==> r.0 == 304 && r.1@ == "Subscription "@ + uuid_text(*id)
            + " already exists"@,
        added matches Ok(OperationStatus::NotFound(id)) ==> r.0 == 404 && r.1@ == "Subscription "@ + uuid_text(*id)
            + " is not found"@,
        added matches Err(e) ==> r.0 == 500 && r.1@ == "Internal error while processing subscription "@
            + uuid_text(sub_id) + ": "@ + e@,
        added matches Ok(st) ==> (!(st is Success || st is AlreadyExist || st is NotFound) ==> r.0 == 304
            && r.1@.len() == 0),
{
    match added {
        Ok(OperationStatus::Success(id)) => (200, around("Subscription ", *id, " has been created")),
        Ok(OperationStatus::AlreadyExist(id)) => (304, around("Subscription ", *id, " already exists")),
        Ok(OperationStatus::NotFound(id)) => (404, around("Subscription ", *id, " is not found")),
        Err(e) => {
            let mut m = around("Internal error while processing subscription ", sub_id, ": ");
            m.append(e.as_str());
            (500, m)
        },
        Ok(_) => (304, String::new()),
    }
}

fn around(before: &str, id: u128, after: &str) -> (r: String)
    ensures
        r@ == before@ + uuid_text(id) + after@,
{
    let mut m = owned(before);
    let t = uuid_string(id);
    m.append(t.as_str());
    m.append(after);
    m
}

} // verus!
