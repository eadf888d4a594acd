use fcore::store::OperationStatus;
use fcore::subscription::{code_listed, credit_failed_reply, referrer_credit, subscription_created_reply, referral, subscription_expiry, ReferralError, Subscription, SubscriptionStore};

fn store() -> SubscriptionStore {
    let mut s = SubscriptionStore::new();
    s.add(Subscription::new(1, None, "AAA".into(), Some(1_000)));
    s.add(Subscription::new(2, Some("AAA".into()), "BBB".into(), None));
    s.add(Subscription::new(3, Some("AAA".into()), "CCC".into(), Some(50)));
    s
}

#[test]
fn activity_depends_on_the_end_date() {
    let s = Subscription::new(1, None, "x".into(), Some(100));
    assert!(s.is_active(99));
    assert!(!s.is_active(100));
    assert!(Subscription::new(2, None, "y".into(), None).is_active(i64::MAX));
}

#[test]
fn remaining_days_truncate_toward_zero() {
    let s = Subscription::new(1, None, "x".into(), Some(10 * 86_400));
    assert_eq!(s.days_remaining(0), Some(10));
    assert_eq!(s.days_remaining(86_400 + 1), Some(8));
    assert_eq!(s.days_remaining(10 * 86_400 + 86_399), Some(0));
    assert_eq!(s.days_remaining(12 * 86_400), Some(-2));
    assert_eq!(Subscription::new(1, None, "x".into(), None).days_remaining(0), None);
}

#[test]
fn store_finds_by_id_and_code() {
    let s = store();
    assert_eq!(s.len(), 3);
    assert_eq!(s.find_by_id(2), Some(1));
    assert_eq!(s.find_by_id(9), None);
    assert_eq!(s.find_by_refer_code("CCC"), Some(2));
    assert_eq!(s.find_by_refer_code("ZZZ"), None);
    assert_eq!(s.count_invited_by("AAA"), 2);
    assert_eq!(s.count_invited_by("BBB"), 0);
    assert_eq!(s.at(0).refer_code, "AAA");
}

#[test]
fn adding_an_existing_id_is_refused() {
    let mut s = store();
    assert!(matches!(s.add(Subscription::new(2, None, "DDD".into(), None)), OperationStatus::AlreadyExist(2)));
    assert_eq!(s.len(), 3);
    assert!(matches!(s.add(Subscription::new(4, None, "DDD".into(), None)), OperationStatus::Success(4)));
}

#[test]
fn every_subscription_is_either_active_or_expired() {
    let s = store();
    let active = s.ids_by_activity(100, true);
    let expired = s.ids_by_activity(100, false);
    assert_eq!(active, vec![1, 2]);
    assert_eq!(expired, vec![3]);
    for id in [1u128, 2, 3] {
        assert!(active.contains(&id) != expired.contains(&id));
    }
}

#[test]
fn referral_gives_bonus_unless_promo() {
    let s = store();
    let promo = vec!["CCC".to_string()];
    assert_eq!(referral(&s, &None, &promo), Ok((None, 0)));
    assert_eq!(referral(&s, &Some("AAA".into()), &promo), Ok((Some(1), 7)));
    assert_eq!(referral(&s, &Some("CCC".into()), &promo), Ok((Some(3), 0)));
    assert_eq!(referral(&s, &Some("NOPE".into()), &promo), Err(ReferralError::UnknownCode));
    assert!(code_listed(&promo, "CCC"));
    assert!(!code_listed(&promo, "AAA"));
}

#[test]
fn expiry_adds_days_and_bonus() {
    assert_eq!(subscription_expiry(1_000, None, 7), None);
    assert_eq!(subscription_expiry(1_000, Some(30), 7), Some(1_000 + 37 * 86_400));
    assert_eq!(subscription_expiry(0, Some(-1), 0), Some(-86_400));
}

#[test]
fn referral_replies_and_credit() {
    let s = store();
    assert_eq!(ReferralError::UnknownCode.status(), 400);
    assert_eq!(ReferralError::UnknownCode.message(), "Refer code no found");
    let r = referral(&s, &Some("AAA".into()), &vec![]);
    assert_eq!(referrer_credit(&r, 14), Some((1, 14)));
    assert_eq!(referrer_credit(&referral(&s, &None, &vec![]), 14), None);
    assert_eq!(credit_failed_reply("db"), (500, "Couldn't create subscription: db".to_string()));
    assert_eq!(subscription_created_reply(5, &Ok(OperationStatus::Success(5))), (200, "Subscription 00000000-0000-0000-0000-000000000005 has been created".to_string()));
    assert_eq!(subscription_created_reply(5, &Ok(OperationStatus::AlreadyExist(5))).0, 304);
    assert_eq!(subscription_created_reply(5, &Err("x".into())), (500, "Internal error while processing subscription 00000000-0000-0000-0000-000000000005: x".to_string()));
    assert_eq!(subscription_created_reply(5, &Ok(OperationStatus::Updated(5))), (304, String::new()));
}
