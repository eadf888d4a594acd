//! Activation keys: what the service answers when a key is checked, created
//! or activated, from the facts it looked up.
use vstd::prelude::*;
use crate::codec::{uuid_string, uuid_text};
use crate::store::OperationStatus;
use crate::text::owned;

verus! {

/// The distributor a key is issued for: the one asked for, or `FRKN`.
pub fn key_distributor(asked: &Option<String>) -> (r: String)
    ensures
        asked matches Some(d) ==> r == d,
        asked is None ==> r@ == "FRKN"@,
{
    match asked {
        Some(d) => d.clone(),
        None => owned("FRKN"),
    }
}

/// The answer to a key check, from whether the code's signature is valid and
/// the stored key's activation flag (`None` when no key has that code): a
/// bad signature is refused (400) before the store is asked, an unknown key is
/// not found (404), a known key is valid (200), saying whether it was used.
pub fn key_check_reply(signature_valid: bool, stored_activated: Option<bool>) -> (r: (u16, String))
    ensures
        !signature_valid ==> r.0 == 400 && r.1@ == "Key is not valid"@,
        signature_valid && stored_activated is None ==> r.0 == 404 && r.1@ == "Key is not found"@,
        signature_valid && stored_activated == Some(true) ==> r.0 == 200 && r.1@
            == "Key is valid and already activated"@,
        signature_valid && stored_activated == Some(false) ==> r.0 == 200 && r.1@ == "Key is valid"@,
{
    if !signature_valid {
        return (400, owned("Key is not valid"));
    }
    match stored_activated {
        None => (404, owned("Key is not found")),
        Some(true) => (200, owned("Key is valid and already activated")),
        Some(false) => (200, owned("Key is valid")),
    }
}

/// Whether an activation may go on, from the stored key's activation flag:
/// an unknown key is not found (404), a used key is refused (400); `None`
/// lets the activation add the key's days to the subscription.
pub fn activation_gate(stored_activated: Option<bool>) -> (r: Option<(u16, String)>)
    ensures
        stored_activated is None ==> (r matches Some((s, m)) && s == 404 && m@ == "Key not found"@),
        stored_activated == Some(true) ==> (r matches Some((s, m)) && s == 400 && m@
            == "Key already activated"@),
        stored_activated == Some(false) ==> r is None,
{
    match stored_activated {
        None => Some((404, owned("Key not found"))),
        Some(true) => Some((400, owned("Key already activated"))),
        Some(false) => None,
    }
}

/// What adding the key's days to the subscription leads to.
#[derive(Debug)]
pub enum ActivationStep {
    /// The days were added: mark key `0` activated, then answer.
    MarkActivated(u128),
    /// Answer at once with this status and message.
    Reply(u16, String),
}

/// The step after adding the key's days: an updated subscription lets the key
/// be marked activated; a missing subscription is not found (404); an error
/// is refused (400) with its text; any other status is "not modified" (304).
pub fn activation_step(key_id: u128, added: Result<OperationStatus, String>) -> (r: ActivationStep)
    ensures
        added matches Ok(OperationStatus::Updated(_)) ==> r == ActivationStep::MarkActivated(key_id),
        added matches Ok(OperationStatus::NotFound(_)) ==> (r matches ActivationStep::Reply(s, m)
            && s == 404 && m@ == "Subscription not found"@),
        added matches Err(e) ==> (r matches ActivationStep::Reply(s, m) && s == 400 && m@
            == "Failed to add days: "@ + e@),
        added matches Ok(st) ==> (!(st is Updated || st is NotFound) ==> (r matches ActivationStep::Reply(
            s,
            m,
        ) && s == 304 && m@.len() == 0)),
{
    match added {
        Ok(OperationStatus::Updated(_)) => ActivationStep::MarkActivated(key_id),
        Ok(OperationStatus::NotFound(_)) => ActivationStep::Reply(404, owned("Subscription not found")),
        Err(e) => {
            let mut m = owned("Failed to add days: ");
            m.append(e.as_str());
            ActivationStep::Reply(400, m)
        },
        Ok(_) => ActivationStep::Reply(304, String::new()),
    }
}

/// The answer once the key was marked activated, or why marking failed.
pub fn activation_reply(key_id: u128, marked: Result<(), String>) -> (r: (u16, String))
    ensures
        marked is Ok ==> r.0 == 200 && r.1@ == "Key "@ + uuid_text(key_id) + " activated"@,
        marked matches Err(e) ==> r.0 == 400 && r.1@ == "Key activation failed: "@ + e@,
{
    match marked {
        Ok(()) => {
            let mut m = owned("Key ");
            let id = uuid_string(key_id);
            m.append(id.as_str());
            m.append(" activated");
            (200, m)
        },
        Err(e) => {
            let mut m = owned("Key activation failed: ");
            m.append(e.as_str());
            (400, m)
        },
    }
}

/// The answer to a key creation, from the insertion's result.
pub fn key_created_reply(key_id: u128, inserted: Result<(), String>) -> (r: (u16, String))
    ensures
        inserted is Ok ==> r.0 == 200 && r.1@ == "Key "@ + uuid_text(key_id) + " is created"@,
        inserted is Err ==> r.0 == 400 && r.1@ == "Key create error"@,
{
    match inserted {
        Ok(()) => {
            let mut m = owned("Key ");
            let id = uuid_string(key_id);
            m.append(id.as_str());
            m.append(" is created");
            (200, m)
        },
        Err(_) => (400, owned("Key create error")),
    }
}

} // verus!
