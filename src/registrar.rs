//! New subscriber records, each under a freshly generated identifier.
use crate::record::{
    attr_lookup, email_key, id_key, lemma_recipient_listed, recipient_of, recipients_of,
    subscribed_key, AttrValue, SubscriberRecord,
};
use vstd::prelude::*;
use vstd::string::StringExecFns;

verus! {

/// Relies on uuid's `Uuid::new_v4` for a random identifier and on its
/// `Display`, which writes the hyphenated form: 32 hex digits and 4 hyphens.
#[verifier::external_body]
fn fresh_identifier() -> (r: String)
    ensures
        r@.len() == 36,
{
    uuid::Uuid::new_v4().to_string()
}

/// `r` is the record `{id, email, subscribed: true}`.
pub open spec fn is_subscriber_record(r: SubscriberRecord, id: Seq<char>, email: Seq<char>) -> bool {
    &&& attr_lookup(r.attributes@, id_key()) matches Some(AttrValue::S(s)) && s@ == id
    &&& attr_lookup(r.attributes@, email_key()) matches Some(AttrValue::S(s)) && s@ == email
    &&& attr_lookup(r.attributes@, subscribed_key()) == Some(AttrValue::Bool(true))
    &&& r.attributes@.len() == 3
}

/// The record that registers `email` as an active subscriber under `id`.
pub fn subscriber_record(id: String, email: String) -> (r: SubscriberRecord)
    ensures
        is_subscriber_record(r, id@, email@),
{
    let ghost id_view = id@;
    let ghost email_view = email@;
    let mut r = SubscriberRecord::empty();
    r.insert(String::from_str("id"), AttrValue::S(id));
    r.insert(String::from_str("email"), AttrValue::S(email));
    r.insert(String::from_str("subscribed"), AttrValue::Bool(true));
    proof {
        reveal_strlit("id");
        reveal_strlit("email");
        reveal_strlit("subscribed");
        let a = r.attributes@;
        assert(id_key().len() == 2 && email_key().len() == 5 && subscribed_key().len() == 10);
        let a1 = a.drop_first();
        let a2 = a1.drop_first();
        assert(a1[0] == a[1] && a2[0] == a[2]);
        assert(attr_lookup(a, id_key()) == Some(a[0].value));
        assert(attr_lookup(a1, email_key()) == Some(a[1].value));
        assert(attr_lookup(a, email_key()) == Some(a[1].value));
        assert(attr_lookup(a2, subscribed_key()) == Some(a[2].value));
        assert(attr_lookup(a1, subscribed_key()) == Some(a[2].value));
        assert(attr_lookup(a, subscribed_key()) == Some(a[2].value));
    }
    r
}

/// Registers `email`: a new record with a generated, non-empty identifier,
/// the address, and the subscription flag set. The table write that stores
/// it is unconditional.
pub fn new_subscriber(email: String) -> (r: SubscriberRecord)
    ensures
        exists|id: Seq<char>| id.len() == 36 && is_subscriber_record(r, id, email@),
{
    let id = fresh_identifier();
    let ghost id_view = id@;
    let r = subscriber_record(id, email);
    assert(id_view.len() == 36 && is_subscriber_record(r, id_view, email@));
    r
}

/// A registered address is one that the next mailing reaches: wherever the
/// record written for it turns up among the scanned records, its address is
/// among the recipients that the filter yields.
pub proof fn lemma_registered_address_is_mailed(
    records: Seq<SubscriberRecord>,
    i: int,
    id: Seq<char>,
    email: Seq<char>,
)
    requires
        0 <= i < records.len(),
        is_subscriber_record(records[i], id, email),
    ensures
        recipient_of(records[i]) == Some(email),
        recipients_of(records).contains(email),
{
    lemma_recipient_listed(records, i);
}

} // verus!
