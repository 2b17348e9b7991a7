//! Subscriber records: loosely typed attribute maps as stored in the table.
use vstd::prelude::*;
use vstd::string::StringExecFns;

verus! {

/// A tagged scalar stored under an attribute name.
#[derive(Clone, Debug)]
pub enum AttrValue {
    S(String),
    Bool(bool),
    /// A number, in the decimal text the table stores.
    N(String),
    /// A binary value.
    B(Vec<u8>),
    /// Any value of another kind (list, map, set, null).
    Other,
}

/// One named attribute of a record.
#[derive(Clone, Debug)]
pub struct Attribute {
    pub name: String,
    pub value: AttrValue,
}

/// A table item: attribute names mapped to values. Where a name occurs more
/// than once, the first occurrence is the one that counts.
#[derive(Clone, Debug)]
pub struct SubscriberRecord {
    pub attributes: Vec<Attribute>,
}

/// Canonical attribute name of the generated identifier.
pub open spec fn id_key() -> Seq<char> {
    "id"@
}

/// Canonical attribute name of the deliverable address.
pub open spec fn email_key() -> Seq<char> {
    "email"@
}

/// Canonical attribute name of the subscription flag.
pub open spec fn subscribed_key() -> Seq<char> {
    "subscribed"@
}

/// The value of the first attribute called `name`, if any.
pub open spec fn attr_lookup(attrs: Seq<Attribute>, name: Seq<char>) -> Option<AttrValue>
    decreases attrs.len(),
{
    if attrs.len() == 0 {
        None
    } else if attrs[0].name@ == name {
        Some(attrs[0].value)
    } else {
        attr_lookup(attrs.drop_first(), name)
    }
}

/// The address a record contributes to a mailing: present only when the
/// record carries the flag `true` and a string address.
pub open spec fn recipient_of(r: SubscriberRecord) -> Option<Seq<char>> {
    match attr_lookup(r.attributes@, subscribed_key()) {
        Some(AttrValue::Bool(true)) => match attr_lookup(r.attributes@, email_key()) {
            Some(AttrValue::S(s)) => Some(s@),
            _ => None,
        },
        _ => None,
    }
}

/// The addresses of the active subscribers among `records`, in record order.
pub open spec fn recipients_of(records: Seq<SubscriberRecord>) -> Seq<Seq<char>>
    decreases records.len(),
{
    if records.len() == 0 {
        Seq::empty()
    } else {
        let rest = recipients_of(records.drop_last());
        match recipient_of(records.last()) {
            Some(a) => rest.push(a),
            None => rest,
        }
    }
}

/// Every active subscriber among `records` contributes its address to
/// `recipients_of(records)`.
pub proof fn lemma_recipient_listed(records: Seq<SubscriberRecord>, i: int)
    requires
        0 <= i < records.len(),
        recipient_of(records[i]) is Some,
    ensures
        recipients_of(records).contains(recipient_of(records[i])->0),
    decreases records.len(),
{
    let a = recipient_of(records[i])->0;
    let rest = recipients_of(records.drop_last());
    if i == records.len() - 1 {
        assert(recipients_of(records) == rest.push(a));
        assert(recipients_of(records)[rest.len() as int] == a);
    } else {
        assert(records.drop_last()[i] == records[i]);
        lemma_recipient_listed(records.drop_last(), i);
        let k = choose|k: int| 0 <= k < rest.len() && rest[k] == a;
        match recipient_of(records.last()) {
            Some(b) => assert(recipients_of(records)[k] == a),
            None => {},
        }
    }
}

/// The views of a list of strings.
pub open spec fn strings_view(v: Seq<String>) -> Seq<Seq<char>> {
    v.map_values(|s: String| s@)
}

impl AttrValue {
    /// The string held, if this is a string value.
    pub fn as_str_value(&self) -> (r: Option<&String>)
        ensures
            match self {
                AttrValue::S(s) => r == Some(s),
                _ => r is None,
            },
    {
        match self {
            AttrValue::S(s) => Some(s),
            _ => None,
        }
    }

    /// The flag held, if this is a boolean value.
    pub fn as_bool_value(&self) -> (r: Option<bool>)
        ensures
            match self {
                AttrValue::Bool(b) => r == Some(*b),
                _ => r is None,
            },
    {
        match self {
            AttrValue::Bool(b) => Some(*b),
            _ => None,
        }
    }
}

impl SubscriberRecord {
    /// A record with no attributes.
    pub fn empty() -> (r: SubscriberRecord)
        ensures
            r.attributes@.len() == 0,
    {
        SubscriberRecord { attributes: Vec::new() }
    }

    /// Adds `name = value` after the attributes already present.
    pub fn insert(&mut self, name: String, value: AttrValue)
        ensures
            final(self).attributes@ == old(self).attributes@.push(Attribute { name, value }),
    {
        self.attributes.push(Attribute { name, value });
    }

    /// The value stored under `name`, if any.
    pub fn get(&self, name: &String) -> (r: Option<&AttrValue>)
        ensures
            match attr_lookup(self.attributes@, name@) {
                Some(v) => r == Some(&v),
                None => r is None,
            },
    {
        let mut i: usize = 0;
        assert(self.attributes@.subrange(0, self.attributes@.len() as int) =~= self.attributes@);
        while i < self.attributes.len()
            invariant
                i <= self.attributes@.len(),
                attr_lookup(self.attributes@, name@) == attr_lookup(
                    self.attributes@.subrange(i as int, self.attributes@.len() as int),
                    name@,
                ),
            decreases self.attributes@.len() - i,
        {
            let a = &self.attributes[i];
            proof {
                let rest = self.attributes@.subrange(i as int, self.attributes@.len() as int);
                assert(rest.drop_first() =~= self.attributes@.subrange(
                    i + 1,
                    self.attributes@.len() as int,
                ));
            }
            if a.name == *name {
                return Some(&a.value);
            }
            i = i + 1;
        }
        None
    }

    /// The address this record contributes to a mailing, if it is an active
    /// subscriber with a string address.
    pub fn recipient(&self) -> (r: Option<String>)
        ensures
            match recipient_of(*self) {
                Some(a) => r is Some && r->0@ == a,
                None => r is None,
            },
    {
        let subscribed_name = String::from_str("subscribed");
        let email_name = String::from_str("email");
        match self.get(&subscribed_name) {
            Some(flag) => match flag.as_bool_value() {
                Some(true) => match self.get(&email_name) {
                    Some(address) => match address.as_str_value() {
                        Some(s) => Some(s.clone()),
                        None => None,
                    },
                    None => None,
                },
                _ => None,
            },
            None => None,
        }
    }
}

/// Keeps the records that carry the subscription flag `true` and a string
/// address, and returns those addresses in record order. Other records are
/// dropped without error.
pub fn filter_recipients(records: &Vec<SubscriberRecord>) -> (r: Vec<String>)
    ensures
        strings_view(r@) == recipients_of(records@),
{
    let mut out: Vec<String> = Vec::new();
    let mut i: usize = 0;
    while i < records.len()
        invariant
            i <= records@.len(),
            strings_view(out@) == recipients_of(records@.subrange(0, i as int)),
        decreases records@.len() - i,
    {
        let next = records[i].recipient();
        proof {
            let pre = records@.subrange(0, i as int + 1);
            assert(pre.drop_last() =~= records@.subrange(0, i as int));
            assert(pre.last() == records@[i as int]);
        }
        match next {
            Some(a) => {
                out.push(a);
                assert(strings_view(out@) =~= recipients_of(records@.subrange(0, i as int)).push(
                    out@.last()@,
                ));
            },
            None => {},
        }
        i = i + 1;
    }
    assert(records@.subrange(0, records@.len() as int) =~= records@);
    out
}

} // verus!
