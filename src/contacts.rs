//! Contacts: an alias and a public key, alone or as a snapshot collection.
use crate::keys::TariPublicKey;
use vstd::prelude::*;

verus! {

/// A contact of the wallet.
#[derive(Debug)]
pub struct TariContact {
    pub alias: String,
    pub public_key: TariPublicKey,
}

impl Clone for TariContact {
    fn clone(&self) -> (r: Self)
        ensures
            r == *self,
    {
        TariContact { alias: self.alias.clone(), public_key: self.public_key }
    }
}

/// A contact from an alias and a public key; null when either is null.
pub fn contact_create(alias: Option<&str>, public_key: Option<&TariPublicKey>) -> (r: Option<TariContact>)
    ensures
        r is Some <==> (alias is Some && public_key is Some),
        r is Some ==> r->0.alias@ == alias->0@ && r->0.public_key == *public_key->0,
{
    match (alias, public_key) {
        (Some(a), Some(k)) => Some(TariContact { alias: a.to_owned(), public_key: *k }),
        _ => None,
    }
}

/// The contact's alias, or the empty string for a null handle.
pub fn contact_get_alias(contact: Option<&TariContact>) -> (r: String)
    ensures
        r@ == match contact {
            Some(c) => c.alias@,
            None => Seq::<char>::empty(),
        },
{
    match contact {
        Some(c) => c.alias.clone(),
        None => String::new(),
    }
}

/// The contact's public key, or null for a null handle.
pub fn contact_get_public_key(contact: Option<&TariContact>) -> (r: Option<TariPublicKey>)
    ensures
        r == match contact {
            Some(c) => Some(c.public_key),
            None => None::<TariPublicKey>,
        },
{
    match contact {
        Some(c) => Some(c.public_key),
        None => None,
    }
}

/// Releases a contact. A null handle is accepted and nothing happens.
pub fn contact_destroy(contact: Option<TariContact>) {
    let _ = contact;
}

/// A snapshot of the wallet's contacts, in the order the store gave them.
pub struct TariContacts(Vec<TariContact>);

impl View for TariContacts {
    type V = Seq<TariContact>;

    closed spec fn view(&self) -> Seq<TariContact> {
        self.0@
    }
}

impl TariContacts {
    #[verifier::type_invariant]
    closed spec fn fits_count(self) -> bool {
        self.0@.len() <= u32::MAX
    }

    /// A snapshot holding copies of the given contacts, in order.
    pub fn from_slice(contacts: &[TariContact]) -> (r: TariContacts)
        requires
            contacts@.len() <= u32::MAX,
        ensures
            r@ == contacts@,
    {
        let mut copied: Vec<TariContact> = Vec::new();
        let mut i: usize = 0;
        while i < contacts.len()
            invariant
                contacts@.len() <= u32::MAX,
                i <= contacts@.len(),
                copied@ == contacts@.subrange(0, i as int),
            decreases contacts@.len() - i,
        {
            copied.push(contacts[i].clone());
            i = i + 1;
        }
        assert(copied@ =~= contacts@);
        TariContacts(copied)
    }
}

/// The number of contacts, or zero for a null handle.
pub fn contacts_get_length(contacts: Option<&TariContacts>) -> (r: u32)
    ensures
        r == match contacts {
            Some(c) => c@.len(),
            None => 0,
        },
{
    match contacts {
        None => 0,
        Some(c) => {
            proof {
                use_type_invariant(c);
            }
            c.0.len() as u32
        },
    }
}

/// A copy of the contact at `position`, or null for a null handle or a
/// position at or past the end.
pub fn contacts_get_at(contacts: Option<&TariContacts>, position: u32) -> (r: Option<TariContact>)
    ensures
        r == match contacts {
            Some(c) => if position < c@.len() {
                Some(c@[position as int])
            } else {
                None
            },
            None => None::<TariContact>,
        },
{
    match contacts {
        None => None,
        Some(c) => {
            if (position as usize) < c.0.len() {
                Some(c.0[position as usize].clone())
            } else {
                None
            }
        },
    }
}

/// Releases a contact collection. A null handle is accepted and nothing happens.
pub fn contacts_destroy(contacts: Option<TariContacts>) {
    let _ = contacts;
}

} // verus!
