//! The wallet facade's own decisions: building a communications configuration
//! and turning the engine's answers into the handles that a caller receives.
//! Each query takes what the engine returned, `None` standing for a failed
//! call; as at the boundary, the engine's error detail is dropped here and the
//! caller sees a null handle.
use crate::contacts::{TariContact, TariContacts};
use crate::keys::TariPrivateKey;
use crate::transactions::{
    find_by_id, lookup_by_id, values_of, TariCompletedTransaction, TariCompletedTransactions,
    TariPendingInboundTransaction, TariPendingInboundTransactions, TariPendingOutboundTransaction,
    TariPendingOutboundTransactions,
};
use vstd::prelude::*;

verus! {

/// What a wallet's communications layer is built from.
pub struct TariCommsConfig {
    pub address: String,
    pub database_name: String,
    pub datastore_path: String,
    pub secret_key: TariPrivateKey,
}

/// A configuration from a network address, a peer database name, a storage
/// path and a private key. `address_parses` is the network layer's verdict on
/// `address`. Null when any input is null or the address does not parse.
pub fn comms_config_create(
    address: Option<&str>,
    database_name: Option<&str>,
    datastore_path: Option<&str>,
    secret_key: Option<&TariPrivateKey>,
    address_parses: bool,
) -> (r: Option<TariCommsConfig>)
    ensures
        r is Some <==> (address is Some && database_name is Some && datastore_path is Some
            && secret_key is Some && address_parses),
        r is Some ==> {
            let c = r->0;
            &&& c.address@ == address->0@
            &&& c.database_name@ == database_name->0@
            &&& c.datastore_path@ == datastore_path->0@
            &&& c.secret_key == *secret_key->0
        },
{
    match (address, database_name, datastore_path, secret_key) {
        (Some(a), Some(n), Some(p), Some(k)) => {
            if !address_parses {
                return None;
            }
            Some(
                TariCommsConfig {
                    address: a.to_owned(),
                    database_name: n.to_owned(),
                    datastore_path: p.to_owned(),
                    secret_key: *k,
                },
            )
        },
        _ => None,
    }
}

/// Releases a configuration. A null handle is accepted and nothing happens.
pub fn comms_config_destroy(config: Option<TariCommsConfig>) {
    let _ = config;
}

/// The contact collection for the engine's answer: a snapshot of every contact
/// in order, or null when the engine failed.
pub fn wallet_get_contacts(fetched: Option<Vec<TariContact>>) -> (r: Option<TariContacts>)
    requires
        fetched is Some ==> fetched->0@.len() <= u32::MAX,
    ensures
        r is Some <==> fetched is Some,
        r is Some ==> r->0@ == fetched->0@,
{
    match fetched {
        Some(contacts) => Some(TariContacts::from_slice(contacts.as_slice())),
        None => None,
    }
}

/// The completed transaction collection for the engine's answer, a list of
/// identified transactions: a snapshot of every transaction in order, or null
/// when the engine failed.
pub fn wallet_get_completed_transactions(fetched: Option<Vec<(u64, TariCompletedTransaction)>>) -> (r:
    Option<TariCompletedTransactions>)
    requires
        fetched is Some ==> fetched->0@.len() <= u32::MAX,
    ensures
        r is Some <==> fetched is Some,
        r is Some ==> r->0@ == values_of(fetched->0@),
{
    match fetched {
        Some(entries) => Some(TariCompletedTransactions::from_entries(entries.as_slice())),
        None => None,
    }
}

/// The pending inbound transaction collection for the engine's answer: a
/// snapshot of every transaction in order, or null when the engine failed.
pub fn wallet_get_pending_inbound_transactions(
    fetched: Option<Vec<(u64, TariPendingInboundTransaction)>>,
) -> (r: Option<TariPendingInboundTransactions>)
    requires
        fetched is Some ==> fetched->0@.len() <= u32::MAX,
    ensures
        r is Some <==> fetched is Some,
        r is Some ==> r->0@ == values_of(fetched->0@),
{
    match fetched {
        Some(entries) => Some(TariPendingInboundTransactions::from_entries(entries.as_slice())),
        None => None,
    }
}

/// The pending outbound transaction collection for the engine's answer: a
/// snapshot of every transaction in order, or null when the engine failed.
pub fn wallet_get_pending_outbound_transactions(
    fetched: Option<Vec<(u64, TariPendingOutboundTransaction)>>,
) -> (r: Option<TariPendingOutboundTransactions>)
    requires
        fetched is Some ==> fetched->0@.len() <= u32::MAX,
    ensures
        r is Some <==> fetched is Some,
        r is Some ==> r->0@ == values_of(fetched->0@),
{
    match fetched {
        Some(entries) => Some(TariPendingOutboundTransactions::from_entries(entries.as_slice())),
        None => None,
    }
}

/// The completed transaction with identifier `transaction_id` in the engine's
/// answer; null when the engine failed or no transaction has that identifier.
pub fn wallet_get_completed_transaction_by_id(
    fetched: Option<Vec<(u64, TariCompletedTransaction)>>,
    transaction_id: u64,
) -> (r: Option<TariCompletedTransaction>)
    ensures
        r == match fetched {
            Some(entries) => find_by_id(entries@, transaction_id),
            None => None,
        },
{
    match fetched {
        Some(entries) => lookup_by_id(entries.as_slice(), transaction_id),
        None => None,
    }
}

/// The pending inbound transaction with identifier `transaction_id` in the
/// engine's answer; null when the engine failed or no transaction has that identifier.
pub fn wallet_get_pending_inbound_transaction_by_id(
    fetched: Option<Vec<(u64, TariPendingInboundTransaction)>>,
    transaction_id: u64,
) -> (r: Option<TariPendingInboundTransaction>)
    ensures
        r == match fetched {
            Some(entries) => find_by_id(entries@, transaction_id),
            None => None,
        },
{
    match fetched {
        Some(entries) => lookup_by_id(entries.as_slice(), transaction_id),
        None => None,
    }
}

/// The pending outbound transaction with identifier `transaction_id` in the
/// engine's answer; null when the engine failed or no transaction has that identifier.
pub fn wallet_get_pending_outbound_transaction_by_id(
    fetched: Option<Vec<(u64, TariPendingOutboundTransaction)>>,
    transaction_id: u64,
) -> (r: Option<TariPendingOutboundTransaction>)
    ensures
        r == match fetched {
            Some(entries) => find_by_id(entries@, transaction_id),
            None => None,
        },
{
    match fetched {
        Some(entries) => lookup_by_id(entries.as_slice(), transaction_id),
        None => None,
    }
}

/// A snapshot holds one transaction per entry of the store's answer, so an
/// empty store gives a collection of length zero rather than a null handle.
pub proof fn lemma_snapshot_length<T>(entries: Seq<(u64, T)>)
    ensures
        values_of(entries).len() == entries.len(),
        entries.len() == 0 ==> values_of(entries) == Seq::<T>::empty(),
{
    if entries.len() == 0 {
        assert(values_of(entries) =~= Seq::<T>::empty());
    }
}

} // verus!
