use wallet_ffi::callbacks::{
    wallet_call_back_register_received_transaction,
    wallet_call_back_register_received_transaction_reply, CallbackRegistry, Invocation, WalletEvent,
};
use wallet_ffi::contacts::{
    contact_create, contact_get_alias, contact_get_public_key, contacts_get_at,
    contacts_get_length,
};
use wallet_ffi::keys::{private_key_generate, public_key_from_private_key, TariPublicKey};
use wallet_ffi::transactions::{
    completed_transaction_get_amount, completed_transaction_get_destination_public_key,
    completed_transaction_get_fee, completed_transaction_get_transaction_id,
    completed_transaction_get_transaction_timestamp, completed_transactions_get_at,
    completed_transactions_get_length, pending_inbound_transaction_get_amount,
    pending_inbound_transaction_get_source_public_key,
    pending_inbound_transaction_get_transaction_id,
    pending_inbound_transaction_get_transaction_timestamp, pending_inbound_transactions_get_at,
    pending_inbound_transactions_get_length, pending_outbound_transaction_get_amount,
    pending_outbound_transaction_get_destination_public_key,
    pending_outbound_transaction_get_transaction_id,
    pending_outbound_transaction_get_transaction_timestamp, pending_outbound_transactions_get_at,
    pending_outbound_transactions_get_length, TariCompletedTransaction,
    TariPendingInboundTransaction, TariPendingOutboundTransaction,
};
use wallet_ffi::wallet::{
    comms_config_create, wallet_get_completed_transaction_by_id,
    wallet_get_completed_transactions, wallet_get_contacts,
    wallet_get_pending_inbound_transaction_by_id, wallet_get_pending_inbound_transactions,
    wallet_get_pending_outbound_transaction_by_id, wallet_get_pending_outbound_transactions,
};

fn new_key() -> TariPublicKey {
    public_key_from_private_key(Some(&private_key_generate().unwrap())).unwrap()
}

fn completed(tx_id: u64, amount: u64) -> TariCompletedTransaction {
    TariCompletedTransaction {
        tx_id,
        destination_public_key: new_key(),
        amount,
        fee: 5,
        timestamp: 1_570_000_000,
    }
}

fn inbound(tx_id: u64) -> TariPendingInboundTransaction {
    TariPendingInboundTransaction { tx_id, source_public_key: new_key(), amount: 77, timestamp: -3 }
}

fn outbound(tx_id: u64) -> TariPendingOutboundTransaction {
    TariPendingOutboundTransaction {
        tx_id,
        destination_public_key: new_key(),
        amount: 88,
        timestamp: 42,
    }
}

#[test]
fn contacts_snapshot_and_access() {
    let k = new_key();
    let alice = contact_create(Some("alice"), Some(&k)).unwrap();
    assert_eq!(contact_get_alias(Some(&alice)), "alice");
    assert!(contact_get_public_key(Some(&alice)).unwrap().same_key(&k));
    assert_eq!(contact_get_alias(None), "");
    assert!(contact_get_public_key(None).is_none());
    assert!(contact_create(None, Some(&k)).is_none());
    assert!(contact_create(Some("x"), None).is_none());

    let bob = contact_create(Some("bob"), Some(&new_key())).unwrap();
    let contacts = wallet_get_contacts(Some(vec![alice, bob])).unwrap();
    assert_eq!(contacts_get_length(Some(&contacts)), 2);
    assert_eq!(contacts_get_at(Some(&contacts), 1).unwrap().alias, "bob");
    assert!(contacts_get_at(Some(&contacts), 2).is_none());
    assert!(contacts_get_at(None, 0).is_none());
    assert_eq!(contacts_get_length(None), 0);
    assert!(wallet_get_contacts(None).is_none());
}

#[test]
fn empty_store_gives_empty_collections() {
    let contacts = wallet_get_contacts(Some(Vec::new())).unwrap();
    assert_eq!(contacts_get_length(Some(&contacts)), 0);
    assert!(contacts_get_at(Some(&contacts), 0).is_none());
    let c = wallet_get_completed_transactions(Some(Vec::new())).unwrap();
    assert_eq!(completed_transactions_get_length(Some(&c)), 0);
    let i = wallet_get_pending_inbound_transactions(Some(Vec::new())).unwrap();
    assert_eq!(pending_inbound_transactions_get_length(Some(&i)), 0);
    let o = wallet_get_pending_outbound_transactions(Some(Vec::new())).unwrap();
    assert_eq!(pending_outbound_transactions_get_length(Some(&o)), 0);
}

#[test]
fn transaction_collections_and_getters() {
    let a = completed(10, 1000);
    let b = completed(11, 2000);
    let c = wallet_get_completed_transactions(Some(vec![(10, a), (11, b)])).unwrap();
    assert_eq!(completed_transactions_get_length(Some(&c)), 2);
    let second = completed_transactions_get_at(Some(&c), 1).unwrap();
    assert_eq!(completed_transaction_get_transaction_id(Some(&second)), 11);
    assert_eq!(completed_transaction_get_amount(Some(&second)), 2000);
    assert_eq!(completed_transaction_get_fee(Some(&second)), 5);
    assert_eq!(completed_transaction_get_transaction_timestamp(Some(&second)), 1_570_000_000);
    assert!(completed_transaction_get_destination_public_key(Some(&second))
        .unwrap()
        .same_key(&b.destination_public_key));
    assert!(completed_transactions_get_at(Some(&c), 2).is_none());
    assert_eq!(completed_transaction_get_transaction_id(None), 0);
    assert_eq!(completed_transaction_get_amount(None), 0);
    assert_eq!(completed_transaction_get_fee(None), 0);
    assert_eq!(completed_transaction_get_transaction_timestamp(None), 0);
    assert!(completed_transaction_get_destination_public_key(None).is_none());

    let i = wallet_get_pending_inbound_transactions(Some(vec![(3, inbound(3))])).unwrap();
    let first = pending_inbound_transactions_get_at(Some(&i), 0).unwrap();
    assert_eq!(pending_inbound_transaction_get_transaction_id(Some(&first)), 3);
    assert_eq!(pending_inbound_transaction_get_amount(Some(&first)), 77);
    assert_eq!(pending_inbound_transaction_get_transaction_timestamp(Some(&first)), -3);
    assert!(pending_inbound_transaction_get_source_public_key(Some(&first)).is_some());
    assert_eq!(pending_inbound_transaction_get_amount(None), 0);

    let o = wallet_get_pending_outbound_transactions(Some(vec![(4, outbound(4))])).unwrap();
    let first = pending_outbound_transactions_get_at(Some(&o), 0).unwrap();
    assert_eq!(pending_outbound_transaction_get_transaction_id(Some(&first)), 4);
    assert_eq!(pending_outbound_transaction_get_amount(Some(&first)), 88);
    assert_eq!(pending_outbound_transaction_get_transaction_timestamp(Some(&first)), 42);
    assert!(pending_outbound_transaction_get_destination_public_key(Some(&first)).is_some());
    assert_eq!(pending_outbound_transaction_get_transaction_id(None), 0);
    assert!(pending_outbound_transactions_get_at(None, 0).is_none());
    assert!(wallet_get_completed_transactions(None).is_none());
}

#[test]
fn lookups_by_identifier() {
    let entries = vec![(5, completed(5, 1)), (9, completed(9, 2)), (9, completed(9, 3))];
    let found = wallet_get_completed_transaction_by_id(Some(entries.clone()), 9).unwrap();
    assert_eq!(found.amount, 2);
    assert!(wallet_get_completed_transaction_by_id(Some(entries), 6).is_none());
    assert!(wallet_get_completed_transaction_by_id(None, 5).is_none());
    assert_eq!(
        wallet_get_pending_inbound_transaction_by_id(Some(vec![(1, inbound(1)), (2, inbound(2))]), 2)
            .unwrap()
            .tx_id,
        2
    );
    assert!(wallet_get_pending_inbound_transaction_by_id(Some(Vec::new()), 2).is_none());
    assert_eq!(
        wallet_get_pending_outbound_transaction_by_id(Some(vec![(7, outbound(7))]), 7)
            .unwrap()
            .tx_id,
        7
    );
    assert!(wallet_get_pending_outbound_transaction_by_id(None, 7).is_none());
}

#[test]
fn callbacks_fire_once_per_event() {
    let mut registry: CallbackRegistry<u8, u16> = CallbackRegistry::new();
    let events = vec![
        WalletEvent::ReceivedTransaction(inbound(1)),
        WalletEvent::ReceivedTransactionReply(completed(2, 10)),
        WalletEvent::ReceivedTransaction(inbound(3)),
    ];
    assert!(registry.dispatch(&events).is_empty());

    assert!(wallet_call_back_register_received_transaction(Some(&mut registry), 7));
    let calls = registry.dispatch(&events);
    assert_eq!(calls.len(), 2);
    assert!(matches!(calls[0], Invocation::ReceivedTransaction(7, t) if t.tx_id == 1));
    assert!(matches!(calls[1], Invocation::ReceivedTransaction(7, t) if t.tx_id == 3));

    assert!(wallet_call_back_register_received_transaction_reply(Some(&mut registry), 300));
    assert!(wallet_call_back_register_received_transaction(Some(&mut registry), 8));
    let calls = registry.dispatch(&events);
    assert_eq!(calls.len(), 3);
    assert!(matches!(calls[0], Invocation::ReceivedTransaction(8, t) if t.tx_id == 1));
    assert!(matches!(calls[1], Invocation::ReceivedTransactionReply(300, t) if t.tx_id == 2));
    assert!(matches!(calls[2], Invocation::ReceivedTransaction(8, t) if t.tx_id == 3));

    assert!(!wallet_call_back_register_received_transaction::<u8, u16>(None, 1));
    assert!(!wallet_call_back_register_received_transaction_reply::<u8, u16>(None, 1));
}

#[test]
fn comms_config_needs_every_input() {
    let sk = private_key_generate().unwrap();
    let c = comms_config_create(
        Some("127.0.0.1:21443"),
        Some("ffi_test1_alice"),
        Some("./data_alice"),
        Some(&sk),
        true,
    )
    .unwrap();
    assert_eq!(c.address, "127.0.0.1:21443");
    assert_eq!(c.database_name, "ffi_test1_alice");
    assert_eq!(c.datastore_path, "./data_alice");
    assert!(comms_config_create(Some("bad"), Some("n"), Some("p"), Some(&sk), false).is_none());
    assert!(comms_config_create(None, Some("n"), Some("p"), Some(&sk), true).is_none());
    assert!(comms_config_create(Some("a"), None, Some("p"), Some(&sk), true).is_none());
    assert!(comms_config_create(Some("a"), Some("n"), None, Some(&sk), true).is_none());
    assert!(comms_config_create(Some("a"), Some("n"), Some("p"), None, true).is_none());
}

#[test]
fn wallet_pair_scenario() {
    let secret_alice = private_key_generate().unwrap();
    let public_alice = public_key_from_private_key(Some(&secret_alice)).unwrap();
    let secret_bob = private_key_generate().unwrap();
    let public_bob = public_key_from_private_key(Some(&secret_bob)).unwrap();
    assert!(!public_alice.same_key(&public_bob));
    let alice = comms_config_create(
        Some("127.0.0.1:21443"),
        Some("ffi_test1_alice"),
        Some("./data_alice"),
        Some(&secret_alice),
        true,
    );
    let bob = comms_config_create(
        Some("127.0.0.1:21441"),
        Some("ffi_test1_bob"),
        Some("./data_bob"),
        Some(&secret_bob),
        true,
    );
    assert!(alice.is_some() && bob.is_some());

    let mut alice_callbacks: CallbackRegistry<u8, u8> = CallbackRegistry::new();
    assert!(wallet_call_back_register_received_transaction(Some(&mut alice_callbacks), 1));
    assert!(wallet_call_back_register_received_transaction_reply(Some(&mut alice_callbacks), 2));

    // The store answers with four contacts, as the sample data holds.
    let store: Vec<_> = ["a", "b", "c", "d"]
        .iter()
        .map(|alias| contact_create(Some(alias), Some(&new_key())).unwrap())
        .collect();
    let contacts = wallet_get_contacts(Some(store));
    assert_eq!(contacts_get_length(contacts.as_ref()), 4);

    wallet_ffi::contacts::contacts_destroy(contacts);
    wallet_ffi::wallet::comms_config_destroy(alice);
    wallet_ffi::wallet::comms_config_destroy(bob);
    wallet_ffi::keys::public_key_destroy(Some(public_alice));
    wallet_ffi::keys::public_key_destroy(Some(public_bob));
    wallet_ffi::keys::private_key_destroy(Some(secret_alice));
    wallet_ffi::keys::private_key_destroy(Some(secret_bob));
}
