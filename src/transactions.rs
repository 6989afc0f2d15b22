//! Completed and pending transactions, alone or as snapshot collections, and
//! the lookups that the wallet facade performs on them.
use crate::keys::TariPublicKey;
use vstd::prelude::*;

verus! {

/// A transaction that both parties have finished.
#[derive(Clone, Copy, Debug)]
pub struct TariCompletedTransaction {
    pub tx_id: u64,
    pub destination_public_key: TariPublicKey,
    pub amount: u64,
    pub fee: u64,
    /// Seconds since the epoch.
    pub timestamp: i64,
}

/// A transaction this wallet sent that awaits the recipient's reply.
#[derive(Clone, Copy, Debug)]
pub struct TariPendingOutboundTransaction {
    pub tx_id: u64,
    pub destination_public_key: TariPublicKey,
    pub amount: u64,
    /// Seconds since the epoch.
    pub timestamp: i64,
}

/// A transaction this wallet received that is not yet complete.
#[derive(Clone, Copy, Debug)]
pub struct TariPendingInboundTransaction {
    pub tx_id: u64,
    pub source_public_key: TariPublicKey,
    pub amount: u64,
    /// Seconds since the epoch.
    pub timestamp: i64,
}

/// The value stored under the first entry whose identifier is `id`.
pub open spec fn find_by_id<T>(entries: Seq<(u64, T)>, id: u64) -> Option<T>
    decreases entries.len(),
{
    if entries.len() == 0 {
        None
    } else if entries[0].0 == id {
        Some(entries[0].1)
    } else {
        find_by_id(entries.drop_first(), id)
    }
}

/// The values of identified entries, in order.
pub open spec fn values_of<T>(entries: Seq<(u64, T)>) -> Seq<T> {
    entries.map_values(|e: (u64, T)| e.1)
}

proof fn lemma_find_skips<T>(entries: Seq<(u64, T)>, id: u64, i: int)
    requires
        0 <= i < entries.len(),
        entries[i].0 != id,
    ensures
        find_by_id(entries.subrange(i, entries.len() as int), id) == find_by_id(
            entries.subrange(i + 1, entries.len() as int),
            id,
        ),
{
    assert(entries.subrange(i, entries.len() as int).drop_first() =~= entries.subrange(
        i + 1,
        entries.len() as int,
    ));
}

/// A linear scan for the first entry with identifier `id`.
pub(crate) fn lookup_by_id<T: Copy>(entries: &[(u64, T)], id: u64) -> (r: Option<T>)
    ensures
        r == find_by_id(entries@, id),
{
    let mut i: usize = 0;
    assert(entries@.subrange(0, entries@.len() as int) =~= entries@);
    while i < entries.len()
        invariant
            i <= entries@.len(),
            find_by_id(entries@, id) == find_by_id(
                entries@.subrange(i as int, entries@.len() as int),
                id,
            ),
        decreases entries@.len() - i,
    {
        if entries[i].0 == id {
            return Some(entries[i].1);
        }
        proof {
            lemma_find_skips(entries@, id, i as int);
        }
        i = i + 1;
    }
    None
}

/// The values of identified entries, copied in order.
fn collect_values<T: Copy>(entries: &[(u64, T)]) -> (r: Vec<T>)
    ensures
        r@ == values_of(entries@),
{
    let mut out: Vec<T> = Vec::new();
    let mut i: usize = 0;
    while i < entries.len()
        invariant
            i <= entries@.len(),
            out@ == values_of(entries@.subrange(0, i as int)),
        decreases entries@.len() - i,
    {
        out.push(entries[i].1);
        i = i + 1;
        assert(values_of(entries@.subrange(0, i as int)) =~= values_of(
            entries@.subrange(0, i - 1 as int),
        ).push(entries@[i - 1].1));
    }
    assert(entries@.subrange(0, entries@.len() as int) =~= entries@);
    out
}

/// The transaction's identifier, or zero for a null handle.
pub fn completed_transaction_get_transaction_id(transaction: Option<&TariCompletedTransaction>) -> (r: u64)
    ensures
        r == match transaction {
            Some(t) => t.tx_id,
            None => 0,
        },
{
    match transaction {
        Some(t) => t.tx_id,
        None => 0,
    }
}

/// The counterparty's public key, or null for a null handle.
pub fn completed_transaction_get_destination_public_key(transaction: Option<&TariCompletedTransaction>) -> (r: Option<TariPublicKey>)
    ensures
        r == match transaction {
            Some(t) => Some(t.destination_public_key),
            None => None::<TariPublicKey>,
        },
{
    match transaction {
        Some(t) => Some(t.destination_public_key),
        None => None,
    }
}

/// The amount transferred, or zero for a null handle.
pub fn completed_transaction_get_amount(transaction: Option<&TariCompletedTransaction>) -> (r: u64)
    ensures
        r == match transaction {
            Some(t) => t.amount,
            None => 0,
        },
{
    match transaction {
        Some(t) => t.amount,
        None => 0,
    }
}

/// The fee paid, or zero for a null handle.
pub fn completed_transaction_get_fee(transaction: Option<&TariCompletedTransaction>) -> (r: u64)
    ensures
        r == match transaction {
            Some(t) => t.fee,
            None => 0,
        },
{
    match transaction {
        Some(t) => t.fee,
        None => 0,
    }
}

/// The transaction's time in seconds since the epoch, or zero for a null handle.
pub fn completed_transaction_get_transaction_timestamp(transaction: Option<&TariCompletedTransaction>) -> (r: i64)
    ensures
        r == match transaction {
            Some(t) => t.timestamp,
            None => 0,
        },
{
    match transaction {
        Some(t) => t.timestamp,
        None => 0,
    }
}

/// Releases a transaction. A null handle is accepted and nothing happens.
pub fn completed_transaction_destroy(transaction: Option<TariCompletedTransaction>) {
    let _ = transaction;
}

/// The transaction's identifier, or zero for a null handle.
pub fn pending_outbound_transaction_get_transaction_id(transaction: Option<&TariPendingOutboundTransaction>) -> (r: u64)
    ensures
        r == match transaction {
            Some(t) => t.tx_id,
            None => 0,
        },
{
    match transaction {
        Some(t) => t.tx_id,
        None => 0,
    }
}

/// The counterparty's public key, or null for a null handle.
pub fn pending_outbound_transaction_get_destination_public_key(transaction: Option<&TariPendingOutboundTransaction>) -> (r: Option<TariPublicKey>)
    ensures
        r == match transaction {
            Some(t) => Some(t.destination_public_key),
            None => None::<TariPublicKey>,
        },
{
    match transaction {
        Some(t) => Some(t.destination_public_key),
        None => None,
    }
}

/// The amount transferred, or zero for a null handle.
pub fn pending_outbound_transaction_get_amount(transaction: Option<&TariPendingOutboundTransaction>) -> (r: u64)
    ensures
        r == match transaction {
            Some(t) => t.amount,
            None => 0,
        },
{
    match transaction {
        Some(t) => t.amount,
        None => 0,
    }
}

/// The transaction's time in seconds since the epoch, or zero for a null handle.
pub fn pending_outbound_transaction_get_transaction_timestamp(transaction: Option<&TariPendingOutboundTransaction>) -> (r: i64)
    ensures
        r == match transaction {
            Some(t) => t.timestamp,
            None => 0,
        },
{
    match transaction {
        Some(t) => t.timestamp,
        None => 0,
    }
}

/// Releases a transaction. A null handle is accepted and nothing happens.
pub fn pending_outbound_transaction_destroy(transaction: Option<TariPendingOutboundTransaction>) {
    let _ = transaction;
}

/// The transaction's identifier, or zero for a null handle.
pub fn pending_inbound_transaction_get_transaction_id(transaction: Option<&TariPendingInboundTransaction>) -> (r: u64)
    ensures
        r == match transaction {
            Some(t) => t.tx_id,
            None => 0,
        },
{
    match transaction {
        Some(t) => t.tx_id,
        None => 0,
    }
}

/// The counterparty's public key, or null for a null handle.
pub fn pending_inbound_transaction_get_source_public_key(transaction: Option<&TariPendingInboundTransaction>) -> (r: Option<TariPublicKey>)
    ensures
        r == match transaction {
            Some(t) => Some(t.source_public_key),
            None => None::<TariPublicKey>,
        },
{
    match transaction {
        Some(t) => Some(t.source_public_key),
        None => None,
    }
}

/// The amount transferred, or zero for a null handle.
pub fn pending_inbound_transaction_get_amount(transaction: Option<&TariPendingInboundTransaction>) -> (r: u64)
    ensures
        r == match transaction {
            Some(t) => t.amount,
            None => 0,
        },
{
    match transaction {
        Some(t) => t.amount,
        None => 0,
    }
}

/// The transaction's time in seconds since the epoch, or zero for a null handle.
pub fn pending_inbound_transaction_get_transaction_timestamp(transaction: Option<&TariPendingInboundTransaction>) -> (r: i64)
    ensures
        r == match transaction {
            Some(t) => t.timestamp,
            None => 0,
        },
{
    match transaction {
        Some(t) => t.timestamp,
        None => 0,
    }
}

/// Releases a transaction. A null handle is accepted and nothing happens.
pub fn pending_inbound_transaction_destroy(transaction: Option<TariPendingInboundTransaction>) {
    let _ = transaction;
}

/// A snapshot of the wallet's completed transactions, in the order the store gave them.
pub struct TariCompletedTransactions(Vec<TariCompletedTransaction>);

impl View for TariCompletedTransactions {
    type V = Seq<TariCompletedTransaction>;

    closed spec fn view(&self) -> Seq<TariCompletedTransaction> {
        self.0@
    }
}

impl TariCompletedTransactions {
    #[verifier::type_invariant]
    closed spec fn fits_count(self) -> bool {
        self.0@.len() <= u32::MAX
    }

    /// A snapshot of the values of identified entries, in order.
    pub fn from_entries(entries: &[(u64, TariCompletedTransaction)]) -> (r: TariCompletedTransactions)
        requires
            entries@.len() <= u32::MAX,
        ensures
            r@ == values_of(entries@),
    {
        TariCompletedTransactions(collect_values(entries))
    }
}

/// The number of transactions, or zero for a null handle.
pub fn completed_transactions_get_length(transactions: Option<&TariCompletedTransactions>) -> (r: u32)
    ensures
        r == match transactions {
            Some(c) => c@.len(),
            None => 0,
        },
{
    match transactions {
        None => 0,
        Some(c) => {
            proof {
                use_type_invariant(c);
            }
            c.0.len() as u32
        },
    }
}

/// A copy of the transaction at `position`, or null for a null handle or a
/// position at or past the end.
pub fn completed_transactions_get_at(transactions: Option<&TariCompletedTransactions>, position: u32) -> (r: Option<TariCompletedTransaction>)
    ensures
        r == match transactions {
            Some(c) => if position < c@.len() {
                Some(c@[position as int])
            } else {
                None
            },
            None => None::<TariCompletedTransaction>,
        },
{
    match transactions {
        None => None,
        Some(c) => {
            if (position as usize) < c.0.len() {
                Some(c.0[position as usize])
            } else {
                None
            }
        },
    }
}

/// Releases a transaction collection. A null handle is accepted and nothing happens.
pub fn completed_transactions_destroy(transactions: Option<TariCompletedTransactions>) {
    let _ = transactions;
}

/// A snapshot of the wallet's pending outbound transactions, in the order the store gave them.
pub struct TariPendingOutboundTransactions(Vec<TariPendingOutboundTransaction>);

impl View for TariPendingOutboundTransactions {
    type V = Seq<TariPendingOutboundTransaction>;

    closed spec fn view(&self) -> Seq<TariPendingOutboundTransaction> {
        self.0@
    }
}

impl TariPendingOutboundTransactions {
    #[verifier::type_invariant]
    closed spec fn fits_count(self) -> bool {
        self.0@.len() <= u32::MAX
    }

    /// A snapshot of the values of identified entries, in order.
    pub fn from_entries(entries: &[(u64, TariPendingOutboundTransaction)]) -> (r: TariPendingOutboundTransactions)
        requires
            entries@.len() <= u32::MAX,
        ensures
            r@ == values_of(entries@),
    {
        TariPendingOutboundTransactions(collect_values(entries))
    }
}

/// The number of transactions, or zero for a null handle.
pub fn pending_outbound_transactions_get_length(transactions: Option<&TariPendingOutboundTransactions>) -> (r: u32)
    ensures
        r == match transactions {
            Some(c) => c@.len(),
            None => 0,
        },
{
    match transactions {
        None => 0,
        Some(c) => {
            proof {
                use_type_invariant(c);
            }
            c.0.len() as u32
        },
    }
}

/// A copy of the transaction at `position`, or null for a null handle or a
/// position at or past the end.
pub fn pending_outbound_transactions_get_at(transactions: Option<&TariPendingOutboundTransactions>, position: u32) -> (r: Option<TariPendingOutboundTransaction>)
    ensures
        r == match transactions {
            Some(c) => if position < c@.len() {
                Some(c@[position as int])
            } else {
                None
            },
            None => None::<TariPendingOutboundTransaction>,
        },
{
    match transactions {
        None => None,
        Some(c) => {
            if (position as usize) < c.0.len() {
                Some(c.0[position as usize])
            } else {
                None
            }
        },
    }
}

/// Releases a transaction collection. A null handle is accepted and nothing happens.
pub fn pending_outbound_transactions_destroy(transactions: Option<TariPendingOutboundTransactions>) {
    let _ = transactions;
}

/// A snapshot of the wallet's pending inbound transactions, in the order the store gave them.
pub struct TariPendingInboundTransactions(Vec<TariPendingInboundTransaction>);

impl View for TariPendingInboundTransactions {
    type V = Seq<TariPendingInboundTransaction>;

    closed spec fn view(&self) -> Seq<TariPendingInboundTransaction> {
        self.0@
    }
}

impl TariPendingInboundTransactions {
    #[verifier::type_invariant]
    closed spec fn fits_count(self) -> bool {
        self.0@.len() <= u32::MAX
    }

    /// A snapshot of the values of identified entries, in order.
    pub fn from_entries(entries: &[(u64, TariPendingInboundTransaction)]) -> (r: TariPendingInboundTransactions)
        requires
            entries@.len() <= u32::MAX,
        ensures
            r@ == values_of(entries@),
    {
        TariPendingInboundTransactions(collect_values(entries))
    }
}

/// The number of transactions, or zero for a null handle.
pub fn pending_inbound_transactions_get_length(transactions: Option<&TariPendingInboundTransactions>) -> (r: u32)
    ensures
        r == match transactions {
            Some(c) => c@.len(),
            None => 0,
        },
{
    match transactions {
        None => 0,
        Some(c) => {
            proof {
                use_type_invariant(c);
            }
            c.0.len() as u32
        },
    }
}

/// A copy of the transaction at `position`, or null for a null handle or a
/// position at or past the end.
pub fn pending_inbound_transactions_get_at(transactions: Option<&TariPendingInboundTransactions>, position: u32) -> (r: Option<TariPendingInboundTransaction>)
    ensures
        r == match transactions {
            Some(c) => if position < c@.len() {
                Some(c@[position as int])
            } else {
                None
            },
            None => None::<TariPendingInboundTransaction>,
        },
{
    match transactions {
        None => None,
        Some(c) => {
            if (position as usize) < c.0.len() {
                Some(c.0[position as usize])
            } else {
                None
            }
        },
    }
}

/// Releases a transaction collection. A null handle is accepted and nothing happens.
pub fn pending_inbound_transactions_destroy(transactions: Option<TariPendingInboundTransactions>) {
    let _ = transactions;
}

} // verus!
