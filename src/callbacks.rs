//! The callback registry: at most one registered function per event kind, and
//! the dispatch of the wallet engine's events to them.
use crate::transactions::{TariCompletedTransaction, TariPendingInboundTransaction};
use vstd::prelude::*;

verus! {

/// An event that the wallet engine reports.
#[derive(Clone, Copy, Debug)]
pub enum WalletEvent {
    /// A transaction from another wallet has arrived.
    ReceivedTransaction(TariPendingInboundTransaction),
    /// The recipient of a transaction this wallet sent has replied, completing it.
    ReceivedTransactionReply(TariCompletedTransaction),
}

/// One call of a registered function, with the transaction handed to it.
#[derive(Clone, Copy, Debug)]
pub enum Invocation<F, G> {
    ReceivedTransaction(F, TariPendingInboundTransaction),
    ReceivedTransactionReply(G, TariCompletedTransaction),
}

/// The registered functions: `F` for received transactions, `G` for replies.
pub struct CallbackRegistry<F, G> {
    received_transaction: Option<F>,
    received_transaction_reply: Option<G>,
}

impl<F, G> View for CallbackRegistry<F, G> {
    type V = (Option<F>, Option<G>);

    closed spec fn view(&self) -> (Option<F>, Option<G>) {
        (self.received_transaction, self.received_transaction_reply)
    }
}

/// The calls that one event causes under the given slots: one call when its
/// slot holds a function, none otherwise.
pub open spec fn invocations_for<F, G>(slots: (Option<F>, Option<G>), event: WalletEvent) -> Seq<
    Invocation<F, G>,
> {
    match event {
        WalletEvent::ReceivedTransaction(t) => match slots.0 {
            Some(f) => seq![Invocation::ReceivedTransaction(f, t)],
            None => Seq::empty(),
        },
        WalletEvent::ReceivedTransactionReply(t) => match slots.1 {
            Some(g) => seq![Invocation::ReceivedTransactionReply(g, t)],
            None => Seq::empty(),
        },
    }
}

/// The calls that a run of events causes, in the order the events came.
pub open spec fn invocations<F, G>(slots: (Option<F>, Option<G>), events: Seq<WalletEvent>) -> Seq<
    Invocation<F, G>,
>
    decreases events.len(),
{
    if events.len() == 0 {
        Seq::empty()
    } else {
        invocations(slots, events.drop_last()) + invocations_for(slots, events.last())
    }
}

/// Whether an invocation calls the given function for the event's kind and
/// hands over exactly the transaction that the event carries.
pub open spec fn answers<F, G>(call: Invocation<F, G>, event: WalletEvent, f: F, g: G) -> bool {
    match (call, event) {
        (Invocation::ReceivedTransaction(c, a), WalletEvent::ReceivedTransaction(b)) => c == f && a
            == b,
        (Invocation::ReceivedTransactionReply(c, a), WalletEvent::ReceivedTransactionReply(b)) => c
            == g && a == b,
        _ => false,
    }
}

/// With both slots empty, no event ever causes a call.
pub proof fn lemma_unregistered_never_invoked<F, G>(events: Seq<WalletEvent>)
    ensures
        invocations((None::<F>, None::<G>), events) == Seq::<Invocation<F, G>>::empty(),
    decreases events.len(),
{
    if events.len() > 0 {
        lemma_unregistered_never_invoked::<F, G>(events.drop_last());
        assert(invocations((None::<F>, None::<G>), events) =~= Seq::<Invocation<F, G>>::empty());
    }
}

/// With both slots registered, every event causes exactly one call, of the
/// function registered for its kind, with its transaction, in the order the
/// events came.
pub proof fn lemma_registered_invoked_once<F, G>(f: F, g: G, events: Seq<WalletEvent>)
    ensures
        invocations((Some(f), Some(g)), events).len() == events.len(),
        forall|i: int|
            0 <= i < events.len() ==> answers(
                #[trigger] invocations((Some(f), Some(g)), events)[i],
                events[i],
                f,
                g,
            ),
    decreases events.len(),
{
    if events.len() > 0 {
        let prefix = events.drop_last();
        lemma_registered_invoked_once(f, g, prefix);
        let calls = invocations((Some(f), Some(g)), events);
        assert forall|i: int| 0 <= i < events.len() implies answers(calls[i], events[i], f, g) by {
            if i < prefix.len() {
                assert(calls[i] == invocations((Some(f), Some(g)), prefix)[i]);
                assert(events[i] == prefix[i]);
            }
        }
    }
}

/// The transactions of the received-transaction events, in the order the events came.
pub open spec fn received_of(events: Seq<WalletEvent>) -> Seq<TariPendingInboundTransaction>
    decreases events.len(),
{
    if events.len() == 0 {
        Seq::empty()
    } else {
        let rest = received_of(events.drop_last());
        match events.last() {
            WalletEvent::ReceivedTransaction(t) => rest.push(t),
            WalletEvent::ReceivedTransactionReply(_) => rest,
        }
    }
}

/// The transactions of the reply events, in the order the events came.
pub open spec fn replies_of(events: Seq<WalletEvent>) -> Seq<TariCompletedTransaction>
    decreases events.len(),
{
    if events.len() == 0 {
        Seq::empty()
    } else {
        let rest = replies_of(events.drop_last());
        match events.last() {
            WalletEvent::ReceivedTransactionReply(t) => rest.push(t),
            WalletEvent::ReceivedTransaction(_) => rest,
        }
    }
}

/// The calls for received transactions, with their functions and transactions, in order.
pub open spec fn received_calls<F, G>(calls: Seq<Invocation<F, G>>) -> Seq<
    (F, TariPendingInboundTransaction),
>
    decreases calls.len(),
{
    if calls.len() == 0 {
        Seq::empty()
    } else {
        let rest = received_calls(calls.drop_last());
        match calls.last() {
            Invocation::ReceivedTransaction(f, t) => rest.push((f, t)),
            Invocation::ReceivedTransactionReply(_, _) => rest,
        }
    }
}

/// The calls for replies, with their functions and transactions, in order.
pub open spec fn reply_calls<F, G>(calls: Seq<Invocation<F, G>>) -> Seq<(G, TariCompletedTransaction)>
    decreases calls.len(),
{
    if calls.len() == 0 {
        Seq::empty()
    } else {
        let rest = reply_calls(calls.drop_last());
        match calls.last() {
            Invocation::ReceivedTransactionReply(g, t) => rest.push((g, t)),
            Invocation::ReceivedTransaction(_, _) => rest,
        }
    }
}

/// For each event kind on its own, whatever the other slot holds and however
/// the kinds are mixed: while a function is registered for the kind, every
/// event of that kind causes exactly one call of that function with the
/// event's transaction, in the order the events came; while the slot is
/// empty, no call of that kind is made.
pub proof fn lemma_each_kind_invoked_once_per_event<F, G>(
    slots: (Option<F>, Option<G>),
    events: Seq<WalletEvent>,
)
    ensures
        received_calls(invocations(slots, events)) == match slots.0 {
            Some(f) => received_of(events).map_values(|t: TariPendingInboundTransaction| (f, t)),
            None => Seq::empty(),
        },
        reply_calls(invocations(slots, events)) == match slots.1 {
            Some(g) => replies_of(events).map_values(|t: TariCompletedTransaction| (g, t)),
            None => Seq::empty(),
        },
    decreases events.len(),
{
    if events.len() > 0 {
        let prefix = events.drop_last();
        lemma_each_kind_invoked_once_per_event(slots, prefix);
        let before = invocations(slots, prefix);
        let step = invocations_for(slots, events.last());
        let all = invocations(slots, events);
        assert(all == before + step);
        if step.len() == 0 {
            assert(all =~= before);
        } else {
            assert(all.drop_last() =~= before);
            assert(all.last() == step[0]);
        }
        match slots.0 {
            Some(f) => {
                assert(received_calls(all) =~= received_of(events).map_values(
                    |t: TariPendingInboundTransaction| (f, t),
                ));
            },
            None => {
                assert(received_calls(all) =~= Seq::<(F, TariPendingInboundTransaction)>::empty());
            },
        }
        match slots.1 {
            Some(g) => {
                assert(reply_calls(all) =~= replies_of(events).map_values(
                    |t: TariCompletedTransaction| (g, t),
                ));
            },
            None => {
                assert(reply_calls(all) =~= Seq::<(G, TariCompletedTransaction)>::empty());
            },
        }
    }
}

impl<F: Copy, G: Copy> CallbackRegistry<F, G> {
    /// A registry with every slot empty.
    pub fn new() -> (r: Self)
        ensures
            r@ == (None::<F>, None::<G>),
    {
        CallbackRegistry { received_transaction: None, received_transaction_reply: None }
    }

    /// Registers the function for received transactions, replacing any earlier one.
    pub fn register_received_transaction(&mut self, call: F)
        ensures
            final(self)@ == (Some(call), old(self)@.1),
    {
        self.received_transaction = Some(call);
    }

    /// Registers the function for transaction replies, replacing any earlier one.
    pub fn register_received_transaction_reply(&mut self, call: G)
        ensures
            final(self)@ == (old(self)@.0, Some(call)),
    {
        self.received_transaction_reply = Some(call);
    }

    /// The calls to make for a run of events, in the order the events came.
    pub fn dispatch(&self, events: &[WalletEvent]) -> (r: Vec<Invocation<F, G>>)
        ensures
            r@ == invocations(self@, events@),
    {
        let mut out: Vec<Invocation<F, G>> = Vec::new();
        let mut i: usize = 0;
        while i < events.len()
            invariant
                i <= events@.len(),
                out@ == invocations(self@, events@.subrange(0, i as int)),
            decreases events@.len() - i,
        {
            let event = events[i];
            match event {
                WalletEvent::ReceivedTransaction(t) => match self.received_transaction {
                    Some(f) => out.push(Invocation::ReceivedTransaction(f, t)),
                    None => {},
                },
                WalletEvent::ReceivedTransactionReply(t) => match self.received_transaction_reply {
                    Some(g) => out.push(Invocation::ReceivedTransactionReply(g, t)),
                    None => {},
                },
            }
            proof {
                assert(events@.subrange(0, i + 1 as int).drop_last() =~= events@.subrange(
                    0,
                    i as int,
                ));
            }
            i = i + 1;
        }
        assert(events@.subrange(0, events@.len() as int) =~= events@);
        out
    }
}

/// Registers the function for received transactions on a wallet's registry;
/// false, with nothing registered, for a null handle.
pub fn wallet_call_back_register_received_transaction<F: Copy, G: Copy>(
    wallet: Option<&mut CallbackRegistry<F, G>>,
    call: F,
) -> (r: bool)
    ensures
        r == (wallet is Some),
        wallet is Some ==> (*final(wallet->0))@ == (Some(call), (*wallet->0)@.1),
{
    match wallet {
        Some(w) => {
            w.register_received_transaction(call);
            true
        },
        None => false,
    }
}

/// Registers the function for transaction replies on a wallet's registry;
/// false, with nothing registered, for a null handle.
pub fn wallet_call_back_register_received_transaction_reply<F: Copy, G: Copy>(
    wallet: Option<&mut CallbackRegistry<F, G>>,
    call: G,
) -> (r: bool)
    ensures
        r == (wallet is Some),
        wallet is Some ==> (*final(wallet->0))@ == ((*wallet->0)@.0, Some(call)),
{
    match wallet {
        Some(w) => {
            w.register_received_transaction_reply(call);
            true
        },
        None => false,
    }
}

} // verus!
