//! The dispatcher: owns the handler chain, the event bus and the bookkeeping
//! of funding transitions, and reacts to commands and protocol events.
use vstd::prelude::*;
use vstd::string::StringExecFns;
use crate::bus::{EventBus, Subscription};
use std::sync::Arc;
use crate::chain::{command_method, after_outcome, consult_from, Command, HandlerChain, HandlerOutcome, ReactStep};
use crate::error::LampoError;
use crate::event::{purpose_preimage, purpose_secret, DomainEvent, PaymentPurpose, PaymentState, ProtocolEvent};
use crate::funding::{
    end_event, is_estimate_failure_notice, start_event, FeeEstimated, FundingRequest,
    TransactionBuilt, CHANNEL_OPENING_ERROR,
};

verus! {

/// A payment whose claim completed, with the secrets its purpose gave.
/// Claimed payments are not kept by the dispatcher: storing them is up to
/// whoever receives this.
#[derive(Debug, Clone, PartialEq, Eq)]
pub struct ClaimedPayment {
    pub payment_hash: String,
    pub amount_msat: u64,
    pub payment_preimage: Option<String>,
    pub payment_secret: Option<String>,
}

/// What is left to do once a protocol event has been handled.
#[derive(Debug, Clone, PartialEq, Eq)]
pub enum Reaction {
    /// Nothing.
    Done,
    /// Ask the chain backend for a fee rate (`FEE_TARGET_BLOCKS` target) and
    /// hand it to `fee_rate_estimated`.
    EstimateFeeRate(FundingRequest),
    /// Ask the channel engine to claim the payment with this preimage.
    ClaimFunds(String),
    /// Ask the channel engine to flush the HTLCs awaiting forwarding.
    ProcessPendingHtlcForwards,
    /// A payment was claimed.
    PaymentClaimed(ClaimedPayment),
}

/// The temporary channel id a funding event is about.
pub open spec fn funding_id(e: ProtocolEvent) -> Option<String> {
    match e {
        ProtocolEvent::FundingGenerationReady { temporary_channel_id, .. } => Some(
            temporary_channel_id,
        ),
        _ => None,
    }
}

/// The funding request a funding event carries.
pub open spec fn funding_request_of(e: ProtocolEvent) -> FundingRequest {
    match e {
        ProtocolEvent::FundingGenerationReady {
            temporary_channel_id,
            counterparty_node_id,
            channel_value_satoshis,
            output_script,
        } => FundingRequest {
            temporary_channel_id,
            counterparty_node_id,
            channel_value_satoshis,
            output_script,
        },
        _ => arbitrary(),
    }
}

/// The domain event emitted on handling `e`, where `busy` says whether a
/// funding transition for its channel is already running.
pub open spec fn announcement(e: ProtocolEvent, busy: bool) -> Option<DomainEvent> {
    match e {
        ProtocolEvent::ChannelReady { channel_id, counterparty_node_id, channel_type } => Some(
            DomainEvent::ChannelReady { counterparty_node_id, channel_id, channel_type },
        ),
        ProtocolEvent::ChannelClosed {
            channel_id,
            reason,
            counterparty_node_id,
            channel_funding_txo,
            ..
        } => Some(
            DomainEvent::CloseChannelEvent {
                channel_id,
                reason_message: reason,
                counterparty_node_id,
                funding_outpoint: channel_funding_txo,
            },
        ),
        ProtocolEvent::FundingGenerationReady { .. } => if busy {
            None
        } else {
            Some(start_event(funding_request_of(e)))
        },
        ProtocolEvent::ChannelPending { counterparty_node_id, funding_txo } => Some(
            DomainEvent::ChannelPending {
                counterparty_node_id,
                funding_transaction_outpoint: funding_txo,
            },
        ),
        ProtocolEvent::PaymentPathSuccessful { payment_hash, hops } => Some(
            DomainEvent::PaymentEvent { state: PaymentState::Success, payment_hash, hop_path: hops },
        ),
        _ => None,
    }
}

/// What handling `e` returns, where `busy` says whether a funding transition
/// for its channel is already running.
pub open spec fn reaction(e: ProtocolEvent, busy: bool) -> Result<Reaction, LampoError> {
    match e {
        ProtocolEvent::OpenChannelRequest { temporary_channel_id, .. } => Err(
            LampoError::UnsupportedFeature(temporary_channel_id),
        ),
        ProtocolEvent::FundingGenerationReady { temporary_channel_id, .. } => if busy {
            Err(LampoError::FundingInProgress(temporary_channel_id))
        } else {
            Ok(Reaction::EstimateFeeRate(funding_request_of(e)))
        },
        ProtocolEvent::PendingHTLCsForwardable => Ok(Reaction::ProcessPendingHtlcForwards),
        ProtocolEvent::PaymentClaimable { payment_hash, purpose, .. } => match purpose_preimage(
            purpose,
        ) {
            Some(preimage) => Ok(Reaction::ClaimFunds(preimage)),
            None => Err(LampoError::MissingPreimage(payment_hash)),
        },
        ProtocolEvent::PaymentClaimed { payment_hash, amount_msat, purpose } => Ok(
            Reaction::PaymentClaimed(
                ClaimedPayment {
                    payment_hash,
                    amount_msat,
                    payment_preimage: purpose_preimage(purpose),
                    payment_secret: purpose_secret(purpose),
                },
            ),
        ),
        ProtocolEvent::Other { kind } => Err(LampoError::UnexpectedProtocolEvent(kind)),
        _ => Ok(Reaction::Done),
    }
}

/// `log` after emitting `e`, if any.
pub open spec fn emit_opt(log: Seq<DomainEvent>, e: Option<DomainEvent>) -> Seq<DomainEvent> {
    match e {
        Some(d) => log.push(d),
        None => log,
    }
}

/// The dispatcher, over external handlers of type `H`.
pub struct LampoHandler<H> {
    external_handlers: HandlerChain<H>,
    bus: EventBus,
    funding_in_flight: Vec<String>,
}

impl<H> LampoHandler<H> {
    /// The registered handlers, in registration order.
    pub closed spec fn handlers(&self) -> Seq<H> {
        self.external_handlers@
    }

    /// Every domain event emitted so far, in order.
    pub closed spec fn emitted(&self) -> Seq<DomainEvent> {
        self.bus@
    }

    /// Whether a funding transition for temporary channel id `id` is running.
    pub closed spec fn is_funding(&self, id: Seq<char>) -> bool {
        exists|k: int| 0 <= k < self.funding_in_flight@.len() && #[trigger] self.funding_in_flight@[k]@ == id
    }

    /// At most one running funding transition per temporary channel id.
    pub closed spec fn wf(&self) -> bool {
        &&& self.bus.wf()
        &&& forall|i: int, j: int|
            0 <= i < j < self.funding_in_flight@.len() ==> #[trigger] self.funding_in_flight@[i]@
                != #[trigger] self.funding_in_flight@[j]@
    }

    /// Whether a funding transition for the channel of `e` is running.
    pub open spec fn busy_with(&self, e: ProtocolEvent) -> bool {
        funding_id(e) matches Some(t) && self.is_funding(t@)
    }

    /// A dispatcher with no handler, nothing emitted and no funding running.
    pub fn new() -> (r: Self)
        ensures
            r.wf(),
            r.handlers() == Seq::<H>::empty(),
            r.emitted() == Seq::<DomainEvent>::empty(),
            forall|id: Seq<char>| !r.is_funding(id),
    {
        LampoHandler {
            external_handlers: HandlerChain::new(),
            bus: EventBus::new(),
            funding_in_flight: Vec::new(),
        }
    }

    /// Appends `handler` to the chain; later commands may be resolved by it.
    pub fn add_external_handler(&mut self, handler: H) -> (r: Result<(), LampoError>)
        requires
            old(self).wf(),
        ensures
            r is Ok,
            final(self).wf(),
            final(self).handlers() == old(self).handlers().push(handler),
            final(self).emitted() == old(self).emitted(),
            forall|id: Seq<char>| final(self).is_funding(id) == old(self).is_funding(id),
    {
        self.external_handlers.register(handler);
        assert(self.funding_in_flight@ == old(self).funding_in_flight@);
        Ok(())
    }

    /// Number of registered handlers.
    pub fn handler_count(&self) -> (r: usize)
        ensures
            r == self.handlers().len(),
    {
        self.external_handlers.len()
    }

    /// The handler at position `i` of the chain.
    pub fn handler(&self, i: usize) -> (r: &H)
        requires
            i < self.handlers().len(),
        ensures
            *r == self.handlers()[i as int],
    {
        self.external_handlers.get(i)
    }

    /// First step of resolving `command` against the chain.
    pub fn react(&self, command: &Command) -> (r: ReactStep)
        ensures
            r == consult_from(self.handlers().len(), command_method(*command), 0),
    {
        self.external_handlers.begin(command)
    }

    /// Step of resolving `command` after handler `index` gave `outcome`.
    pub fn react_next(&self, command: &Command, index: usize, outcome: HandlerOutcome) -> (r:
        ReactStep)
        requires
            index < self.handlers().len(),
        ensures
            r == after_outcome(self.handlers().len(), command_method(*command), index as nat, outcome),
    {
        self.external_handlers.advance(command, index, outcome)
    }

    /// Broadcasts `event` to every current subscriber.
    pub fn emit(&mut self, event: DomainEvent)
        requires
            old(self).wf(),
        ensures
            final(self).wf(),
            final(self).emitted() == old(self).emitted().push(event),
            final(self).event_bus().keeps_only_unreceived(),
            forall|id: nat| #[trigger] final(self).event_bus().position(id)
                == old(self).event_bus().position(id),
            final(self).handlers() == old(self).handlers(),
            forall|id: Seq<char>| final(self).is_funding(id) == old(self).is_funding(id),
    {
        self.bus.emit(event);
        assert(self.funding_in_flight@ == old(self).funding_in_flight@);
    }

    /// The event bus of the dispatcher.
    pub closed spec fn event_bus(&self) -> EventBus {
        self.bus
    }

    /// Opens a subscription that observes only the events emitted from now on.
    pub fn events(&mut self) -> (r: Subscription)
        requires
            old(self).wf(),
        ensures
            final(self).wf(),
            final(self).event_bus().keeps_only_unreceived(),
            final(self).event_bus().position(r.id as nat) == Some(old(self).emitted().len()),
            forall|id: nat| id != r.id ==> #[trigger] final(self).event_bus().position(id)
                == old(self).event_bus().position(id),
            final(self).emitted() == old(self).emitted(),
            final(self).handlers() == old(self).handlers(),
            forall|x: Seq<char>| final(self).is_funding(x) == old(self).is_funding(x),
    {
        let r = self.bus.subscribe();
        assert(self.funding_in_flight@ == old(self).funding_in_flight@);
        r
    }

    /// The next event for `sub`, if one was emitted since it last received;
    /// each event is handed to a subscription at most once.
    pub fn next_event(&mut self, sub: Subscription) -> (r: Option<Arc<DomainEvent>>)
        requires
            old(self).wf(),
        ensures
            final(self).wf(),
            final(self).event_bus().keeps_only_unreceived(),
            final(self).emitted() == old(self).emitted(),
            final(self).handlers() == old(self).handlers(),
            forall|x: Seq<char>| final(self).is_funding(x) == old(self).is_funding(x),
            forall|id: nat| id != sub.id ==> #[trigger] final(self).event_bus().position(id)
                == old(self).event_bus().position(id),
            match old(self).event_bus().position(sub.id as nat) {
                Some(p) => if p < old(self).emitted().len() {
                    &&& r matches Some(e) && *e == old(self).emitted()[p as int]
                    &&& final(self).event_bus().position(sub.id as nat) == Some(p + 1)
                } else {
                    r is None && final(self).event_bus().position(sub.id as nat) == Some(p)
                },
                None => r is None && final(self).event_bus().position(sub.id as nat) is None,
            },
    {
        let r = self.bus.receive(sub);
        assert(self.funding_in_flight@ == old(self).funding_in_flight@);
        r
    }

    /// Closes `sub`; events only it still awaited are dropped.
    pub fn close_events(&mut self, sub: Subscription)
        requires
            old(self).wf(),
        ensures
            final(self).wf(),
            final(self).event_bus().keeps_only_unreceived(),
            final(self).event_bus().position(sub.id as nat) is None,
            forall|id: nat| id != sub.id ==> #[trigger] final(self).event_bus().position(id)
                == old(self).event_bus().position(id),
            final(self).emitted() == old(self).emitted(),
            final(self).handlers() == old(self).handlers(),
            forall|x: Seq<char>| final(self).is_funding(x) == old(self).is_funding(x),
    {
        self.bus.unsubscribe(sub);
        assert(self.funding_in_flight@ == old(self).funding_in_flight@);
    }

    fn funding_position(&self, id: &String) -> (r: Option<usize>)
        ensures
            r matches Some(k) ==> k < self.funding_in_flight@.len() && self.funding_in_flight@[k as int]@
                == id@,
            r is None ==> !self.is_funding(id@),
    {
        let mut i: usize = 0;
        while i < self.funding_in_flight.len()
            invariant
                i <= self.funding_in_flight@.len(),
                forall|k: int| 0 <= k < i ==> self.funding_in_flight@[k]@ != id@,
            decreases self.funding_in_flight@.len() - i,
        {
            if self.funding_in_flight[i] == *id {
                return Some(i);
            }
            i = i + 1;
        }
        None
    }

    fn release(&mut self, id: &String)
        requires
            old(self).wf(),
        ensures
            final(self).wf(),
            final(self).emitted() == old(self).emitted(),
            final(self).handlers() == old(self).handlers(),
            forall|x: Seq<char>| final(self).is_funding(x) == (old(self).is_funding(x) && x != id@),
    {
        match self.funding_position(id) {
            Some(k) => {
                let ghost before = self.funding_in_flight@;
                self.funding_in_flight.remove(k);
                assert forall|x: Seq<char>| self.is_funding(x) == (old(self).is_funding(x) && x != id@) by {
                    if self.is_funding(x) {
                        let j = choose|j: int| 0 <= j < self.funding_in_flight@.len() && #[trigger] self.funding_in_flight@[j]@ == x;
                        if j < k {
                            assert(before[j]@ == x);
                        } else {
                            assert(before[j + 1]@ == x);
                        }
                    }
                    if old(self).is_funding(x) && x != id@ {
                        let j = choose|j: int| 0 <= j < before.len() && #[trigger] before[j]@ == x;
                        if j < k {
                            assert(self.funding_in_flight@[j]@ == x);
                        } else {
                            assert(self.funding_in_flight@[j - 1]@ == x);
                        }
                    }
                }
            },
            None => {},
        }
    }
}


/// `post` and `r` are what handling `e` from `pre` gives: the reaction owed to
/// `e`, its announcement emitted, and a funding transition recorded as running
/// when one starts.
pub open spec fn handled<H>(
    pre: LampoHandler<H>,
    e: ProtocolEvent,
    post: LampoHandler<H>,
    r: Result<Reaction, LampoError>,
) -> bool {
    let busy = pre.busy_with(e);
    &&& r == reaction(e, busy)
    &&& post.emitted() == emit_opt(pre.emitted(), announcement(e, busy))
    &&& post.handlers() == pre.handlers()
    &&& forall|x: Seq<char>|
        #[trigger] post.is_funding(x) == (pre.is_funding(x) || (funding_id(e) matches Some(t) && !busy
            && x == t@))
}

/// `post` and `r` are what the fee estimate `estimate` for `f` gives from
/// `pre`: on success the fee rate is passed on and nothing is emitted; on
/// failure an error notice is emitted, the transition ends and the failure is
/// returned.
pub open spec fn fee_step<H>(
    pre: LampoHandler<H>,
    f: FundingRequest,
    estimate: Result<u64, String>,
    post: LampoHandler<H>,
    r: Result<FeeEstimated, LampoError>,
) -> bool {
    &&& post.handlers() == pre.handlers()
    &&& match estimate {
        Ok(fee) => {
            &&& r matches Ok(s) && s.spec_funding() == f && s.spec_fee_rate() == fee
            &&& post.emitted() == pre.emitted()
            &&& forall|x: Seq<char>| #[trigger] post.is_funding(x) == pre.is_funding(x)
        },
        Err(err) => {
            &&& r == Err::<FeeEstimated, LampoError>(LampoError::CollaboratorFailure(err))
            &&& post.emitted().len() == pre.emitted().len() + 1
            &&& post.emitted().drop_last() == pre.emitted()
            &&& is_estimate_failure_notice(post.emitted().last(), err)
            &&& forall|x: Seq<char>|
                #[trigger] post.is_funding(x) == (pre.is_funding(x) && x != f.temporary_channel_id@)
        },
    }
}

/// `post` and `r` are what the wallet's answer `built` for `s` gives from
/// `pre`: on success the end of funding is emitted with the transaction and
/// the transaction is passed on; on failure the transition ends with nothing
/// emitted and the failure is returned.
pub open spec fn build_step<H>(
    pre: LampoHandler<H>,
    s: FeeEstimated,
    built: Result<String, String>,
    post: LampoHandler<H>,
    r: Result<TransactionBuilt, LampoError>,
) -> bool {
    &&& post.handlers() == pre.handlers()
    &&& match built {
        Ok(tx) => {
            &&& r matches Ok(t) && t.spec_funding() == s.spec_funding() && t.spec_transaction() == tx
            &&& post.emitted() == pre.emitted().push(end_event(s.spec_funding(), tx))
            &&& forall|x: Seq<char>| #[trigger] post.is_funding(x) == pre.is_funding(x)
        },
        Err(err) => {
            &&& r == Err::<TransactionBuilt, LampoError>(LampoError::CollaboratorFailure(err))
            &&& post.emitted() == pre.emitted()
            &&& forall|x: Seq<char>|
                #[trigger] post.is_funding(x) == (pre.is_funding(x) && x
                    != s.spec_funding().temporary_channel_id@)
        },
    }
}

/// `post` and `r` are what the engine's answer `result` to finalizing `t`
/// gives from `pre`: the transition ends, nothing is emitted, and a failure
/// is returned as such.
pub open spec fn finalize_step<H>(
    pre: LampoHandler<H>,
    t: TransactionBuilt,
    result: Result<(), String>,
    post: LampoHandler<H>,
    r: Result<(), LampoError>,
) -> bool {
    &&& post.handlers() == pre.handlers()
    &&& post.emitted() == pre.emitted()
    &&& forall|x: Seq<char>|
        #[trigger] post.is_funding(x) == (pre.is_funding(x) && x
            != t.spec_funding().temporary_channel_id@)
    &&& match result {
        Ok(()) => r is Ok,
        Err(err) => r == Err::<(), LampoError>(LampoError::CollaboratorFailure(err)),
    }
}

impl<H> LampoHandler<H> {
    fn start_funding(&mut self, id: &String)
        requires
            old(self).wf(),
            !old(self).is_funding(id@),
        ensures
            final(self).wf(),
            final(self).emitted() == old(self).emitted(),
            final(self).handlers() == old(self).handlers(),
            forall|x: Seq<char>| final(self).is_funding(x) == (old(self).is_funding(x) || x == id@),
    {
        let ghost before = self.funding_in_flight@;
        self.funding_in_flight.push(id.clone());
        assert(self.funding_in_flight@[before.len() as int]@ == id@);
        assert forall|x: Seq<char>| self.is_funding(x) == (old(self).is_funding(x) || x == id@) by {
            if old(self).is_funding(x) {
                let j = choose|j: int| 0 <= j < before.len() && #[trigger] before[j]@ == x;
                assert(self.funding_in_flight@[j]@ == x);
            }
        }
    }

    /// Reacts to a protocol event from the channel engine: emits the domain
    /// event it is announced by and says what is left to do. A funding event
    /// starts a funding transition, unless one runs for the same channel.
    pub fn handle(&mut self, event: ProtocolEvent) -> (r: Result<Reaction, LampoError>)
        requires
            old(self).wf(),
        ensures
            final(self).wf(),
            handled(*old(self), event, *final(self), r),
    {
        match event {
            ProtocolEvent::OpenChannelRequest { temporary_channel_id, .. } => {
                Err(LampoError::UnsupportedFeature(temporary_channel_id))
            },
            ProtocolEvent::ChannelReady { channel_id, counterparty_node_id, channel_type } => {
                self.emit(
                    DomainEvent::ChannelReady { counterparty_node_id, channel_id, channel_type },
                );
                Ok(Reaction::Done)
            },
            ProtocolEvent::ChannelClosed {
                channel_id,
                reason,
                counterparty_node_id,
                channel_funding_txo,
                ..
            } => {
                self.emit(
                    DomainEvent::CloseChannelEvent {
                        channel_id,
                        reason_message: reason,
                        counterparty_node_id,
                        funding_outpoint: channel_funding_txo,
                    },
                );
                Ok(Reaction::Done)
            },
            ProtocolEvent::FundingGenerationReady {
                temporary_channel_id,
                counterparty_node_id,
                channel_value_satoshis,
                output_script,
            } => {
                if self.funding_position(&temporary_channel_id).is_some() {
                    return Err(LampoError::FundingInProgress(temporary_channel_id));
                }
                self.emit(
                    DomainEvent::FundingChannelStart {
                        counterparty_node_id: counterparty_node_id.clone(),
                        temporary_channel_id: temporary_channel_id.clone(),
                        channel_value: channel_value_satoshis,
                    },
                );
                self.start_funding(&temporary_channel_id);
                Ok(
                    Reaction::EstimateFeeRate(
                        FundingRequest {
                            temporary_channel_id,
                            counterparty_node_id,
                            channel_value_satoshis,
                            output_script,
                        },
                    ),
                )
            },
            ProtocolEvent::ChannelPending { counterparty_node_id, funding_txo } => {
                self.emit(
                    DomainEvent::ChannelPending {
                        counterparty_node_id,
                        funding_transaction_outpoint: funding_txo,
                    },
                );
                Ok(Reaction::Done)
            },
            ProtocolEvent::PendingHTLCsForwardable => Ok(Reaction::ProcessPendingHtlcForwards),
            ProtocolEvent::PaymentClaimable { payment_hash, purpose, .. } => {
                match purpose.into_preimage() {
                    Some(preimage) => Ok(Reaction::ClaimFunds(preimage)),
                    None => Err(LampoError::MissingPreimage(payment_hash)),
                }
            },
            ProtocolEvent::PaymentClaimed { payment_hash, amount_msat, purpose } => {
                let (payment_preimage, payment_secret) = purpose.into_secrets();
                Ok(
                    Reaction::PaymentClaimed(
                        ClaimedPayment { payment_hash, amount_msat, payment_preimage, payment_secret },
                    ),
                )
            },
            ProtocolEvent::PaymentSent { .. } => Ok(Reaction::Done),
            ProtocolEvent::PaymentPathSuccessful { payment_hash, hops } => {
                self.emit(
                    DomainEvent::PaymentEvent {
                        state: PaymentState::Success,
                        payment_hash,
                        hop_path: hops,
                    },
                );
                Ok(Reaction::Done)
            },
            ProtocolEvent::Other { kind } => Err(LampoError::UnexpectedProtocolEvent(kind)),
        }
    }

    /// Whether a funding transition for temporary channel id `id` is running.
    pub fn funding_running(&self, id: &String) -> (r: bool)
        ensures
            r == self.is_funding(id@),
    {
        match self.funding_position(id) {
            Some(k) => {
                assert(self.funding_in_flight@[k as int]@ == id@);
                true
            },
            None => false,
        }
    }

    /// Gives up the funding transition of temporary channel id `id`, if one
    /// runs (its caller was cancelled): nothing is emitted, and a redelivered
    /// funding event for the channel starts it afresh.
    pub fn funding_abandoned(&mut self, id: &String)
        requires
            old(self).wf(),
        ensures
            final(self).wf(),
            final(self).handlers() == old(self).handlers(),
            final(self).emitted() == old(self).emitted(),
            forall|x: Seq<char>| final(self).is_funding(x) == (old(self).is_funding(x) && x != id@),
    {
        self.release(id);
    }

    /// Continues funding `funding` with the chain backend's fee estimate.
    pub fn fee_rate_estimated(&mut self, funding: FundingRequest, estimate: Result<u64, String>) -> (r:
        Result<FeeEstimated, LampoError>)
        requires
            old(self).wf(),
            old(self).is_funding(funding.temporary_channel_id@),
        ensures
            final(self).wf(),
            fee_step(*old(self), funding, estimate, *final(self), r),
    {
        match estimate {
            Ok(fee) => {
                let s = FeeEstimated::new(funding, fee);
                Ok(s)
            },
            Err(err) => {
                let mut message = CHANNEL_OPENING_ERROR.to_owned();
                message.append(err.as_str());
                self.emit(DomainEvent::ChannelEvent { state: "error".to_owned(), message });
                self.release(&funding.temporary_channel_id);
                proof {
                    assert(self.emitted().drop_last() =~= old(self).emitted());
                }
                Err(LampoError::CollaboratorFailure(err))
            },
        }
    }

    /// Continues funding with the wallet's answer to the transaction request
    /// that `step` describes.
    pub fn funding_transaction_built(&mut self, step: FeeEstimated, built: Result<String, String>) -> (r:
        Result<TransactionBuilt, LampoError>)
        requires
            old(self).wf(),
            old(self).is_funding(step.spec_funding().temporary_channel_id@),
        ensures
            final(self).wf(),
            build_step(*old(self), step, built, *final(self), r),
    {
        let funding = step.into_funding();
        match built {
            Ok(tx) => {
                self.emit(
                    DomainEvent::FundingChannelEnd {
                        counterparty_node_id: funding.counterparty_node_id.clone(),
                        temporary_channel_id: funding.temporary_channel_id.clone(),
                        channel_value: funding.channel_value_satoshis,
                        funding_transaction: tx.clone(),
                    },
                );
                Ok(TransactionBuilt::new(funding, tx))
            },
            Err(err) => {
                self.release(&funding.temporary_channel_id);
                Err(LampoError::CollaboratorFailure(err))
            },
        }
    }

    /// Ends funding with the channel engine's answer to finalizing the
    /// transaction of `step`.
    pub fn funding_finalized(&mut self, step: TransactionBuilt, result: Result<(), String>) -> (r:
        Result<(), LampoError>)
        requires
            old(self).wf(),
            old(self).is_funding(step.spec_funding().temporary_channel_id@),
        ensures
            final(self).wf(),
            finalize_step(*old(self), step, result, *final(self), r),
    {
        let funding = step.into_funding();
        self.release(&funding.temporary_channel_id);
        match result {
            Ok(()) => Ok(()),
            Err(err) => Err(LampoError::CollaboratorFailure(err)),
        }
    }
}

/// A funding transition whose fee estimate failed goes no further: it ends
/// with the failure, emits an error notice and no end of funding, and yields
/// no fee rate, so no transaction is built and none is finalized.
pub proof fn lemma_failed_estimate_stops_funding<H>(
    pre: LampoHandler<H>,
    f: FundingRequest,
    err: String,
    post: LampoHandler<H>,
    r: Result<FeeEstimated, LampoError>,
)
    requires
        fee_step(pre, f, Err(err), post, r),
    ensures
        r == Err::<FeeEstimated, LampoError>(LampoError::CollaboratorFailure(err)),
        post.emitted().len() == pre.emitted().len() + 1,
        forall|i: int|
            0 <= i < pre.emitted().len() ==> post.emitted()[i] == #[trigger] pre.emitted()[i],
        !(post.emitted().last() is FundingChannelEnd),
        is_estimate_failure_notice(post.emitted().last(), err),
        !post.is_funding(f.temporary_channel_id@),
{
    assert forall|i: int| 0 <= i < pre.emitted().len() implies post.emitted()[i]
        == #[trigger] pre.emitted()[i] by {
        assert(post.emitted().drop_last()[i] == post.emitted()[i]);
    }
}

/// A funding transition that succeeds emits exactly its start and then its
/// end, carrying the built transaction, before the transaction is handed on
/// to be finalized; the wallet is asked for exactly the channel value, the
/// event's script and the estimated fee rate.
pub proof fn lemma_funding_start_then_end<H>(
    s0: LampoHandler<H>,
    e: ProtocolEvent,
    s1: LampoHandler<H>,
    r1: Result<Reaction, LampoError>,
    fee: u64,
    s2: LampoHandler<H>,
    r2: Result<FeeEstimated, LampoError>,
    tx: String,
    s3: LampoHandler<H>,
    r3: Result<TransactionBuilt, LampoError>,
)
    requires
        e is FundingGenerationReady,
        handled(s0, e, s1, r1),
        r1 is Ok,
        fee_step(s1, funding_request_of(e), Ok(fee), s2, r2),
        r2 matches Ok(step) && build_step(s2, step, Ok(tx), s3, r3),
    ensures
        r1 == Ok::<Reaction, LampoError>(Reaction::EstimateFeeRate(funding_request_of(e))),
        r2 matches Ok(step) && step.spec_funding() == funding_request_of(e) && step.spec_fee_rate()
            == fee,
        s3.emitted() == s0.emitted() + seq![
            start_event(funding_request_of(e)),
            end_event(funding_request_of(e), tx),
        ],
        r3 matches Ok(t) && t.spec_transaction() == tx && t.spec_funding() == funding_request_of(e),
        s3.is_funding(funding_request_of(e).temporary_channel_id@),
{
    let f = funding_request_of(e);
    assert(s1.is_funding(f.temporary_channel_id@));
    assert(s2.is_funding(f.temporary_channel_id@));
    assert(s3.emitted() =~= s0.emitted() + seq![start_event(f), end_event(f, tx)]);
}

/// A claimable payment is claimed only with a preimage: a spontaneous
/// payment always gives one and is claimed with it; any other purpose
/// without a preimage fails and asks for no claim.
pub proof fn lemma_claim_needs_preimage<H>(
    pre: LampoHandler<H>,
    e: ProtocolEvent,
    post: LampoHandler<H>,
    r: Result<Reaction, LampoError>,
)
    requires
        e is PaymentClaimable,
        handled(pre, e, post, r),
    ensures
        e->PaymentClaimable_purpose matches PaymentPurpose::SpontaneousPayment(p) ==> r == Ok::<
            Reaction,
            LampoError,
        >(Reaction::ClaimFunds(p)),
        purpose_preimage(e->PaymentClaimable_purpose) is None ==> r == Err::<Reaction, LampoError>(
            LampoError::MissingPreimage(e->PaymentClaimable_payment_hash),
        ),
        r matches Ok(Reaction::ClaimFunds(p)) ==> purpose_preimage(e->PaymentClaimable_purpose)
            == Some(p),
        post.emitted() == pre.emitted(),
{
}

/// An event the reactor does not model fails with an error naming it, emits
/// nothing and changes nothing.
pub proof fn lemma_unexpected_event_rejected<H>(
    pre: LampoHandler<H>,
    kind: String,
    post: LampoHandler<H>,
    r: Result<Reaction, LampoError>,
)
    requires
        handled(pre, ProtocolEvent::Other { kind }, post, r),
    ensures
        r == Err::<Reaction, LampoError>(LampoError::UnexpectedProtocolEvent(kind)),
        post.emitted() == pre.emitted(),
        forall|x: Seq<char>| #[trigger] post.is_funding(x) == pre.is_funding(x),
{
}

/// At most one funding transition per temporary channel id: a funding event
/// for a channel whose funding is running fails, emits nothing and leaves the
/// running transition as it is.
pub proof fn lemma_one_funding_per_channel<H>(
    pre: LampoHandler<H>,
    e: ProtocolEvent,
    post: LampoHandler<H>,
    r: Result<Reaction, LampoError>,
)
    requires
        e is FundingGenerationReady,
        pre.is_funding(e->FundingGenerationReady_temporary_channel_id@),
        handled(pre, e, post, r),
    ensures
        r == Err::<Reaction, LampoError>(
            LampoError::FundingInProgress(e->FundingGenerationReady_temporary_channel_id),
        ),
        post.emitted() == pre.emitted(),
        forall|x: Seq<char>| #[trigger] post.is_funding(x) == pre.is_funding(x),
{
}

} // verus!
