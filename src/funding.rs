//! The stages of channel funding. Each stage value is only made by the
//! dispatcher on success of the stage before it, so a transaction can only be
//! finalized once a fee rate was estimated and the transaction was built.
use vstd::prelude::*;
use crate::event::DomainEvent;

verus! {

/// Confirmation target, in blocks, for the funding fee-rate estimate.
pub const FEE_TARGET_BLOCKS: u32 = 6;

/// Prefix of the notice emitted when fee estimation fails.
pub const CHANNEL_OPENING_ERROR: &'static str = "Channel Opening Error: ";

/// A channel whose funding transaction must be generated.
#[derive(Debug, Clone, PartialEq, Eq)]
pub struct FundingRequest {
    pub temporary_channel_id: String,
    pub counterparty_node_id: String,
    pub channel_value_satoshis: u64,
    pub output_script: String,
}

/// Funding with its fee rate known: the wallet is to build a transaction
/// paying `output_script` the channel value at this fee rate.
pub struct FeeEstimated {
    funding: FundingRequest,
    fee_rate_sat_per_vb: u64,
}

/// Funding with its transaction built: the channel engine is to finalize it.
pub struct TransactionBuilt {
    funding: FundingRequest,
    transaction: String,
}

/// The event announcing that funding of `f` has started.
pub open spec fn start_event(f: FundingRequest) -> DomainEvent {
    DomainEvent::FundingChannelStart {
        counterparty_node_id: f.counterparty_node_id,
        temporary_channel_id: f.temporary_channel_id,
        channel_value: f.channel_value_satoshis,
    }
}

/// The event announcing that the funding transaction `tx` of `f` was built.
pub open spec fn end_event(f: FundingRequest, tx: String) -> DomainEvent {
    DomainEvent::FundingChannelEnd {
        counterparty_node_id: f.counterparty_node_id,
        temporary_channel_id: f.temporary_channel_id,
        channel_value: f.channel_value_satoshis,
        funding_transaction: tx,
    }
}

/// The error notice emitted when fee estimation failed with `err`.
pub open spec fn is_estimate_failure_notice(e: DomainEvent, err: String) -> bool {
    e matches DomainEvent::ChannelEvent { state, message } && state@ == "error"@ && message@
        == CHANNEL_OPENING_ERROR@ + err@
}

impl FeeEstimated {
    pub closed spec fn spec_funding(&self) -> FundingRequest {
        self.funding
    }

    pub closed spec fn spec_fee_rate(&self) -> u64 {
        self.fee_rate_sat_per_vb
    }

    pub(crate) fn new(funding: FundingRequest, fee_rate_sat_per_vb: u64) -> (r: Self)
        ensures
            r.spec_funding() == funding,
            r.spec_fee_rate() == fee_rate_sat_per_vb,
    {
        FeeEstimated { funding, fee_rate_sat_per_vb }
    }

    pub fn funding(&self) -> (r: &FundingRequest)
        ensures
            *r == self.spec_funding(),
    {
        &self.funding
    }

    /// The script the funding transaction pays to.
    pub fn output_script(&self) -> (r: &String)
        ensures
            *r == self.spec_funding().output_script,
    {
        &self.funding.output_script
    }

    /// The amount, in satoshis, the funding transaction pays.
    pub fn amount_sat(&self) -> (r: u64)
        ensures
            r == self.spec_funding().channel_value_satoshis,
    {
        self.funding.channel_value_satoshis
    }

    /// The estimated fee rate, in satoshis per virtual byte.
    pub fn fee_rate_sat_per_vb(&self) -> (r: u64)
        ensures
            r == self.spec_fee_rate(),
    {
        self.fee_rate_sat_per_vb
    }

    pub(crate) fn into_funding(self) -> (r: FundingRequest)
        ensures
            r == self.spec_funding(),
    {
        self.funding
    }
}

impl TransactionBuilt {
    pub closed spec fn spec_funding(&self) -> FundingRequest {
        self.funding
    }

    pub closed spec fn spec_transaction(&self) -> String {
        self.transaction
    }

    pub(crate) fn new(funding: FundingRequest, transaction: String) -> (r: Self)
        ensures
            r.spec_funding() == funding,
            r.spec_transaction() == transaction,
    {
        TransactionBuilt { funding, transaction }
    }

    pub fn funding(&self) -> (r: &FundingRequest)
        ensures
            *r == self.spec_funding(),
    {
        &self.funding
    }

    /// The temporary id of the channel to finalize.
    pub fn temporary_channel_id(&self) -> (r: &String)
        ensures
            *r == self.spec_funding().temporary_channel_id,
    {
        &self.funding.temporary_channel_id
    }

    /// The counterparty of the channel to finalize.
    pub fn counterparty_node_id(&self) -> (r: &String)
        ensures
            *r == self.spec_funding().counterparty_node_id,
    {
        &self.funding.counterparty_node_id
    }

    /// The built funding transaction, to hand to the channel engine.
    pub fn transaction(&self) -> (r: &String)
        ensures
            *r == self.spec_transaction(),
    {
        &self.transaction
    }

    pub(crate) fn into_funding(self) -> (r: FundingRequest)
        ensures
            r == self.spec_funding(),
    {
        self.funding
    }
}

} // verus!
