//! The values that flow through the dispatcher: protocol events coming in from
//! the channel engine, and domain events going out to subscribers.
use vstd::prelude::*;

verus! {

/// Outcome of a payment as reported to subscribers.
#[derive(Debug, Clone, Copy, PartialEq, Eq, Structural)]
pub enum PaymentState {
    Success,
    Failure,
    Pending,
}

/// One hop of a payment route.
#[derive(Debug, Clone, PartialEq, Eq)]
pub struct PaymentHop {
    pub node_id: String,
    pub short_channel_id: u64,
    pub fee_msat: u64,
    pub cltv_expiry_delta: u32,
}

/// Lifecycle notifications broadcast on the event bus. Identifiers are carried
/// in their hex form, a transaction as its consensus-encoded hex.
#[allow(inconsistent_fields)]
#[derive(Debug, Clone, PartialEq, Eq)]
pub enum DomainEvent {
    ChannelReady { counterparty_node_id: String, channel_id: String, channel_type: String },
    ChannelPending { counterparty_node_id: String, funding_transaction_outpoint: String },
    FundingChannelStart {
        counterparty_node_id: String,
        temporary_channel_id: String,
        channel_value: u64,
    },
    FundingChannelEnd {
        counterparty_node_id: String,
        temporary_channel_id: String,
        channel_value: u64,
        funding_transaction: String,
    },
    CloseChannelEvent {
        channel_id: String,
        reason_message: String,
        counterparty_node_id: Option<String>,
        funding_outpoint: Option<String>,
    },
    /// A generic status notice, `state` being for instance `"error"`.
    ChannelEvent { state: String, message: String },
    PaymentEvent { state: PaymentState, payment_hash: Option<String>, hop_path: Vec<PaymentHop> },
}

/// Why a payment became claimable, with the secrets that come with it.
#[derive(Debug, Clone, PartialEq, Eq)]
pub enum PaymentPurpose {
    Bolt11InvoicePayment { payment_preimage: Option<String>, payment_secret: String },
    Bolt12OfferPayment { payment_preimage: Option<String>, payment_secret: String },
    Bolt12RefundPayment { payment_preimage: Option<String>, payment_secret: String },
    SpontaneousPayment(String),
}

/// The preimage that a purpose makes available: always present for a
/// spontaneous payment, possibly absent otherwise.
pub open spec fn purpose_preimage(p: PaymentPurpose) -> Option<String> {
    match p {
        PaymentPurpose::Bolt11InvoicePayment { payment_preimage, .. } => payment_preimage,
        PaymentPurpose::Bolt12OfferPayment { payment_preimage, .. } => payment_preimage,
        PaymentPurpose::Bolt12RefundPayment { payment_preimage, .. } => payment_preimage,
        PaymentPurpose::SpontaneousPayment(preimage) => Some(preimage),
    }
}

/// The payment secret that a purpose carries, if any.
pub open spec fn purpose_secret(p: PaymentPurpose) -> Option<String> {
    match p {
        PaymentPurpose::Bolt11InvoicePayment { payment_secret, .. } => Some(payment_secret),
        PaymentPurpose::Bolt12OfferPayment { payment_secret, .. } => Some(payment_secret),
        PaymentPurpose::Bolt12RefundPayment { payment_secret, .. } => Some(payment_secret),
        PaymentPurpose::SpontaneousPayment(_) => None,
    }
}

impl PaymentPurpose {
    /// Moves the preimage out of the purpose.
    pub fn into_preimage(self) -> (r: Option<String>)
        ensures
            r == purpose_preimage(self),
    {
        match self {
            PaymentPurpose::Bolt11InvoicePayment { payment_preimage, .. } => payment_preimage,
            PaymentPurpose::Bolt12OfferPayment { payment_preimage, .. } => payment_preimage,
            PaymentPurpose::Bolt12RefundPayment { payment_preimage, .. } => payment_preimage,
            PaymentPurpose::SpontaneousPayment(preimage) => Some(preimage),
        }
    }

    /// Moves the preimage and the payment secret out of the purpose.
    pub fn into_secrets(self) -> (r: (Option<String>, Option<String>))
        ensures
            r.0 == purpose_preimage(self),
            r.1 == purpose_secret(self),
    {
        match self {
            PaymentPurpose::Bolt11InvoicePayment { payment_preimage, payment_secret } => (
                payment_preimage,
                Some(payment_secret),
            ),
            PaymentPurpose::Bolt12OfferPayment { payment_preimage, payment_secret } => (
                payment_preimage,
                Some(payment_secret),
            ),
            PaymentPurpose::Bolt12RefundPayment { payment_preimage, payment_secret } => (
                payment_preimage,
                Some(payment_secret),
            ),
            PaymentPurpose::SpontaneousPayment(preimage) => (Some(preimage), None),
        }
    }
}

/// Events raised by the channel engine. `Other` stands for every event the
/// reactor does not model, named by its kind.
#[allow(inconsistent_fields)]
#[derive(Debug, Clone, PartialEq, Eq)]
pub enum ProtocolEvent {
    OpenChannelRequest {
        temporary_channel_id: String,
        counterparty_node_id: String,
        funding_satoshis: u64,
    },
    ChannelReady { channel_id: String, counterparty_node_id: String, channel_type: String },
    ChannelClosed {
        channel_id: String,
        user_channel_id: u128,
        reason: String,
        counterparty_node_id: Option<String>,
        channel_funding_txo: Option<String>,
    },
    FundingGenerationReady {
        temporary_channel_id: String,
        counterparty_node_id: String,
        channel_value_satoshis: u64,
        output_script: String,
    },
    ChannelPending { counterparty_node_id: String, funding_txo: String },
    PendingHTLCsForwardable,
    PaymentClaimable { payment_hash: String, amount_msat: u64, purpose: PaymentPurpose },
    PaymentClaimed { payment_hash: String, amount_msat: u64, purpose: PaymentPurpose },
    PaymentSent { payment_hash: String },
    PaymentPathSuccessful { payment_hash: Option<String>, hops: Vec<PaymentHop> },
    Other { kind: String },
}

} // verus!
