use lampod::bus::EventBus;
use lampod::chain::{Command, HandlerOutcome, ReactStep, Request};
use lampod::error::LampoError;
use lampod::event::{DomainEvent, PaymentHop, PaymentPurpose, PaymentState, ProtocolEvent};
use lampod::funding::{FundingRequest, FEE_TARGET_BLOCKS};
use lampod::handler::{ClaimedPayment, LampoHandler, Reaction};

/// A handler answering one method with a fixed response.
#[derive(Clone)]
struct Answers {
    method: &'static str,
    response: &'static str,
}

fn request(method: &str) -> Request {
    Request { method: method.to_string(), params: "{}".to_string() }
}

/// Drives resolution of `method`, recording which handlers were consulted.
fn dispatch(
    d: &LampoHandler<Answers>,
    method: &str,
    answer: impl Fn(usize, &Answers, &Request) -> HandlerOutcome,
) -> (Result<String, LampoError>, Vec<usize>) {
    let command = Command::from_req(&request(method)).unwrap();
    let Command::ExternalCommand(req) = &command;
    let mut consulted = Vec::new();
    let mut step = d.react(&command);
    loop {
        match step {
            ReactStep::Consult(i) => {
                consulted.push(i);
                let outcome = answer(i, d.handler(i), req);
                step = d.react_next(&command, i, outcome);
            }
            ReactStep::Respond(v) => return (Ok(v), consulted),
            ReactStep::Fail(e) => return (Err(e), consulted),
        }
    }
}

fn by_method(_: usize, h: &Answers, req: &Request) -> HandlerOutcome {
    if req.method == h.method {
        HandlerOutcome::Respond(h.response.to_string())
    } else {
        HandlerOutcome::Decline
    }
}

fn funding_event(id: &str, value: u64, script: &str) -> ProtocolEvent {
    ProtocolEvent::FundingGenerationReady {
        temporary_channel_id: id.to_string(),
        counterparty_node_id: "02aa".to_string(),
        channel_value_satoshis: value,
        output_script: script.to_string(),
    }
}

fn start_funding(d: &mut LampoHandler<Answers>, id: &str, value: u64, script: &str) -> FundingRequest {
    match d.handle(funding_event(id, value, script)) {
        Ok(Reaction::EstimateFeeRate(f)) => f,
        other => panic!("unexpected reaction {:?}", other),
    }
}

fn drain(d: &mut LampoHandler<Answers>, sub: lampod::bus::Subscription) -> Vec<DomainEvent> {
    let mut out = Vec::new();
    while let Some(e) = d.next_event(sub) {
        out.push((*e).clone());
    }
    out
}

#[test]
fn scenario_getinfo_resolves_and_unknown_is_not_found() {
    let mut d = LampoHandler::new();
    assert_eq!(d.add_external_handler(Answers { method: "getinfo", response: "{\"id\":1}" }), Ok(()));
    let (r, _) = dispatch(&d, "getinfo", by_method);
    assert_eq!(r, Ok("{\"id\":1}".to_string()));
    let (r, _) = dispatch(&d, "unknown", by_method);
    assert_eq!(r, Err(LampoError::MethodNotFound("unknown".to_string())));
}

#[test]
fn first_matching_handler_wins_and_later_ones_are_not_consulted() {
    let mut d = LampoHandler::new();
    d.add_external_handler(Answers { method: "other", response: "a" }).unwrap();
    d.add_external_handler(Answers { method: "pay", response: "b" }).unwrap();
    d.add_external_handler(Answers { method: "pay", response: "c" }).unwrap();
    assert_eq!(d.handler_count(), 3);
    let (r, consulted) = dispatch(&d, "pay", by_method);
    assert_eq!(r, Ok("b".to_string()));
    assert_eq!(consulted, vec![0, 1]);
}

#[test]
fn failing_handler_stops_resolution() {
    let mut d = LampoHandler::new();
    d.add_external_handler(Answers { method: "pay", response: "a" }).unwrap();
    d.add_external_handler(Answers { method: "pay", response: "b" }).unwrap();
    let (r, consulted) = dispatch(&d, "pay", |i, h, req| {
        if i == 0 { HandlerOutcome::Fail("boom".to_string()) } else { by_method(i, h, req) }
    });
    assert_eq!(r, Err(LampoError::HandlerFailure("boom".to_string())));
    assert_eq!(consulted, vec![0]);
}

#[test]
fn empty_chain_is_not_found() {
    let d: LampoHandler<Answers> = LampoHandler::new();
    let (r, consulted) = dispatch(&d, "getinfo", by_method);
    assert_eq!(r, Err(LampoError::MethodNotFound("getinfo".to_string())));
    assert!(consulted.is_empty());
}

#[test]
fn all_declining_handlers_give_not_found_after_each_is_asked() {
    let mut d = LampoHandler::new();
    d.add_external_handler(Answers { method: "a", response: "1" }).unwrap();
    d.add_external_handler(Answers { method: "b", response: "2" }).unwrap();
    let (r, consulted) = dispatch(&d, "c", by_method);
    assert_eq!(r, Err(LampoError::MethodNotFound("c".to_string())));
    assert_eq!(consulted, vec![0, 1]);
}

#[test]
fn request_without_method_is_malformed() {
    let r = Command::from_req(&request(""));
    assert_eq!(r, Err(LampoError::MalformedRequest(String::new())));
    let r = Command::from_req(&request("getinfo"));
    assert_eq!(r, Ok(Command::ExternalCommand(request("getinfo"))));
}

#[test]
fn scenario_funding_success() {
    let mut d: LampoHandler<Answers> = LampoHandler::new();
    let sub = d.events();
    let f = start_funding(&mut d, "tmp1", 100000, "S");
    assert_eq!(FEE_TARGET_BLOCKS, 6);
    let step = d.fee_rate_estimated(f, Ok(5)).unwrap();
    assert_eq!(step.output_script(), "S");
    assert_eq!(step.amount_sat(), 100000);
    assert_eq!(step.fee_rate_sat_per_vb(), 5);
    let built = d.funding_transaction_built(step, Ok("0200beef".to_string())).unwrap();
    assert_eq!(built.transaction(), "0200beef");
    assert_eq!(built.temporary_channel_id(), "tmp1");
    assert_eq!(built.counterparty_node_id(), "02aa");
    let events = drain(&mut d, sub);
    assert_eq!(
        events,
        vec![
            DomainEvent::FundingChannelStart {
                counterparty_node_id: "02aa".to_string(),
                temporary_channel_id: "tmp1".to_string(),
                channel_value: 100000,
            },
            DomainEvent::FundingChannelEnd {
                counterparty_node_id: "02aa".to_string(),
                temporary_channel_id: "tmp1".to_string(),
                channel_value: 100000,
                funding_transaction: "0200beef".to_string(),
            },
        ]
    );
    assert_eq!(d.funding_finalized(built, Ok(())), Ok(()));
    assert!(drain(&mut d, sub).is_empty());
}

#[test]
fn scenario_fee_estimate_failure() {
    let mut d: LampoHandler<Answers> = LampoHandler::new();
    let sub = d.events();
    let f = start_funding(&mut d, "tmp1", 100000, "S");
    let r = d.fee_rate_estimated(f, Err("network error".to_string()));
    assert!(matches!(r, Err(LampoError::CollaboratorFailure(ref m)) if m == "network error"));
    let events = drain(&mut d, sub);
    assert_eq!(events.len(), 2);
    assert_eq!(
        events[1],
        DomainEvent::ChannelEvent {
            state: "error".to_string(),
            message: "Channel Opening Error: network error".to_string(),
        }
    );
    assert!(!events.iter().any(|e| matches!(e, DomainEvent::FundingChannelEnd { .. })));
}

#[test]
fn funding_runs_at_most_once_per_channel() {
    let mut d: LampoHandler<Answers> = LampoHandler::new();
    let _f = start_funding(&mut d, "tmp1", 1000, "S");
    let sub = d.events();
    let again = d.handle(funding_event("tmp1", 1000, "S"));
    assert_eq!(again, Err(LampoError::FundingInProgress("tmp1".to_string())));
    assert!(drain(&mut d, sub).is_empty());
    let other = start_funding(&mut d, "tmp2", 2000, "T");
    assert_eq!(other.temporary_channel_id, "tmp2");
}

#[test]
fn funding_can_restart_after_failure() {
    let mut d: LampoHandler<Answers> = LampoHandler::new();
    let f = start_funding(&mut d, "tmp1", 1000, "S");
    let step = d.fee_rate_estimated(f, Ok(2)).unwrap();
    let r = d.funding_transaction_built(step, Err("no utxo".to_string()));
    assert!(matches!(r, Err(LampoError::CollaboratorFailure(ref m)) if m == "no utxo"));
    let f = start_funding(&mut d, "tmp1", 1000, "S");
    let step = d.fee_rate_estimated(f, Ok(2)).unwrap();
    let built = d.funding_transaction_built(step, Ok("tx".to_string())).unwrap();
    assert_eq!(
        d.funding_finalized(built, Err("bad tx".to_string())),
        Err(LampoError::CollaboratorFailure("bad tx".to_string()))
    );
    start_funding(&mut d, "tmp1", 1000, "S");
}

#[test]
fn build_failure_emits_no_funding_end() {
    let mut d: LampoHandler<Answers> = LampoHandler::new();
    let sub = d.events();
    let f = start_funding(&mut d, "tmp1", 1000, "S");
    let step = d.fee_rate_estimated(f, Ok(3)).unwrap();
    assert!(d.funding_transaction_built(step, Err("signing".to_string())).is_err());
    let events = drain(&mut d, sub);
    assert_eq!(events.len(), 1);
    assert!(matches!(events[0], DomainEvent::FundingChannelStart { .. }));
}

fn claimable(purpose: PaymentPurpose) -> ProtocolEvent {
    ProtocolEvent::PaymentClaimable { payment_hash: "hash".to_string(), amount_msat: 1000, purpose }
}

#[test]
fn spontaneous_payment_is_claimed_with_its_preimage() {
    let mut d: LampoHandler<Answers> = LampoHandler::new();
    let r = d.handle(claimable(PaymentPurpose::SpontaneousPayment("pre".to_string())));
    assert_eq!(r, Ok(Reaction::ClaimFunds("pre".to_string())));
}

#[test]
fn invoice_payment_without_preimage_is_not_claimed() {
    let mut d: LampoHandler<Answers> = LampoHandler::new();
    for purpose in [
        PaymentPurpose::Bolt11InvoicePayment { payment_preimage: None, payment_secret: "s".to_string() },
        PaymentPurpose::Bolt12OfferPayment { payment_preimage: None, payment_secret: "s".to_string() },
        PaymentPurpose::Bolt12RefundPayment { payment_preimage: None, payment_secret: "s".to_string() },
    ] {
        let r = d.handle(claimable(purpose));
        assert_eq!(r, Err(LampoError::MissingPreimage("hash".to_string())));
    }
}

#[test]
fn offer_payment_with_preimage_is_claimed() {
    let mut d: LampoHandler<Answers> = LampoHandler::new();
    let r = d.handle(claimable(PaymentPurpose::Bolt12OfferPayment {
        payment_preimage: Some("p".to_string()),
        payment_secret: "s".to_string(),
    }));
    assert_eq!(r, Ok(Reaction::ClaimFunds("p".to_string())));
}

#[test]
fn claimed_payment_reports_its_secrets() {
    let mut d: LampoHandler<Answers> = LampoHandler::new();
    let r = d.handle(ProtocolEvent::PaymentClaimed {
        payment_hash: "h".to_string(),
        amount_msat: 42,
        purpose: PaymentPurpose::Bolt11InvoicePayment {
            payment_preimage: Some("p".to_string()),
            payment_secret: "s".to_string(),
        },
    });
    assert_eq!(
        r,
        Ok(Reaction::PaymentClaimed(ClaimedPayment {
            payment_hash: "h".to_string(),
            amount_msat: 42,
            payment_preimage: Some("p".to_string()),
            payment_secret: Some("s".to_string()),
        }))
    );
    let r = d.handle(ProtocolEvent::PaymentClaimed {
        payment_hash: "h".to_string(),
        amount_msat: 42,
        purpose: PaymentPurpose::SpontaneousPayment("q".to_string()),
    });
    assert!(matches!(r, Ok(Reaction::PaymentClaimed(ClaimedPayment { payment_secret: None, .. }))));
}

#[test]
fn unknown_protocol_event_is_rejected() {
    let mut d: LampoHandler<Answers> = LampoHandler::new();
    let sub = d.events();
    let r = d.handle(ProtocolEvent::Other { kind: "HTLCIntercepted".to_string() });
    assert_eq!(r, Err(LampoError::UnexpectedProtocolEvent("HTLCIntercepted".to_string())));
    assert!(drain(&mut d, sub).is_empty());
}

#[test]
fn inbound_channel_open_is_unsupported() {
    let mut d: LampoHandler<Answers> = LampoHandler::new();
    let r = d.handle(ProtocolEvent::OpenChannelRequest {
        temporary_channel_id: "t".to_string(),
        counterparty_node_id: "n".to_string(),
        funding_satoshis: 10,
    });
    assert_eq!(r, Err(LampoError::UnsupportedFeature("t".to_string())));
}

#[test]
fn channel_events_are_announced() {
    let mut d: LampoHandler<Answers> = LampoHandler::new();
    let sub = d.events();
    let hop = PaymentHop { node_id: "n1".to_string(), short_channel_id: 7, fee_msat: 1, cltv_expiry_delta: 40 };
    let inputs = vec![
        ProtocolEvent::ChannelReady {
            channel_id: "c".to_string(),
            counterparty_node_id: "n".to_string(),
            channel_type: "anchors".to_string(),
        },
        ProtocolEvent::ChannelClosed {
            channel_id: "c".to_string(),
            user_channel_id: 9,
            reason: "cooperative".to_string(),
            counterparty_node_id: None,
            channel_funding_txo: Some("txid:0".to_string()),
        },
        ProtocolEvent::ChannelPending { counterparty_node_id: "n".to_string(), funding_txo: "txid:1".to_string() },
        ProtocolEvent::PaymentPathSuccessful { payment_hash: Some("h".to_string()), hops: vec![hop.clone()] },
        ProtocolEvent::PaymentSent { payment_hash: "h".to_string() },
    ];
    for e in inputs {
        assert_eq!(d.handle(e), Ok(Reaction::Done));
    }
    assert_eq!(d.handle(ProtocolEvent::PendingHTLCsForwardable), Ok(Reaction::ProcessPendingHtlcForwards));
    assert_eq!(
        drain(&mut d, sub),
        vec![
            DomainEvent::ChannelReady {
                counterparty_node_id: "n".to_string(),
                channel_id: "c".to_string(),
                channel_type: "anchors".to_string(),
            },
            DomainEvent::CloseChannelEvent {
                channel_id: "c".to_string(),
                reason_message: "cooperative".to_string(),
                counterparty_node_id: None,
                funding_outpoint: Some("txid:0".to_string()),
            },
            DomainEvent::ChannelPending {
                counterparty_node_id: "n".to_string(),
                funding_transaction_outpoint: "txid:1".to_string(),
            },
            DomainEvent::PaymentEvent {
                state: PaymentState::Success,
                payment_hash: Some("h".to_string()),
                hop_path: vec![hop],
            },
        ]
    );
}

#[test]
fn late_subscriber_sees_no_earlier_event() {
    let mut d: LampoHandler<Answers> = LampoHandler::new();
    let early = d.events();
    let first = DomainEvent::ChannelEvent { state: "info".to_string(), message: "one".to_string() };
    d.emit(first.clone());
    let late = d.events();
    assert!(drain(&mut d, late).is_empty());
    let second = DomainEvent::ChannelEvent { state: "info".to_string(), message: "two".to_string() };
    d.emit(second.clone());
    assert_eq!(drain(&mut d, late), vec![second.clone()]);
    assert_eq!(drain(&mut d, early), vec![first, second]);
    assert!(drain(&mut d, early).is_empty());
}

#[test]
fn bus_delivers_each_event_once_per_subscriber() {
    let mut bus = EventBus::new();
    let a = bus.subscribe();
    let b = bus.subscribe();
    let e = DomainEvent::ChannelEvent { state: "x".to_string(), message: "y".to_string() };
    bus.emit(e.clone());
    assert_eq!(bus.retained_len(), 1);
    assert_eq!(bus.receive(a).as_deref(), Some(&e));
    assert_eq!(bus.receive(a), None);
    assert_eq!(bus.retained_len(), 1);
    assert_eq!(bus.receive(b).as_deref(), Some(&e));
    assert_eq!(bus.receive(b), None);
    assert_eq!(bus.retained_len(), 0);
}

#[test]
fn bus_keeps_nothing_without_subscribers() {
    let mut bus = EventBus::new();
    let e = DomainEvent::ChannelEvent { state: "x".to_string(), message: "y".to_string() };
    bus.emit(e.clone());
    assert_eq!(bus.retained_len(), 0);
    let a = bus.subscribe();
    assert_eq!(bus.receive(a), None);
    bus.emit(e.clone());
    bus.emit(e.clone());
    assert_eq!(bus.retained_len(), 2);
    bus.unsubscribe(a);
    assert_eq!(bus.retained_len(), 0);
    assert_eq!(bus.receive(a), None);
}

#[test]
fn abandoned_funding_can_restart() {
    let mut d: LampoHandler<Answers> = LampoHandler::new();
    let f = start_funding(&mut d, "tmp1", 1000, "S");
    assert!(d.funding_running(&"tmp1".to_string()));
    d.funding_abandoned(&f.temporary_channel_id);
    assert!(!d.funding_running(&"tmp1".to_string()));
    let f = start_funding(&mut d, "tmp1", 1000, "S");
    assert_eq!(f.channel_value_satoshis, 1000);
}
