//! The event coordinator: what the node does when the engine reports an
//! event.
//!
//! `handle_event` updates the payment ledger and says what else is to be
//! done. Work that needs the wallet or the engine is carried out by the
//! caller, who comes back with the result: `payment_claimed` after a claim,
//! the funding workflow after a funding request, the sweep workflow after
//! spendable outputs, `forward_delay_ms` before forwards are processed.

use crate::funding::{first_step, funding_address, FundingStep, FundingWorkflow};
use crate::hex_utils::{hex_of, hex_str};
use crate::ledger::{keys_with, Direction, PaymentLedger, TableOp};
use crate::node_var::{
    HTLCStatus, MillisatAmount, Network, PaymentHash, PaymentInfo, PaymentPreimage, PaymentSecret,
};
use crate::text::{decimal, join2, join3, u64_to_string};
use vstd::prelude::*;
use vstd::string::*;

verus! {

/// What a received payment is for.
#[derive(Clone, Copy, Debug, PartialEq, Eq)]
pub enum PaymentPurpose {
    /// It pays an invoice: the invoice's secret, and the preimage where the
    /// engine knows it.
    InvoicePayment { payment_preimage: Option<PaymentPreimage>, payment_secret: PaymentSecret },
    /// It was sent without an invoice and brings its preimage.
    SpontaneousPayment(PaymentPreimage),
}

impl PaymentPurpose {
    /// The preimage that the payment can be claimed with.
    pub open spec fn preimage(self) -> Option<PaymentPreimage> {
        match self {
            PaymentPurpose::InvoicePayment { payment_preimage, .. } => payment_preimage,
            PaymentPurpose::SpontaneousPayment(preimage) => Some(preimage),
        }
    }

    /// The secret of the invoice that the payment pays.
    pub open spec fn secret(self) -> Option<PaymentSecret> {
        match self {
            PaymentPurpose::InvoicePayment { payment_secret, .. } => Some(payment_secret),
            PaymentPurpose::SpontaneousPayment(_) => None,
        }
    }

    /// The preimage and the secret that come with the payment.
    pub fn parts(&self) -> (parts: (Option<PaymentPreimage>, Option<PaymentSecret>))
        ensures
            parts.0 == self.preimage(),
            parts.1 == self.secret(),
    {
        match self {
            PaymentPurpose::InvoicePayment { payment_preimage, payment_secret } => (
                *payment_preimage,
                Some(*payment_secret),
            ),
            PaymentPurpose::SpontaneousPayment(preimage) => (Some(*preimage), None),
        }
    }
}

/// An event that the engine reports.
#[derive(Clone, Debug, PartialEq, Eq)]
pub enum Event {
    /// A channel waits for its funding transaction.
    FundingGenerationReady {
        temporary_channel_id: [u8; 32],
        channel_value_satoshis: u64,
        output_script: Vec<u8>,
        user_channel_id: u64,
    },
    /// A payment has arrived and can be claimed.
    PaymentReceived { payment_hash: PaymentHash, amt: u64, purpose: PaymentPurpose },
    /// A payment that this node sent has arrived.
    PaymentSent {
        payment_preimage: PaymentPreimage,
        payment_hash: PaymentHash,
        fee_paid_msat: Option<u64>,
    },
    /// A payment that this node sent has failed for good.
    PaymentFailed { payment_hash: PaymentHash },
    /// A payment was forwarded. The fee is unknown where the claim was
    /// settled on chain.
    PaymentForwarded { fee_earned_msat: Option<u64>, claim_from_onchain_tx: bool },
    /// Forwards wait to be processed, no sooner than after the given time.
    PendingHTLCsForwardable { time_forwardable_ms: u64 },
    /// Outputs of closed channels can be spent; how many.
    SpendableOutputs { outputs: usize },
    /// A channel was closed.
    ChannelClosed { channel_id: [u8; 32], reason: String },
    /// A peer asks for a channel. Does not occur: channels are not accepted
    /// by hand.
    OpenChannelRequest,
    /// A funding transaction can be dropped.
    DiscardFunding,
}

/// What is to be done after an event, besides what `handle_event` has done
/// to the ledger.
#[derive(Clone, Copy, Debug, PartialEq, Eq)]
pub enum Reaction {
    /// Nothing.
    Done,
    /// Fund the channel: `ServerEventHandler::fund_channel`.
    FundChannel,
    /// Ask the engine to claim the payment with the preimage, and report
    /// back with `payment_claimed`.
    ClaimFunds { payment_hash: PaymentHash, payment_preimage: PaymentPreimage },
    /// Process the pending forwards after a delay drawn with
    /// `forward_delay_ms`, without waiting for the outcome.
    ForwardLater { min_delay_ms: u64 },
    /// Sweep all the outputs in one transaction: `SweepWorkflow::begin`.
    SweepOutputs { outputs: usize },
    /// Report the event with the line that `report` gives; nothing else.
    Report,
}

/// What is to be done after `event`.
pub open spec fn reaction_to(event: Event) -> Reaction {
    match event {
        Event::FundingGenerationReady { .. } => Reaction::FundChannel,
        Event::PaymentReceived { payment_hash, purpose, .. } => match purpose.preimage() {
            Some(payment_preimage) => Reaction::ClaimFunds { payment_hash, payment_preimage },
            None => Reaction::Done,
        },
        Event::PaymentSent { .. } => Reaction::Done,
        Event::PaymentFailed { .. } => Reaction::Done,
        Event::PaymentForwarded { .. } => Reaction::Report,
        Event::PendingHTLCsForwardable { time_forwardable_ms } => Reaction::ForwardLater {
            min_delay_ms: time_forwardable_ms,
        },
        Event::SpendableOutputs { outputs } => Reaction::SweepOutputs { outputs },
        Event::ChannelClosed { .. } => Reaction::Report,
        Event::OpenChannelRequest => Reaction::Done,
        Event::DiscardFunding => Reaction::Done,
    }
}

/// Where the funds of a forwarded payment were claimed from.
pub open spec fn claim_source(claim_from_onchain_tx: bool) -> Seq<char> {
    if claim_from_onchain_tx {
        "from onchain downstream claim"@
    } else {
        "from HTLC fulfill message"@
    }
}

/// The line that reports `event`, for the events that call for a report and
/// nothing else: a forwarded payment with the fee that it earned, where the
/// fee is known, and a closed channel with the reason.
pub open spec fn notice(event: Event) -> Option<Seq<char>> {
    match event {
        Event::PaymentForwarded { fee_earned_msat, claim_from_onchain_tx } => Some(
            match fee_earned_msat {
                Some(fee) => "EVENT: Forwarded payment, earning "@ + decimal(fee as nat) + " msat "@
                    + claim_source(claim_from_onchain_tx),
                None => "EVENT: Forwarded payment, claiming onchain "@ + claim_source(
                    claim_from_onchain_tx,
                ),
            },
        ),
        Event::ChannelClosed { channel_id, reason } => Some(
            "EVENT: Channel "@ + hex_of(channel_id@) + " closed due to: "@ + reason@,
        ),
        _ => None,
    }
}

/// The line by which an event is reported, for the events that are only
/// reported.
pub fn report(event: &Event) -> (line: Option<String>)
    ensures
        match line {
            Some(l) => notice(*event) == Some(l@),
            None => notice(*event) is None,
        },
{
    match event {
        Event::PaymentForwarded { fee_earned_msat, claim_from_onchain_tx } => {
            let source = if *claim_from_onchain_tx {
                "from onchain downstream claim"
            } else {
                "from HTLC fulfill message"
            };
            match fee_earned_msat {
                Some(fee) => {
                    let fee = u64_to_string(*fee);
                    let mut line = join3("EVENT: Forwarded payment, earning ", fee.as_str(), " msat ");
                    line.append(source);
                    Some(line)
                },
                None => Some(join2("EVENT: Forwarded payment, claiming onchain ", source)),
            }
        },
        Event::ChannelClosed { channel_id, reason } => {
            let id = hex_str(channel_id.as_slice());
            let mut line = join3("EVENT: Channel ", id.as_str(), " closed due to: ");
            line.append(reason.as_str());
            Some(line)
        },
        _ => None,
    }
}

/// The record of a received payment that the ledger did not know.
pub open spec fn received_info(purpose: PaymentPurpose, amt: u64, claimed: bool) -> PaymentInfo {
    PaymentInfo {
        preimage: purpose.preimage(),
        secret: purpose.secret(),
        status: if claimed && purpose.preimage() is Some {
            HTLCStatus::Succeeded
        } else {
            HTLCStatus::Failed
        },
        amt_msat: MillisatAmount(Some(amt)),
    }
}

/// What the outcome of a claim does to the inbound table: an unknown payment
/// is entered in the state that it ended in; a known one is settled if the
/// claim succeeded and failed if it did not.
pub open spec fn claim_op(
    inbound: Map<PaymentHash, PaymentInfo>,
    payment_hash: PaymentHash,
    purpose: PaymentPurpose,
    amt: u64,
    claimed: bool,
) -> TableOp {
    if !inbound.dom().contains(payment_hash) {
        TableOp::Enter { hash: payment_hash, info: received_info(purpose, amt, claimed) }
    } else if claimed && purpose.preimage() is Some {
        TableOp::Settle {
            hash: payment_hash,
            preimage: purpose.preimage().unwrap(),
            secret: purpose.secret(),
        }
    } else {
        TableOp::Fail { hash: payment_hash }
    }
}

/// What `event` does to the inbound table, if anything: a received payment
/// that brings no preimage cannot be claimed and counts as failed.
pub open spec fn inbound_op(inbound: Map<PaymentHash, PaymentInfo>, event: Event) -> Option<TableOp> {
    match event {
        Event::PaymentReceived { payment_hash, amt, purpose } => if purpose.preimage() is None {
            Some(claim_op(inbound, payment_hash, purpose, amt, false))
        } else {
            None
        },
        _ => None,
    }
}

/// What `event` does to the outbound table, if anything.
pub open spec fn outbound_op(event: Event) -> Option<TableOp> {
    match event {
        Event::PaymentSent { payment_preimage, payment_hash, .. } => Some(
            TableOp::Settle { hash: payment_hash, preimage: payment_preimage, secret: None },
        ),
        Event::PaymentFailed { payment_hash } => Some(TableOp::Fail { hash: payment_hash }),
        _ => None,
    }
}

/// The table `m` after the operation `op`, where there is one.
pub open spec fn applied(op: Option<TableOp>, m: Map<PaymentHash, PaymentInfo>) -> Map<
    PaymentHash,
    PaymentInfo,
> {
    match op {
        Some(op) => op.apply(m),
        None => m,
    }
}

/// Records the outcome of a claim in the inbound table. A claim that
/// succeeded marks the payment as succeeded and keeps the preimage and the
/// secret; one that did not marks it as failed. A payment that the ledger
/// did not know, as is usual for a spontaneous one, is entered in the state
/// that it ended in. A payment that had succeeded or failed before stays as
/// it was.
pub fn payment_claimed(
    ledger: &mut PaymentLedger,
    payment_hash: PaymentHash,
    purpose: PaymentPurpose,
    amt: u64,
    claimed: bool,
)
    ensures
        final(ledger).inbound@ == claim_op(
            old(ledger).inbound@,
            payment_hash,
            purpose,
            amt,
            claimed,
        ).apply(old(ledger).inbound@),
        final(ledger).inbound.keys() == keys_with(
            old(ledger).inbound@,
            old(ledger).inbound.keys(),
            payment_hash,
        ),
        final(ledger).outbound == old(ledger).outbound,
{
    let (payment_preimage, payment_secret) = purpose.parts();
    let known = ledger.inbound.get(&payment_hash);
    match known {
        None => {
            let status = if claimed && payment_preimage.is_some() {
                HTLCStatus::Succeeded
            } else {
                HTLCStatus::Failed
            };
            ledger.inbound.enter(
                payment_hash,
                PaymentInfo {
                    preimage: payment_preimage,
                    secret: payment_secret,
                    status,
                    amt_msat: MillisatAmount(Some(amt)),
                },
            );
        },
        Some(_) => {
            match payment_preimage {
                Some(preimage) => {
                    if claimed {
                        let _ = ledger.inbound.settle(payment_hash, preimage, payment_secret);
                    } else {
                        let _ = ledger.inbound.fail(payment_hash);
                    }
                },
                None => {
                    let _ = ledger.inbound.fail(payment_hash);
                },
            }
        },
    }
}

/// Dispatches the engine's events.
#[derive(Clone, Copy, Debug, PartialEq, Eq)]
pub struct ServerEventHandler {
    pub network: Network,
}

impl ServerEventHandler {
    /// Takes an event: updates the ledger as the event calls for and says
    /// what is left to do. A sent payment is settled and a failed one failed
    /// in the outbound table, each only while it is pending, and an event for
    /// a payment that the table does not know changes nothing.
    pub fn handle_event(&self, ledger: &mut PaymentLedger, event: &Event) -> (reaction: Reaction)
        ensures
            reaction == reaction_to(*event),
            final(ledger).inbound@ == applied(
                inbound_op(old(ledger).inbound@, *event),
                old(ledger).inbound@,
            ),
            final(ledger).outbound@ == applied(outbound_op(*event), old(ledger).outbound@),
            inbound_op(old(ledger).inbound@, *event) is None ==> final(ledger).inbound == old(
                ledger,
            ).inbound,
            outbound_op(*event) is None ==> final(ledger).outbound == old(ledger).outbound,
            final(ledger).outbound.keys() == old(ledger).outbound.keys(),
            inbound_op(old(ledger).inbound@, *event) is Some ==> final(ledger).inbound.keys()
                == keys_with(
                old(ledger).inbound@,
                old(ledger).inbound.keys(),
                event->PaymentReceived_payment_hash,
            ),
    {
        match event {
            Event::FundingGenerationReady { .. } => Reaction::FundChannel,
            Event::PaymentReceived { payment_hash, amt, purpose } => {
                let (payment_preimage, _) = purpose.parts();
                match payment_preimage {
                    Some(payment_preimage) => Reaction::ClaimFunds {
                        payment_hash: *payment_hash,
                        payment_preimage,
                    },
                    None => {
                        payment_claimed(ledger, *payment_hash, *purpose, *amt, false);
                        Reaction::Done
                    },
                }
            },
            Event::PaymentSent { payment_preimage, payment_hash, .. } => {
                let _ = ledger.settle(*payment_hash, *payment_preimage, Direction::Outbound);
                Reaction::Done
            },
            Event::PaymentFailed { payment_hash } => {
                let _ = ledger.fail(*payment_hash, Direction::Outbound);
                Reaction::Done
            },
            Event::PaymentForwarded { .. } => Reaction::Report,
            Event::PendingHTLCsForwardable { time_forwardable_ms } => Reaction::ForwardLater {
                min_delay_ms: *time_forwardable_ms,
            },
            Event::SpendableOutputs { outputs } => Reaction::SweepOutputs { outputs: *outputs },
            Event::ChannelClosed { .. } => Reaction::Report,
            Event::OpenChannelRequest => Reaction::Done,
            Event::DiscardFunding => Reaction::Done,
        }
    }

    /// Begins the funding that a `FundingGenerationReady` event asks for, on
    /// the chain of this node.
    pub fn fund_channel(
        &self,
        temporary_channel_id: [u8; 32],
        channel_value_satoshis: u64,
        output_script: &[u8],
    ) -> (start: (FundingWorkflow, FundingStep))
        ensures
            (start.0, start.1@) == first_step(
                temporary_channel_id,
                channel_value_satoshis,
                funding_address(output_script@, self.network),
            ),
    {
        FundingWorkflow::begin(
            self.network,
            temporary_channel_id,
            channel_value_satoshis,
            output_script,
        )
    }
}

/// The delay, in milliseconds, before pending forwards are processed: the
/// least delay plus what `entropy` leaves when divided by four times the
/// least delay, so that it lies from the least delay up to, but not at, five
/// times as much. With a least delay of zero it is zero, and it never
/// exceeds what 64 bits hold.
pub open spec fn forward_delay(min_delay_ms: u64, entropy: u64) -> u64 {
    if min_delay_ms == 0 {
        0
    } else {
        let delay = min_delay_ms + entropy as int % (4 * min_delay_ms);
        if delay <= u64::MAX {
            delay as u64
        } else {
            u64::MAX
        }
    }
}

/// Draws the delay before pending forwards are processed from `entropy`,
/// which the caller takes from a random source. A delay that varies keeps an
/// observer from learning how long this node takes to forward.
pub fn forward_delay_ms(min_delay_ms: u64, entropy: u64) -> (delay: u64)
    ensures
        delay == forward_delay(min_delay_ms, entropy),
{
    if min_delay_ms == 0 {
        return 0;
    }
    let span: u128 = 4 * (min_delay_ms as u128);
    let delay: u128 = min_delay_ms as u128 + (entropy as u128) % span;
    if delay <= u64::MAX as u128 {
        delay as u64
    } else {
        u64::MAX
    }
}

/// Whatever the random source gives, the delay is at least the least delay
/// and less than five times as much; and every delay in that range is drawn
/// for some value of the source.
pub proof fn law_forward_delay_in_range(min_delay_ms: u64, entropy: u64)
    requires
        0 < min_delay_ms,
        5 * min_delay_ms <= u64::MAX,
    ensures
        min_delay_ms <= forward_delay(min_delay_ms, entropy) < 5 * min_delay_ms,
        forall|delay: u64|
            min_delay_ms <= delay < 5 * min_delay_ms ==> #[trigger] forward_delay(
                min_delay_ms,
                (delay - min_delay_ms) as u64,
            ) == delay,
{
    assert forall|delay: u64| min_delay_ms <= delay < 5 * min_delay_ms implies #[trigger] forward_delay(
        min_delay_ms,
        (delay - min_delay_ms) as u64,
    ) == delay by {
        let e = (delay - min_delay_ms) as int;
        assert(e % (4 * min_delay_ms) == e) by {
            vstd::arithmetic::div_mod::lemma_small_mod(e as nat, (4 * min_delay_ms) as nat);
        }
    }
}

/// The delays are drawn evenly: among any `4 * min_delay_ms` values of the
/// random source that follow one another from a multiple of that number,
/// each delay of the range is drawn for exactly one value.
pub proof fn law_forward_delay_is_even(min_delay_ms: u64, block: nat, delay: u64, entropy: u64)
    requires
        0 < min_delay_ms,
        5 * min_delay_ms <= u64::MAX,
        min_delay_ms <= delay < 5 * min_delay_ms,
        block * (4 * min_delay_ms) <= entropy < (block + 1) * (4 * min_delay_ms),
    ensures
        forward_delay(min_delay_ms, entropy) == delay <==> entropy == block * (4 * min_delay_ms)
            + (delay - min_delay_ms),
{
    let span = 4 * min_delay_ms as int;
    let rest = entropy as int - block * span;
    assert((block + 1) * span == block * span + span) by (nonlinear_arith);
    assert(0 <= rest < span);
    assert(entropy as int % span == rest) by {
        vstd::arithmetic::div_mod::lemma_fundamental_div_mod_converse(
            entropy as int,
            span,
            block as int,
            rest,
        );
    }
}

} // verus!
