//! Funding a channel: the steps between the engine's request for a funding
//! transaction and the hand-over of the signed transaction to the engine.
//!
//! The wallet is asked to build a transaction that pays the channel's value
//! to the funding address, then to fund it, then to sign it. The signed
//! transaction goes to the engine once, under the channel's temporary id,
//! and only if the wallet reports it as completely signed.

use crate::bindings::{address_of_script, push_char, script_address};
use crate::hex_utils::{decoded, to_vec};
use crate::node_var::Network;
use crate::server::ErrorKind;
use crate::text::{decimal, digit_char, digit_to_char, u64_to_string};
use vstd::prelude::*;
use vstd::string::*;

verus! {

/// Satoshis in one bitcoin.
pub const SATS_PER_BTC: u64 = 100_000_000;

/// Whether `script` is a witness program: a version byte, 0 or one of the
/// sixteen from 0x51 to 0x60, then a push of 2 to 40 bytes that makes up the
/// rest of the script.
pub open spec fn witness_program(script: Seq<u8>) -> bool {
    &&& 4 <= script.len() <= 42
    &&& (script[0] == 0 || 0x51 <= script[0] <= 0x60)
    &&& 2 <= script[1] <= 40
    &&& script.len() - 2 == script[1]
}

/// Whether an output script pays to a segregated-witness address.
pub fn is_witness_program(script: &[u8]) -> (b: bool)
    ensures
        b == witness_program(script@),
{
    script.len() >= 4 && script.len() <= 42 && (script[0] == 0 || (script[0] >= 0x51 && script[0]
        <= 0x60)) && script[1] >= 2 && script[1] <= 40 && script.len() - 2 == script[1] as usize
}

/// The last `digits` decimal digits of `n`, with leading zeros.
pub open spec fn padded(n: nat, digits: nat) -> Seq<char>
    decreases digits,
{
    if digits == 0 {
        Seq::empty()
    } else {
        padded(n / 10, (digits - 1) as nat).push(digit_char((n % 10) as int))
    }
}

/// An amount of satoshis written in bitcoin: the whole bitcoins, a point,
/// and the eight digits of the remaining satoshis.
pub open spec fn btc_text(sats: u64) -> Seq<char> {
    decimal((sats / SATS_PER_BTC) as nat) + "."@ + padded((sats % SATS_PER_BTC) as nat, 8)
}

/// Writes an amount of satoshis in bitcoin, at 100,000,000 satoshis to the
/// bitcoin.
pub fn btc_amount(sats: u64) -> (s: String)
    ensures
        s@ == btc_text(sats),
{
    let mut s = u64_to_string(sats / SATS_PER_BTC);
    s.append(".");
    let frac: u64 = sats % SATS_PER_BTC;
    let mut digits: Vec<char> = Vec::new();
    let mut rest: u64 = frac;
    let mut k: usize = 0;
    // The digits are found from the last to the first.
    while k < 8
        invariant
            k <= 8,
            digits@.len() == k,
            padded(frac as nat, 8) == padded(rest as nat, (8 - k) as nat) + digits@.reverse(),
        decreases 8 - k,
    {
        let d: u64 = rest % 10;
        let c = digit_to_char(d);
        let ghost before = digits@;
        digits.push(c);
        proof {
            assert(digits@.reverse() =~= seq![c] + before.reverse());
            assert(padded(rest as nat, (8 - k) as nat) == padded(
                (rest / 10) as nat,
                (8 - k - 1) as nat,
            ).push(c));
            assert(padded((rest / 10) as nat, (8 - k - 1) as nat).push(c) + before.reverse()
                =~= padded((rest / 10) as nat, (8 - k - 1) as nat) + (seq![c] + before.reverse()));
        }
        rest = rest / 10;
        k = k + 1;
    }
    let ghost head = s@;
    let mut i: usize = 8;
    while i > 0
        invariant
            i <= 8,
            digits@.len() == 8,
            s@ == head + digits@.reverse().take(8 - i),
        decreases i,
    {
        i = i - 1;
        push_char(&mut s, digits[i]);
        proof {
            let r = digits@.reverse();
            assert(r[7 - i] == digits@[i as int]);
            assert(r.take(8 - i) =~= r.take(7 - i).push(r[7 - i]));
            assert((head + r.take(7 - i)).push(r[7 - i]) =~= head + r.take(7 - i).push(r[7 - i]));
        }
    }
    proof {
        assert(digits@.reverse().take(8) =~= digits@.reverse());
        assert(padded(rest as nat, 0) =~= Seq::<char>::empty());
        assert(padded(frac as nat, 8) =~= digits@.reverse());
    }
    s
}

/// How the funding of a channel ended.
#[derive(Clone, Copy, Debug, PartialEq, Eq, Structural)]
pub enum FundingOutcome {
    /// The engine has the signed funding transaction.
    Funded,
    /// The engine refused the transaction: the channel went away before it
    /// could be funded. The funds stay unspent.
    ChannelGone,
    /// The wallet could not build, fund or sign the transaction.
    WalletFailure,
    /// Something that must hold did not: the output script pays to no
    /// witness address, the wallet reported a signed transaction as
    /// incomplete or gave one that is no hexadecimal text, or a reply came
    /// that was not waited for.
    InvariantViolation,
}

impl FundingOutcome {
    /// The kind of failure that the outcome is, if it is one.
    pub open spec fn failure(self) -> Option<ErrorKind> {
        match self {
            FundingOutcome::Funded => None,
            FundingOutcome::ChannelGone => Some(ErrorKind::EngineRejection),
            FundingOutcome::WalletFailure => Some(ErrorKind::WalletFailure),
            FundingOutcome::InvariantViolation => Some(ErrorKind::InternalInvariantViolation),
        }
    }

    /// The kind of failure that the outcome is, if it is one. None of them
    /// is fatal to the node: each ends this funding only.
    pub fn kind(&self) -> (kind: Option<ErrorKind>)
        ensures
            kind == self.failure(),
    {
        match self {
            FundingOutcome::Funded => None,
            FundingOutcome::ChannelGone => Some(ErrorKind::EngineRejection),
            FundingOutcome::WalletFailure => Some(ErrorKind::WalletFailure),
            FundingOutcome::InvariantViolation => Some(ErrorKind::InternalInvariantViolation),
        }
    }
}

/// Where the funding of a channel stands.
#[derive(Clone, Copy, Debug, PartialEq, Eq, Structural)]
pub enum FundingState {
    AwaitingRawTx,
    AwaitingFundedTx,
    AwaitingSignedTx,
    AwaitingHandoff,
    Finished(FundingOutcome),
}

/// The funding of one channel.
#[derive(Clone, Copy, Debug, PartialEq, Eq)]
pub struct FundingWorkflow {
    pub temporary_channel_id: [u8; 32],
    pub state: FundingState,
}

/// What the wallet or the engine replied to the last step.
#[derive(Clone, Debug, PartialEq, Eq)]
pub enum WalletReply {
    /// The unfunded transaction, in hexadecimal.
    RawTx(String),
    /// The transaction with inputs and change, in hexadecimal.
    FundedTx(String),
    /// The transaction after signing, and whether all inputs are signed.
    SignedTx { hex: String, complete: bool },
    /// The engine took the transaction.
    HandedOff,
    /// The engine refused the transaction.
    HandoffRefused,
    /// The wallet failed.
    Failed,
}

/// A wallet reply as contracts speak of it.
pub enum ReplyText {
    RawTx(Seq<char>),
    FundedTx(Seq<char>),
    SignedTx { hex: Seq<char>, complete: bool },
    HandedOff,
    HandoffRefused,
    Failed,
}

impl View for WalletReply {
    type V = ReplyText;

    open spec fn view(&self) -> ReplyText {
        match *self {
            WalletReply::RawTx(hex) => ReplyText::RawTx(hex@),
            WalletReply::FundedTx(hex) => ReplyText::FundedTx(hex@),
            WalletReply::SignedTx { hex, complete } => ReplyText::SignedTx { hex: hex@, complete },
            WalletReply::HandedOff => ReplyText::HandedOff,
            WalletReply::HandoffRefused => ReplyText::HandoffRefused,
            WalletReply::Failed => ReplyText::Failed,
        }
    }
}

/// What is to be done next for the funding of a channel.
#[derive(Clone, Debug, PartialEq, Eq)]
pub enum FundingStep {
    /// Ask the wallet for a transaction that pays exactly `amount_btc`
    /// bitcoin to `address`.
    CreateRawTransaction { address: String, amount_btc: String },
    /// Ask the wallet to add inputs and change.
    FundRawTransaction { raw_tx: String },
    /// Ask the wallet to sign.
    SignRawTransaction { funded_tx: String },
    /// Give the signed transaction to the engine.
    HandOff { temporary_channel_id: [u8; 32], transaction: Vec<u8> },
    /// Nothing more: the funding has ended.
    Finish(FundingOutcome),
}

/// A funding step as contracts speak of it.
pub enum StepText {
    CreateRawTransaction { address: Seq<char>, amount_btc: Seq<char> },
    FundRawTransaction { raw_tx: Seq<char> },
    SignRawTransaction { funded_tx: Seq<char> },
    HandOff { temporary_channel_id: [u8; 32], transaction: Seq<u8> },
    Finish(FundingOutcome),
}

impl View for FundingStep {
    type V = StepText;

    open spec fn view(&self) -> StepText {
        match *self {
            FundingStep::CreateRawTransaction { address, amount_btc } => StepText::CreateRawTransaction {
                address: address@,
                amount_btc: amount_btc@,
            },
            FundingStep::FundRawTransaction { raw_tx } => StepText::FundRawTransaction {
                raw_tx: raw_tx@,
            },
            FundingStep::SignRawTransaction { funded_tx } => StepText::SignRawTransaction {
                funded_tx: funded_tx@,
            },
            FundingStep::HandOff { temporary_channel_id, transaction } => StepText::HandOff {
                temporary_channel_id,
                transaction: transaction@,
            },
            FundingStep::Finish(outcome) => StepText::Finish(outcome),
        }
    }
}

/// The funding address of a channel: the address of its output script on
/// the node's chain, where the script is a witness program.
pub open spec fn funding_address(script: Seq<u8>, network: Network) -> Option<Seq<char>> {
    if witness_program(script) {
        address_of_script(script, network)
    } else {
        None
    }
}

/// How a funding begins, given the funding address.
pub open spec fn first_step(
    temporary_channel_id: [u8; 32],
    channel_value_satoshis: u64,
    address: Option<Seq<char>>,
) -> (FundingWorkflow, StepText) {
    match address {
        Some(address) => (
            FundingWorkflow { temporary_channel_id, state: FundingState::AwaitingRawTx },
            StepText::CreateRawTransaction { address, amount_btc: btc_text(channel_value_satoshis) },
        ),
        None => (
            FundingWorkflow {
                temporary_channel_id,
                state: FundingState::Finished(FundingOutcome::InvariantViolation),
            },
            StepText::Finish(FundingOutcome::InvariantViolation),
        ),
    }
}

/// How a funding ends with `outcome`.
pub open spec fn finish(w: FundingWorkflow, outcome: FundingOutcome) -> (FundingWorkflow, StepText) {
    (
        FundingWorkflow {
            temporary_channel_id: w.temporary_channel_id,
            state: FundingState::Finished(outcome),
        },
        StepText::Finish(outcome),
    )
}

/// How a funding goes on to wait in `state` and asks for `step`.
pub open spec fn proceed(w: FundingWorkflow, state: FundingState, step: StepText) -> (
    FundingWorkflow,
    StepText,
) {
    (FundingWorkflow { temporary_channel_id: w.temporary_channel_id, state }, step)
}

/// The funding after a reply, and the step that follows.
pub open spec fn next(w: FundingWorkflow, reply: ReplyText) -> (FundingWorkflow, StepText) {
    match w.state {
        FundingState::Finished(outcome) => finish(w, outcome),
        FundingState::AwaitingRawTx => match reply {
            ReplyText::RawTx(hex) => proceed(
                w,
                FundingState::AwaitingFundedTx,
                StepText::FundRawTransaction { raw_tx: hex },
            ),
            ReplyText::Failed => finish(w, FundingOutcome::WalletFailure),
            _ => finish(w, FundingOutcome::InvariantViolation),
        },
        FundingState::AwaitingFundedTx => match reply {
            ReplyText::FundedTx(hex) => proceed(
                w,
                FundingState::AwaitingSignedTx,
                StepText::SignRawTransaction { funded_tx: hex },
            ),
            ReplyText::Failed => finish(w, FundingOutcome::WalletFailure),
            _ => finish(w, FundingOutcome::InvariantViolation),
        },
        FundingState::AwaitingSignedTx => match reply {
            ReplyText::SignedTx { hex, complete } => if complete && decoded(hex) is Some {
                proceed(
                    w,
                    FundingState::AwaitingHandoff,
                    StepText::HandOff {
                        temporary_channel_id: w.temporary_channel_id,
                        transaction: decoded(hex).unwrap(),
                    },
                )
            } else {
                finish(w, FundingOutcome::InvariantViolation)
            },
            ReplyText::Failed => finish(w, FundingOutcome::WalletFailure),
            _ => finish(w, FundingOutcome::InvariantViolation),
        },
        FundingState::AwaitingHandoff => match reply {
            ReplyText::HandedOff => finish(w, FundingOutcome::Funded),
            ReplyText::HandoffRefused => finish(w, FundingOutcome::ChannelGone),
            ReplyText::Failed => finish(w, FundingOutcome::WalletFailure),
            _ => finish(w, FundingOutcome::InvariantViolation),
        },
    }
}

impl FundingWorkflow {
    /// Begins the funding of a channel: derives the funding address from the
    /// output script on the node's chain and asks for a transaction that
    /// pays the channel's value to it.
    pub fn begin(
        network: Network,
        temporary_channel_id: [u8; 32],
        channel_value_satoshis: u64,
        output_script: &[u8],
    ) -> (start: (FundingWorkflow, FundingStep))
        ensures
            (start.0, start.1@) == first_step(
                temporary_channel_id,
                channel_value_satoshis,
                funding_address(output_script@, network),
            ),
    {
        let address = if is_witness_program(output_script) {
            script_address(output_script, network)
        } else {
            None
        };
        FundingWorkflow::begin_with_address(temporary_channel_id, channel_value_satoshis, address)
    }

    /// Begins the funding of a channel whose funding address is known. With
    /// no address there is nothing to pay to, and the funding ends at once.
    pub fn begin_with_address(
        temporary_channel_id: [u8; 32],
        channel_value_satoshis: u64,
        address: Option<String>,
    ) -> (start: (FundingWorkflow, FundingStep))
        ensures
            (start.0, start.1@) == first_step(
                temporary_channel_id,
                channel_value_satoshis,
                match address {
                    Some(a) => Some(a@),
                    None => None,
                },
            ),
    {
        match address {
            Some(address) => (
                FundingWorkflow { temporary_channel_id, state: FundingState::AwaitingRawTx },
                FundingStep::CreateRawTransaction {
                    address,
                    amount_btc: btc_amount(channel_value_satoshis),
                },
            ),
            None => (
                FundingWorkflow {
                    temporary_channel_id,
                    state: FundingState::Finished(FundingOutcome::InvariantViolation),
                },
                FundingStep::Finish(FundingOutcome::InvariantViolation),
            ),
        }
    }

    fn end(&self, outcome: FundingOutcome) -> (r: (FundingWorkflow, FundingStep))
        ensures
            (r.0, r.1@) == finish(*self, outcome),
    {
        (
            FundingWorkflow {
                temporary_channel_id: self.temporary_channel_id,
                state: FundingState::Finished(outcome),
            },
            FundingStep::Finish(outcome),
        )
    }

    fn go(&self, state: FundingState, step: FundingStep) -> (r: (FundingWorkflow, FundingStep))
        ensures
            (r.0, r.1@) == proceed(*self, state, step@),
    {
        (FundingWorkflow { temporary_channel_id: self.temporary_channel_id, state }, step)
    }

    /// Takes the reply to the last step and says what follows. The signed
    /// transaction is given to the engine only if the wallet reports it as
    /// complete; a wallet failure ends the funding, and so does a reply that
    /// was not waited for.
    pub fn advance(&self, reply: WalletReply) -> (then_do: (FundingWorkflow, FundingStep))
        ensures
            (then_do.0, then_do.1@) == next(*self, reply@),
    {
        match self.state {
            FundingState::Finished(outcome) => self.end(outcome),
            FundingState::AwaitingRawTx => match reply {
                WalletReply::RawTx(hex) => self.go(
                    FundingState::AwaitingFundedTx,
                    FundingStep::FundRawTransaction { raw_tx: hex },
                ),
                WalletReply::Failed => self.end(FundingOutcome::WalletFailure),
                _ => self.end(FundingOutcome::InvariantViolation),
            },
            FundingState::AwaitingFundedTx => match reply {
                WalletReply::FundedTx(hex) => self.go(
                    FundingState::AwaitingSignedTx,
                    FundingStep::SignRawTransaction { funded_tx: hex },
                ),
                WalletReply::Failed => self.end(FundingOutcome::WalletFailure),
                _ => self.end(FundingOutcome::InvariantViolation),
            },
            FundingState::AwaitingSignedTx => match reply {
                WalletReply::SignedTx { hex, complete } => {
                    if !complete {
                        return self.end(FundingOutcome::InvariantViolation);
                    }
                    match to_vec(hex.as_str()) {
                        Some(transaction) => self.go(
                            FundingState::AwaitingHandoff,
                            FundingStep::HandOff {
                                temporary_channel_id: self.temporary_channel_id,
                                transaction,
                            },
                        ),
                        None => self.end(FundingOutcome::InvariantViolation),
                    }
                },
                WalletReply::Failed => self.end(FundingOutcome::WalletFailure),
                _ => self.end(FundingOutcome::InvariantViolation),
            },
            FundingState::AwaitingHandoff => match reply {
                WalletReply::HandedOff => self.end(FundingOutcome::Funded),
                WalletReply::HandoffRefused => self.end(FundingOutcome::ChannelGone),
                WalletReply::Failed => self.end(FundingOutcome::WalletFailure),
                _ => self.end(FundingOutcome::InvariantViolation),
            },
        }
    }
}

/// The funding after the replies `replies`, taken in order.
pub open spec fn after_replies(w: FundingWorkflow, replies: Seq<ReplyText>) -> FundingWorkflow
    decreases replies.len(),
{
    if replies.len() == 0 {
        w
    } else {
        next(after_replies(w, replies.drop_last()), replies.last()).0
    }
}

/// How many times the replies `replies`, taken in order, led to a
/// hand-over of a transaction to the engine.
pub open spec fn handoffs(w: FundingWorkflow, replies: Seq<ReplyText>) -> nat
    decreases replies.len(),
{
    if replies.len() == 0 {
        0
    } else {
        let before = handoffs(w, replies.drop_last());
        if next(after_replies(w, replies.drop_last()), replies.last()).1 is HandOff {
            before + 1
        } else {
            before
        }
    }
}

/// A transaction is handed to the engine exactly when the wallet's reply to
/// the request to sign reports a completely signed transaction in
/// hexadecimal; what is handed over is that transaction, under the temporary
/// id of the channel that is being funded.
pub proof fn law_handoff_needs_complete_signature(w: FundingWorkflow, reply: ReplyText)
    ensures
        next(w, reply).1 is HandOff <==> (w.state == FundingState::AwaitingSignedTx
            && reply is SignedTx && reply->complete && decoded(reply->SignedTx_hex) is Some),
        next(w, reply).1 is HandOff ==> next(w, reply).1 == (StepText::HandOff {
            temporary_channel_id: w.temporary_channel_id,
            transaction: decoded(reply->SignedTx_hex).unwrap(),
        }),
        next(w, reply).0.temporary_channel_id == w.temporary_channel_id,
{
}

/// Whatever the wallet and the engine reply, and however often, one funding
/// hands at most one transaction to the engine, and none once it waits for
/// the engine's answer or has ended.
pub proof fn law_at_most_one_handoff(w: FundingWorkflow, replies: Seq<ReplyText>)
    ensures
        handoffs(w, replies) <= 1,
        w.state is AwaitingHandoff || w.state is Finished ==> handoffs(w, replies) == 0,
        handoffs(w, replies) == 1 ==> after_replies(w, replies).state is AwaitingHandoff
            || after_replies(w, replies).state is Finished,
        w.state is AwaitingHandoff || w.state is Finished ==> after_replies(
            w,
            replies,
        ).state is AwaitingHandoff || after_replies(w, replies).state is Finished,
        after_replies(w, replies).temporary_channel_id == w.temporary_channel_id,
    decreases replies.len(),
{
    if replies.len() > 0 {
        law_at_most_one_handoff(w, replies.drop_last());
        law_handoff_needs_complete_signature(
            after_replies(w, replies.drop_last()),
            replies.last(),
        );
    }
}

/// The replies of a funding in which nothing goes wrong: the raw, the funded
/// and the completely signed transaction, and the engine's acceptance.
pub open spec fn smooth_replies(raw_tx: Seq<char>, funded_tx: Seq<char>, signed_tx: Seq<char>) -> Seq<
    ReplyText,
> {
    seq![
        ReplyText::RawTx(raw_tx),
        ReplyText::FundedTx(funded_tx),
        ReplyText::SignedTx { hex: signed_tx, complete: true },
        ReplyText::HandedOff,
    ]
}

/// When the wallet returns the raw, the funded and the completely signed
/// transaction and the engine accepts, the funding of a channel hands
/// exactly one transaction to the engine, the signed one under the
/// channel's temporary id, and ends as funded.
pub proof fn law_smooth_funding_hands_over_once(
    temporary_channel_id: [u8; 32],
    channel_value_satoshis: u64,
    address: Seq<char>,
    raw_tx: Seq<char>,
    funded_tx: Seq<char>,
    signed_tx: Seq<char>,
)
    requires
        decoded(signed_tx) is Some,
    ensures
        ({
            let start = first_step(temporary_channel_id, channel_value_satoshis, Some(address)).0;
            let replies = smooth_replies(raw_tx, funded_tx, signed_tx);
            &&& handoffs(start, replies) == 1
            &&& next(after_replies(start, replies.take(2)), replies[2]).1 == (StepText::HandOff {
                temporary_channel_id,
                transaction: decoded(signed_tx).unwrap(),
            })
            &&& after_replies(start, replies).state == FundingState::Finished(
                FundingOutcome::Funded,
            )
        }),
{
    let start = first_step(temporary_channel_id, channel_value_satoshis, Some(address)).0;
    let replies = smooth_replies(raw_tx, funded_tx, signed_tx);
    let r0 = replies.take(0);
    let r1 = replies.take(1);
    let r2 = replies.take(2);
    let r3 = replies.take(3);
    assert(replies.drop_last() =~= r3);
    assert(r3.drop_last() =~= r2);
    assert(r2.drop_last() =~= r1);
    assert(r1.drop_last() =~= r0);
    assert(after_replies(start, r0) == start);
    assert(handoffs(start, r0) == 0);
    assert(after_replies(start, r1).state == FundingState::AwaitingFundedTx);
    assert(handoffs(start, r1) == 0);
    assert(after_replies(start, r2).state == FundingState::AwaitingSignedTx);
    assert(handoffs(start, r2) == 0);
    assert(after_replies(start, r3).state == FundingState::AwaitingHandoff);
    assert(handoffs(start, r3) == 1);
    assert(after_replies(start, r2).temporary_channel_id == temporary_channel_id);
}

} // verus!
