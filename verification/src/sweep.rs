//! Sweeping spendable outputs: all outputs of one event go into a single
//! transaction to a fresh address of the wallet, and that transaction is
//! broadcast once. If it cannot be signed nothing is broadcast, and the
//! outputs stay spendable.

use crate::server::ErrorKind;
use vstd::prelude::*;

verus! {

/// How a sweep ended.
#[derive(Clone, Copy, Debug, PartialEq, Eq, Structural)]
pub enum SweepOutcome {
    /// The sweep transaction was given out for broadcast.
    Broadcast,
    /// The transaction could not be signed. Nothing was broadcast.
    SigningFailure,
    /// The wallet gave no address. Nothing was broadcast.
    WalletFailure,
    /// A reply came that was not waited for. Nothing more is broadcast.
    InvariantViolation,
}

impl SweepOutcome {
    /// The kind of failure that the outcome is, if it is one.
    pub open spec fn failure(self) -> Option<ErrorKind> {
        match self {
            SweepOutcome::Broadcast => None,
            SweepOutcome::SigningFailure => Some(ErrorKind::WalletFailure),
            SweepOutcome::WalletFailure => Some(ErrorKind::WalletFailure),
            SweepOutcome::InvariantViolation => Some(ErrorKind::InternalInvariantViolation),
        }
    }

    /// The kind of failure that the outcome is, if it is one. After any of
    /// them the outputs are still spendable, and a later event brings them
    /// again.
    pub fn kind(&self) -> (kind: Option<ErrorKind>)
        ensures
            kind == self.failure(),
    {
        match self {
            SweepOutcome::Broadcast => None,
            SweepOutcome::SigningFailure => Some(ErrorKind::WalletFailure),
            SweepOutcome::WalletFailure => Some(ErrorKind::WalletFailure),
            SweepOutcome::InvariantViolation => Some(ErrorKind::InternalInvariantViolation),
        }
    }
}

/// Where a sweep stands.
#[derive(Clone, Copy, Debug, PartialEq, Eq, Structural)]
pub enum SweepState {
    AwaitingAddress,
    AwaitingTransaction,
    Finished(SweepOutcome),
}

/// The sweep of the outputs of one event.
#[derive(Clone, Copy, Debug, PartialEq, Eq, Structural)]
pub struct SweepWorkflow {
    /// How many outputs the event brought.
    pub outputs: usize,
    pub state: SweepState,
}

/// What the wallet or the key manager replied to the last step.
#[derive(Clone, Debug, PartialEq, Eq)]
pub enum SweepReply {
    /// A fresh address of the wallet.
    Address(String),
    /// The signed transaction that spends the outputs.
    Transaction(Vec<u8>),
    /// The transaction could not be built or signed.
    SigningFailed,
    /// The wallet failed.
    Failed,
}

/// A sweep reply as contracts speak of it.
pub enum SweepReplyText {
    Address(Seq<char>),
    Transaction(Seq<u8>),
    SigningFailed,
    Failed,
}

impl View for SweepReply {
    type V = SweepReplyText;

    open spec fn view(&self) -> SweepReplyText {
        match *self {
            SweepReply::Address(address) => SweepReplyText::Address(address@),
            SweepReply::Transaction(transaction) => SweepReplyText::Transaction(transaction@),
            SweepReply::SigningFailed => SweepReplyText::SigningFailed,
            SweepReply::Failed => SweepReplyText::Failed,
        }
    }
}

/// What is to be done next for a sweep.
#[derive(Clone, Debug, PartialEq, Eq)]
pub enum SweepStep {
    /// Ask the wallet for one fresh address.
    GetNewAddress,
    /// Build and sign one transaction that spends all `outputs` outputs to
    /// `destination`.
    SpendAll { outputs: usize, destination: String },
    /// Broadcast the transaction.
    Broadcast { transaction: Vec<u8> },
    /// Nothing more: the sweep has ended.
    Finish(SweepOutcome),
}

/// A sweep step as contracts speak of it.
pub enum SweepStepText {
    GetNewAddress,
    SpendAll { outputs: usize, destination: Seq<char> },
    Broadcast { transaction: Seq<u8> },
    Finish(SweepOutcome),
}

impl View for SweepStep {
    type V = SweepStepText;

    open spec fn view(&self) -> SweepStepText {
        match *self {
            SweepStep::GetNewAddress => SweepStepText::GetNewAddress,
            SweepStep::SpendAll { outputs, destination } => SweepStepText::SpendAll {
                outputs,
                destination: destination@,
            },
            SweepStep::Broadcast { transaction } => SweepStepText::Broadcast {
                transaction: transaction@,
            },
            SweepStep::Finish(outcome) => SweepStepText::Finish(outcome),
        }
    }
}

/// A sweep that has come to `state`.
pub open spec fn sweep_in(w: SweepWorkflow, state: SweepState) -> SweepWorkflow {
    SweepWorkflow { outputs: w.outputs, state }
}

/// The sweep after a reply, and the step that follows.
pub open spec fn next_sweep(w: SweepWorkflow, reply: SweepReplyText) -> (SweepWorkflow, SweepStepText) {
    match w.state {
        SweepState::Finished(outcome) => (w, SweepStepText::Finish(outcome)),
        SweepState::AwaitingAddress => match reply {
            SweepReplyText::Address(destination) => (
                sweep_in(w, SweepState::AwaitingTransaction),
                SweepStepText::SpendAll { outputs: w.outputs, destination },
            ),
            SweepReplyText::Failed => (
                sweep_in(w, SweepState::Finished(SweepOutcome::WalletFailure)),
                SweepStepText::Finish(SweepOutcome::WalletFailure),
            ),
            _ => (
                sweep_in(w, SweepState::Finished(SweepOutcome::InvariantViolation)),
                SweepStepText::Finish(SweepOutcome::InvariantViolation),
            ),
        },
        SweepState::AwaitingTransaction => match reply {
            SweepReplyText::Transaction(transaction) => (
                sweep_in(w, SweepState::Finished(SweepOutcome::Broadcast)),
                SweepStepText::Broadcast { transaction },
            ),
            SweepReplyText::SigningFailed => (
                sweep_in(w, SweepState::Finished(SweepOutcome::SigningFailure)),
                SweepStepText::Finish(SweepOutcome::SigningFailure),
            ),
            SweepReplyText::Failed => (
                sweep_in(w, SweepState::Finished(SweepOutcome::WalletFailure)),
                SweepStepText::Finish(SweepOutcome::WalletFailure),
            ),
            _ => (
                sweep_in(w, SweepState::Finished(SweepOutcome::InvariantViolation)),
                SweepStepText::Finish(SweepOutcome::InvariantViolation),
            ),
        },
    }
}

impl SweepWorkflow {
    /// Begins the sweep of the `outputs` outputs of one event: first one
    /// fresh address is wanted.
    pub fn begin(outputs: usize) -> (start: (SweepWorkflow, SweepStep))
        ensures
            start.0 == (SweepWorkflow { outputs, state: SweepState::AwaitingAddress }),
            start.1@ == SweepStepText::GetNewAddress,
    {
        (SweepWorkflow { outputs, state: SweepState::AwaitingAddress }, SweepStep::GetNewAddress)
    }

    fn end(&self, outcome: SweepOutcome) -> (r: (SweepWorkflow, SweepStep))
        ensures
            r.0 == sweep_in(*self, SweepState::Finished(outcome)),
            r.1@ == SweepStepText::Finish(outcome),
    {
        (
            SweepWorkflow { outputs: self.outputs, state: SweepState::Finished(outcome) },
            SweepStep::Finish(outcome),
        )
    }

    /// Takes the reply to the last step and says what follows.
    pub fn advance(&self, reply: SweepReply) -> (then_do: (SweepWorkflow, SweepStep))
        ensures
            (then_do.0, then_do.1@) == next_sweep(*self, reply@),
    {
        match self.state {
            SweepState::Finished(outcome) => (*self, SweepStep::Finish(outcome)),
            SweepState::AwaitingAddress => match reply {
                SweepReply::Address(destination) => (
                    SweepWorkflow { outputs: self.outputs, state: SweepState::AwaitingTransaction },
                    SweepStep::SpendAll { outputs: self.outputs, destination },
                ),
                SweepReply::Failed => self.end(SweepOutcome::WalletFailure),
                _ => self.end(SweepOutcome::InvariantViolation),
            },
            SweepState::AwaitingTransaction => match reply {
                SweepReply::Transaction(transaction) => (
                    SweepWorkflow {
                        outputs: self.outputs,
                        state: SweepState::Finished(SweepOutcome::Broadcast),
                    },
                    SweepStep::Broadcast { transaction },
                ),
                SweepReply::SigningFailed => self.end(SweepOutcome::SigningFailure),
                SweepReply::Failed => self.end(SweepOutcome::WalletFailure),
                _ => self.end(SweepOutcome::InvariantViolation),
            },
        }
    }
}

/// The sweep after the replies `replies`, taken in order.
pub open spec fn sweep_after(w: SweepWorkflow, replies: Seq<SweepReplyText>) -> SweepWorkflow
    decreases replies.len(),
{
    if replies.len() == 0 {
        w
    } else {
        next_sweep(sweep_after(w, replies.drop_last()), replies.last()).0
    }
}

/// How many times the replies `replies`, taken in order, led to a broadcast.
pub open spec fn broadcasts(w: SweepWorkflow, replies: Seq<SweepReplyText>) -> nat
    decreases replies.len(),
{
    if replies.len() == 0 {
        0
    } else {
        let before = broadcasts(w, replies.drop_last());
        if next_sweep(sweep_after(w, replies.drop_last()), replies.last()).1 is Broadcast {
            before + 1
        } else {
            before
        }
    }
}

/// A sweep asks for one transaction that spends all the outputs of its
/// event, and broadcasts only the transaction that it is given in reply:
/// never after a signing failure, and never a part of the batch.
pub proof fn law_sweep_is_whole(w: SweepWorkflow, reply: SweepReplyText)
    ensures
        next_sweep(w, reply).1 is SpendAll ==> next_sweep(w, reply).1->SpendAll_outputs
            == w.outputs,
        next_sweep(w, reply).1 is Broadcast <==> (w.state == SweepState::AwaitingTransaction
            && reply is Transaction),
        next_sweep(w, reply).1 is Broadcast ==> next_sweep(w, reply).1->transaction
            == reply->Transaction_0,
        reply is SigningFailed ==> !(next_sweep(w, reply).1 is Broadcast) && next_sweep(
            w,
            reply,
        ).0.state is Finished,
        next_sweep(w, reply).0.outputs == w.outputs,
{
}

/// Whatever is replied, and however often, one sweep broadcasts at most one
/// transaction, and none after it has ended.
pub proof fn law_at_most_one_broadcast(w: SweepWorkflow, replies: Seq<SweepReplyText>)
    ensures
        broadcasts(w, replies) <= 1,
        w.state is Finished ==> broadcasts(w, replies) == 0 && sweep_after(w, replies) == w,
        broadcasts(w, replies) == 1 ==> sweep_after(w, replies).state is Finished,
    decreases replies.len(),
{
    if replies.len() > 0 {
        law_at_most_one_broadcast(w, replies.drop_last());
        law_sweep_is_whole(sweep_after(w, replies.drop_last()), replies.last());
    }
}

} // verus!
