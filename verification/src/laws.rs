//! What holds across commands and events.

use crate::events::{claim_op, PaymentPurpose};
use crate::hex_utils::hex_of;
use crate::ledger::recorded;
use crate::node_var::{HTLCStatus, MillisatAmount, NodePubkey, PaymentHash, PaymentInfo};
use crate::peer::{connect_step, connection_stands, ConnectStep};
use crate::server::{connect_answer, payment_order, Payable, Refusal};
use vstd::prelude::*;

verus! {

/// An invoice that the payee issued for an amount and the payer then paid
/// stands under the same payment hash and with the same amount in the
/// payee's inbound table and in the payer's outbound table, and it still
/// does once the payee has received the payment; a claim that succeeded
/// leaves the payee's record succeeded. This is stated of tables in which
/// the payment has not succeeded or failed before.
pub proof fn law_invoice_matches_on_both_ledgers(
    payee_inbound: Map<PaymentHash, PaymentInfo>,
    payer_outbound: Map<PaymentHash, PaymentInfo>,
    invoice: Seq<char>,
    issued: Payable,
    purpose: PaymentPurpose,
    claimed: bool,
)
    requires
        payment_order(invoice) == Ok::<Payable, Refusal>(issued),
        !(payee_inbound.dom().contains(issued.payment_hash)
            && payee_inbound[issued.payment_hash].status.is_final()),
        !(payer_outbound.dom().contains(issued.payment_hash)
            && payer_outbound[issued.payment_hash].status.is_final()),
    ensures
        ({
            let hash = issued.payment_hash;
            let at_payee = recorded(
                payee_inbound,
                hash,
                Some(issued.payment_secret),
                Some(issued.amount_msat),
            );
            let at_payer = recorded(
                payer_outbound,
                hash,
                Some(issued.payment_secret),
                Some(issued.amount_msat),
            );
            let received = claim_op(at_payee, hash, purpose, issued.amount_msat, claimed).apply(
                at_payee,
            );
            &&& at_payee.dom().contains(hash) && at_payer.dom().contains(hash)
            &&& at_payee[hash].amt_msat == MillisatAmount(Some(issued.amount_msat))
            &&& at_payer[hash].amt_msat == at_payee[hash].amt_msat
            &&& at_payer[hash].status == HTLCStatus::Pending
            &&& received.dom().contains(hash)
            &&& received[hash].amt_msat == at_payer[hash].amt_msat
            &&& received[hash].status == (if claimed && purpose.preimage() is Some {
                HTLCStatus::Succeeded
            } else {
                HTLCStatus::Failed
            })
        }),
{
}

/// A request to connect to a peer that is connected succeeds, however often
/// it is made and whatever dialling would have come to: no connection is to
/// be made for it, and the answer is the success.
pub proof fn law_connecting_a_connected_peer_succeeds(
    connected: Seq<NodePubkey>,
    pubkey: NodePubkey,
    dialled: bool,
)
    requires
        connected.contains(pubkey),
    ensures
        connect_step(connected, pubkey) == ConnectStep::AlreadyConnected,
        connect_answer(pubkey, connection_stands(connect_step(connected, pubkey), dialled))
            == Ok::<Seq<char>, Refusal>("SUCCESS: connected to peer "@ + hex_of(pubkey.0@)),
{
}

} // verus!
