//! The request facade: what each operator command checks before the engine
//! is asked, and what it answers once the engine has replied.
//!
//! A command is handled in steps. The first step looks at the request alone
//! and either refuses it or says what the engine is to be asked. The last
//! step takes the engine's reply as plain values, updates the payment ledger
//! where the command calls for it, and gives the answer to send back.

use crate::bindings::{
    decode_invoice, invoice_reading, message_signature, push_char, sign_with_key, DecodedInvoice,
};
use crate::events::ServerEventHandler;
use crate::hex_utils::{decoded, hex_of, hex_str, to_vec};
use crate::invoice::{amount_fits, names_too_much};
use crate::ledger::{keys_with, recorded, Direction, LedgerRow, PaymentLedger};
use crate::node_var::{Currency, Network, NodePubkey, PaymentHash, PaymentInfo, PaymentSecret};
use crate::peer::{
    parse_peer_info, peer_key, peer_parts, split_peer_info, PeerInfoError, PeerParts,
};
use crate::text::{decimal, join2, join3, parse_u64, parsed_u64, text_is, u64_to_string};
use vstd::prelude::*;
use vstd::string::*;

verus! {

/// The status line of an answer that reports a failure.
#[derive(Clone, Copy, Debug, PartialEq, Eq, Structural)]
pub enum Status {
    /// 400
    BadRequest,
    /// 417
    ExpectationFailed,
    /// 500
    InternalServerError,
}

impl Status {
    /// The number of the status.
    pub fn code(&self) -> (n: u16)
        ensures
            n == match *self {
                Status::BadRequest => 400u16,
                Status::ExpectationFailed => 417u16,
                Status::InternalServerError => 500u16,
            },
    {
        match self {
            Status::BadRequest => 400,
            Status::ExpectationFailed => 417,
            Status::InternalServerError => 500,
        }
    }
}

/// The kinds of failure that a command can meet.
#[derive(Clone, Copy, Debug, PartialEq, Eq, Structural)]
pub enum ErrorKind {
    /// A field of the request is missing or malformed. Nothing was changed.
    ClientInputError,
    /// The channel or peer engine declined.
    EngineRejection,
    /// The wallet could not build, sign or broadcast.
    WalletFailure,
    /// Something that must hold did not.
    InternalInvariantViolation,
}

/// The body of an answer that reports a failure.
#[derive(Clone, Debug, PartialEq, Eq)]
pub struct ServerError {
    pub error: String,
}

/// The body of an answer that reports a success.
#[derive(Clone, Debug, PartialEq, Eq)]
pub struct ServerSuccess {
    pub msg: String,
}

/// An answer that reports a failure.
#[derive(Clone, Debug, PartialEq, Eq)]
pub struct Rejection {
    pub kind: ErrorKind,
    pub status: Status,
    pub body: ServerError,
}

/// A failure as contracts speak of it: its kind, its status and its words.
pub struct Refusal {
    pub kind: ErrorKind,
    pub status: Status,
    pub words: Seq<char>,
}

impl View for Rejection {
    type V = Refusal;

    open spec fn view(&self) -> Refusal {
        Refusal { kind: self.kind, status: self.status, words: self.body.error@ }
    }
}

/// The refusal of a request with a missing or malformed field.
pub open spec fn bad_request(words: Seq<char>) -> Refusal {
    Refusal { kind: ErrorKind::ClientInputError, status: Status::BadRequest, words }
}

/// An answer as contracts speak of it: the words of the success, or the
/// refusal.
pub open spec fn said(reply: Result<ServerSuccess, Rejection>) -> Result<Seq<char>, Refusal> {
    match reply {
        Ok(success) => Ok(success.msg@),
        Err(rejection) => Err(rejection@),
    }
}

/// The answer to a request that met an internal fault, such as a lock that
/// could not be taken: the fault ends the request, not the node.
pub fn internal_error(words: &str) -> (r: Rejection)
    ensures
        r@ == (Refusal {
            kind: ErrorKind::InternalInvariantViolation,
            status: Status::InternalServerError,
            words: words@,
        }),
{
    refuse(
        ErrorKind::InternalInvariantViolation,
        Status::InternalServerError,
        String::from_str(words),
    )
}

fn refuse(kind: ErrorKind, status: Status, words: String) -> (r: Rejection)
    ensures
        r@ == (Refusal { kind, status, words: words@ }),
{
    Rejection { kind, status, body: ServerError { error: words } }
}

fn refuse_input(words: &str) -> (r: Rejection)
    ensures
        r@ == bad_request(words@),
{
    refuse(ErrorKind::ClientInputError, Status::BadRequest, String::from_str(words))
}

/// How each command is used.
#[derive(Clone, Debug, PartialEq, Eq)]
pub struct Help {
    pub openchannel: String,
    pub sendpayment: String,
    pub getinvoice: String,
    pub connectpeer: String,
    pub listchannels: String,
    pub listpayments: String,
    pub closechannel: String,
    pub forceclosechannel: String,
    pub nodeinfo: String,
    pub listpeers: String,
    pub signmessage: String,
}

/// Get helpful information on how to interact with the lightning node
pub fn help() -> (help: Help)
    ensures
        help.openchannel@ == "pubkey@host:port <amt_satoshis>"@,
        help.sendpayment@ == "<invoice>"@,
        help.getinvoice@ == "<amt_millisatoshis>"@,
        help.connectpeer@ == "pubkey@host:port"@,
        help.listchannels@ == ""@,
        help.listpayments@ == ""@,
        help.closechannel@ == "<channel_id>"@,
        help.forceclosechannel@ == "<channel_id>"@,
        help.nodeinfo@ == ""@,
        help.listpeers@ == ""@,
        help.signmessage@ == "<message>"@,
{
    Help {
        openchannel: String::from_str("pubkey@host:port <amt_satoshis>"),
        sendpayment: String::from_str("<invoice>"),
        getinvoice: String::from_str("<amt_millisatoshis>"),
        connectpeer: String::from_str("pubkey@host:port"),
        listchannels: String::from_str(""),
        listpayments: String::from_str(""),
        closechannel: String::from_str("<channel_id>"),
        forceclosechannel: String::from_str("<channel_id>"),
        nodeinfo: String::from_str(""),
        listpeers: String::from_str(""),
        signmessage: String::from_str("<message>"),
    }
}

/// The request to close a channel, cooperatively or by force.
#[derive(Clone, Debug, PartialEq, Eq)]
pub struct Channel {
    pub channel_id: String,
}

/// The channel that a close request names: 32 bytes written in hexadecimal.
pub open spec fn channel_id_of(text: Seq<char>) -> Result<Seq<u8>, Refusal> {
    if text.len() == 0 {
        Err(bad_request("ERROR: closechannel requires a channel ID: `closechannel <channel_id>`"@))
    } else {
        match decoded(text) {
            Some(bytes) => if bytes.len() == 32 {
                Ok(bytes)
            } else {
                Err(bad_request("ERROR: couldn't parse channel_id"@))
            },
            None => Err(bad_request("ERROR: couldn't parse channel_id"@)),
        }
    }
}

/// What a cooperative close answers, given the engine's reply: `Err` holds
/// the engine's reason.
pub open spec fn close_answer(engine: Result<(), Seq<char>>) -> Result<Seq<char>, Refusal> {
    match engine {
        Ok(()) => Ok("EVENT: initiating channel close"@),
        Err(reason) => Err(
            Refusal {
                kind: ErrorKind::EngineRejection,
                status: Status::BadRequest,
                words: "ERROR: failed to close channel => "@ + reason,
            },
        ),
    }
}

/// What a forced close answers, given the engine's reply.
pub open spec fn force_close_answer(engine: Result<(), Seq<char>>) -> Result<Seq<char>, Refusal> {
    match engine {
        Ok(()) => Ok("EVENT: initiating channel force-close"@),
        Err(reason) => Err(
            Refusal {
                kind: ErrorKind::EngineRejection,
                status: Status::BadRequest,
                words: "ERROR: failed to force-close channel => "@ + reason,
            },
        ),
    }
}

/// The engine's reply to a close, as contracts speak of it.
pub open spec fn engine_said(engine: Result<(), String>) -> Result<(), Seq<char>> {
    match engine {
        Ok(()) => Ok(()),
        Err(reason) => Err(reason@),
    }
}

fn read_channel_id(req: &Channel) -> (id: Result<[u8; 32], Rejection>)
    ensures
        match id {
            Ok(bytes) => channel_id_of(req.channel_id@) == Ok::<Seq<u8>, Refusal>(bytes@),
            Err(e) => channel_id_of(req.channel_id@) == Err::<Seq<u8>, Refusal>(e@),
        },
{
    if req.channel_id.as_str().is_empty() {
        return Err(
            refuse_input("ERROR: closechannel requires a channel ID: `closechannel <channel_id>`"),
        );
    }
    match to_vec(req.channel_id.as_str()) {
        Some(bytes) => {
            if bytes.len() != 32 {
                return Err(refuse_input("ERROR: couldn't parse channel_id"));
            }
            let mut channel_id: [u8; 32] = [0u8;32];
            let mut i: usize = 0;
            while i < 32
                invariant
                    i <= 32,
                    bytes@.len() == 32,
                    forall|j: int| 0 <= j < i ==> channel_id@[j] == bytes@[j],
                decreases 32 - i,
            {
                channel_id[i] = bytes[i];
                i = i + 1;
            }
            assert(channel_id@ =~= bytes@);
            Ok(channel_id)
        },
        None => Err(refuse_input("ERROR: couldn't parse channel_id")),
    }
}

/// closechannel: reads the channel to close. An id that is empty, or that is
/// not 32 bytes in hexadecimal, is refused here, and the engine is not
/// asked.
pub fn close_channel_request(req: &Channel) -> (id: Result<[u8; 32], Rejection>)
    ensures
        match id {
            Ok(bytes) => channel_id_of(req.channel_id@) == Ok::<Seq<u8>, Refusal>(bytes@),
            Err(e) => channel_id_of(req.channel_id@) == Err::<Seq<u8>, Refusal>(e@),
        },
{
    read_channel_id(req)
}

/// closechannel: the answer once the engine has replied. Success says that
/// the close was started, not that it is done.
pub fn close_channel_reply(engine: Result<(), String>) -> (reply: Result<ServerSuccess, Rejection>)
    ensures
        said(reply) == close_answer(engine_said(engine)),
{
    match engine {
        Ok(()) => Ok(ServerSuccess { msg: String::from_str("EVENT: initiating channel close") }),
        Err(reason) => Err(
            refuse(
                ErrorKind::EngineRejection,
                Status::BadRequest,
                join2("ERROR: failed to close channel => ", reason.as_str()),
            ),
        ),
    }
}

/// forceclosechannel: reads the channel to close, as `close_channel_request`
/// does.
pub fn force_close_channel_request(req: &Channel) -> (id: Result<[u8; 32], Rejection>)
    ensures
        match id {
            Ok(bytes) => channel_id_of(req.channel_id@) == Ok::<Seq<u8>, Refusal>(bytes@),
            Err(e) => channel_id_of(req.channel_id@) == Err::<Seq<u8>, Refusal>(e@),
        },
{
    read_channel_id(req)
}

/// forceclosechannel: the answer once the engine has replied.
pub fn force_close_channel_reply(engine: Result<(), String>) -> (reply: Result<
    ServerSuccess,
    Rejection,
>)
    ensures
        said(reply) == force_close_answer(engine_said(engine)),
{
    match engine {
        Ok(()) => Ok(
            ServerSuccess { msg: String::from_str("EVENT: initiating channel force-close") },
        ),
        Err(reason) => Err(
            refuse(
                ErrorKind::EngineRejection,
                Status::BadRequest,
                join2("ERROR: failed to force-close channel => ", reason.as_str()),
            ),
        ),
    }
}

/// A channel id of 62 hexadecimal characters, one byte short, is refused as
/// a fault of the request.
pub proof fn law_short_channel_id_is_refused(text: Seq<char>)
    requires
        text.len() == 62,
    ensures
        channel_id_of(text) == Err::<Seq<u8>, Refusal>(
            bad_request("ERROR: couldn't parse channel_id"@),
        ),
{
}

/// The request to sign a message.
#[derive(Clone, Debug, PartialEq, Eq)]
pub struct SignMessage {
    pub message: String,
}

/// The outcome of a signing, as contracts speak of it.
pub open spec fn outcome_said(outcome: Result<String, String>) -> Result<Seq<char>, Seq<char>> {
    match outcome {
        Ok(text) => Ok(text@),
        Err(reason) => Err(reason@),
    }
}

/// What signing answers, given the outcome of the signature.
pub open spec fn signed_answer(signed: Result<Seq<char>, Seq<char>>) -> Result<Seq<char>, Refusal> {
    match signed {
        Ok(signature) => Ok(signature),
        Err(reason) => Err(bad_request("ERROR: failed to sign message. "@ + reason)),
    }
}

/// What a request to sign `message` with the node's secret key answers: an
/// empty message is refused; any other is signed as its UTF-8 bytes.
pub open spec fn sign_message_answer(message: Seq<char>, key: Seq<u8>) -> Result<
    Seq<char>,
    Refusal,
> {
    if message.len() == 0 {
        Err(bad_request("ERROR: signmsg requires a message"@))
    } else {
        signed_answer(message_signature(vstd::utf8::encode_utf8(message), key))
    }
}

/// Sign a message
pub fn sign_message(req: &SignMessage, node_secret: &[u8; 32]) -> (reply: Result<
    ServerSuccess,
    Rejection,
>)
    ensures
        said(reply) == sign_message_answer(req.message@, node_secret@),
{
    if req.message.as_str().is_empty() {
        return Err(refuse_input("ERROR: signmsg requires a message"));
    }
    let signed = sign_with_key(req.message.as_str().as_bytes(), node_secret);
    sign_message_reply(signed)
}

/// The answer to a request to sign, given the outcome of the signature:
/// the signature itself, or the refusal that carries the reason.
pub fn sign_message_reply(signed: Result<String, String>) -> (reply: Result<
    ServerSuccess,
    Rejection,
>)
    ensures
        said(reply) == signed_answer(outcome_said(signed)),
{
    match signed {
        Ok(signature) => Ok(ServerSuccess { msg: signature }),
        Err(reason) => Err(
            refuse(
                ErrorKind::ClientInputError,
                Status::BadRequest,
                join2("ERROR: failed to sign message. ", reason.as_str()),
            ),
        ),
    }
}

/// The request for an invoice.
#[derive(Clone, Debug, PartialEq, Eq)]
pub struct GetInvoice {
    pub amt_millisatoshis: String,
}

/// An invoice: the answer to a request for one, and the request to pay one.
#[derive(Clone, Debug, PartialEq, Eq)]
pub struct ServerInvoice {
    pub invoice: String,
}

/// What the engine is asked for when an invoice is wanted.
#[derive(Clone, Debug, PartialEq, Eq)]
pub struct InvoiceOrder {
    pub amt_msat: u64,
    pub currency: Currency,
    pub description: String,
}

/// An invoice that the engine has made.
#[derive(Clone, Debug, PartialEq, Eq)]
pub struct IssuedInvoice {
    /// The invoice as the payer gets it.
    pub invoice: String,
    pub payment_hash: PaymentHash,
    pub payment_secret: PaymentSecret,
}

/// The amount that a request for an invoice names.
pub open spec fn invoice_amount(text: Seq<char>) -> Result<u64, Refusal> {
    if text.len() == 0 {
        Err(bad_request("ERROR: getinvoice requires an amount in millisatoshis"@))
    } else {
        match parsed_u64(text) {
            Some(amount) => Ok(amount),
            None => Err(bad_request("ERROR: getinvoice provided payment amount was not a number"@)),
        }
    }
}

/// The refusal that reports why the engine made no invoice: an error, as
/// every rejection by the engine is.
pub open spec fn no_invoice(reason: Seq<char>) -> Refusal {
    Refusal {
        kind: ErrorKind::EngineRejection,
        status: Status::BadRequest,
        words: "ERROR: failed to create invoice: "@ + reason,
    }
}

/// Get invoice: reads the amount and says what invoice the engine is to
/// make. A missing amount, or one that is no number, is refused.
pub fn get_invoice_request(req: &GetInvoice, network: Network) -> (order: Result<
    InvoiceOrder,
    Rejection,
>)
    ensures
        match order {
            Ok(o) => invoice_amount(req.amt_millisatoshis@) == Ok::<u64, Refusal>(o.amt_msat)
                && o.currency == network.invoice_currency() && o.description@ == "ln-node"@,
            Err(e) => invoice_amount(req.amt_millisatoshis@) == Err::<u64, Refusal>(e@),
        },
{
    if req.amt_millisatoshis.as_str().is_empty() {
        return Err(refuse_input("ERROR: getinvoice requires an amount in millisatoshis"));
    }
    match parse_u64(req.amt_millisatoshis.as_str()) {
        Some(amt_msat) => Ok(
            InvoiceOrder {
                amt_msat,
                currency: network.currency(),
                description: String::from_str("ln-node"),
            },
        ),
        None => Err(refuse_input("ERROR: getinvoice provided payment amount was not a number")),
    }
}

/// Get invoice: the answer once the engine has replied. An invoice that was
/// made is recorded as a pending inbound payment under its payment hash,
/// with its secret and the amount asked for, and handed out; where none was
/// made the ledger is left as it was, no invoice is handed out, and the
/// engine's reason is reported as an error.
pub fn get_invoice_reply(
    ledger: &mut PaymentLedger,
    amt_msat: u64,
    issued: Result<IssuedInvoice, String>,
) -> (reply: Result<ServerInvoice, Rejection>)
    ensures
        match issued {
            Ok(made) => reply is Ok && reply->Ok_0.invoice@ == made.invoice@,
            Err(reason) => reply is Err && reply->Err_0@ == no_invoice(reason@),
        },
        issued is Ok ==> final(ledger).inbound@ == recorded(
            old(ledger).inbound@,
            issued->Ok_0.payment_hash,
            Some(issued->Ok_0.payment_secret),
            Some(amt_msat),
        ),
        issued is Ok ==> final(ledger).inbound.keys() == keys_with(
            old(ledger).inbound@,
            old(ledger).inbound.keys(),
            issued->Ok_0.payment_hash,
        ),
        issued is Ok ==> final(ledger).outbound == old(ledger).outbound,
        issued is Err ==> *final(ledger) == *old(ledger),
{
    match issued {
        Ok(made) => {
            ledger.record_inbound(made.payment_hash, Some(made.payment_secret), Some(amt_msat));
            Ok(ServerInvoice { invoice: made.invoice })
        },
        Err(reason) => Err(
            refuse(
                ErrorKind::EngineRejection,
                Status::BadRequest,
                join2("ERROR: failed to create invoice: ", reason.as_str()),
            ),
        ),
    }
}

/// An invoice that can be paid: one that names its amount.
#[derive(Clone, Copy, Debug, PartialEq, Eq)]
pub struct Payable {
    pub payment_hash: PaymentHash,
    pub payment_secret: PaymentSecret,
    pub amount_msat: u64,
    pub payee: NodePubkey,
}

/// What the engine said of a payment that it was asked to send.
#[derive(Clone, Debug, PartialEq, Eq)]
pub enum PaymentDispatch {
    /// The payment is on its way.
    Accepted,
    /// The engine found the invoice invalid; its reason.
    InvalidInvoice(String),
    /// The engine found no route; its reason.
    NoRoute(String),
    /// The engine could not send; its reason.
    SendFailure(String),
}

/// The refusal of a payment, with the status that all failures of a payment
/// go out with.
pub open spec fn payment_refused(kind: ErrorKind, words: Seq<char>) -> Refusal {
    Refusal { kind, status: Status::ExpectationFailed, words }
}

/// The invoice to pay, given what was read in the request: an invoice that
/// does not parse is refused, and so is one without an amount.
pub open spec fn payable_of(reading: Result<DecodedInvoice, Seq<char>>) -> Result<
    Payable,
    Refusal,
> {
    match reading {
        Ok(invoice) => match invoice.amount_msat {
            Some(amount_msat) => Ok(
                Payable {
                    payment_hash: invoice.payment_hash,
                    payment_secret: invoice.payment_secret,
                    amount_msat,
                    payee: invoice.payee,
                },
            ),
            None => Err(
                payment_refused(
                    ErrorKind::ClientInputError,
                    "ERROR: invalid invoice: amount missing"@,
                ),
            ),
        },
        Err(reason) => Err(bad_request("ERROR: invalid invoice: "@ + reason)),
    }
}

/// What was read in an invoice, as contracts speak of it.
pub open spec fn reading_said(read: Result<DecodedInvoice, String>) -> Result<
    DecodedInvoice,
    Seq<char>,
> {
    match read {
        Ok(invoice) => Ok(invoice),
        Err(reason) => Err(reason@),
    }
}

/// Whether `got` is the outcome `expected`.
pub open spec fn is_payable(
    got: Result<Payable, Rejection>,
    expected: Result<Payable, Refusal>,
) -> bool {
    match got {
        Ok(p) => expected == Ok::<Payable, Refusal>(p),
        Err(e) => expected == Err::<Payable, Refusal>(e@),
    }
}

/// The invoice to pay for the text of a request: a text that names more
/// whole coins than an invoice can is refused as it stands; any other is
/// read, and refused where it does not parse or names no amount.
pub open spec fn payment_order(text: Seq<char>) -> Result<Payable, Refusal> {
    if names_too_much(text) {
        Err(
            bad_request(
                "ERROR: invalid invoice: parsed integer doesn't fit into receiving type"@,
            ),
        )
    } else {
        payable_of(invoice_reading(text))
    }
}

/// Send payment: reads the invoice of the request and says what is to be
/// paid. The engine is asked only where this gives `Ok`.
pub fn send_payment_request(req: &ServerInvoice) -> (order: Result<Payable, Rejection>)
    ensures
        is_payable(order, payment_order(req.invoice@)),
{
    if !amount_fits(req.invoice.as_str()) {
        return Err(
            refuse_input("ERROR: invalid invoice: parsed integer doesn't fit into receiving type"),
        );
    }
    payable(decode_invoice(req.invoice.as_str()))
}

/// The invoice to pay, given what was read in the request.
pub fn payable(read: Result<DecodedInvoice, String>) -> (order: Result<Payable, Rejection>)
    ensures
        is_payable(order, payable_of(reading_said(read))),
{
    match read {
        Ok(invoice) => match invoice.amount_msat {
            Some(amount_msat) => Ok(
                Payable {
                    payment_hash: invoice.payment_hash,
                    payment_secret: invoice.payment_secret,
                    amount_msat,
                    payee: invoice.payee,
                },
            ),
            None => Err(
                refuse(
                    ErrorKind::ClientInputError,
                    Status::ExpectationFailed,
                    String::from_str("ERROR: invalid invoice: amount missing"),
                ),
            ),
        },
        Err(reason) => Err(
            refuse(
                ErrorKind::ClientInputError,
                Status::BadRequest,
                join2("ERROR: invalid invoice: ", reason.as_str()),
            ),
        ),
    }
}

/// What sending a payment answers, given what the engine said.
pub open spec fn payment_answer(invoice: Payable, dispatch: PaymentDispatch) -> Result<
    Seq<char>,
    Refusal,
> {
    match dispatch {
        PaymentDispatch::Accepted => Ok(
            "EVENT: initiated sending "@ + decimal(invoice.amount_msat as nat) + " msats to "@
                + hex_of(invoice.payee.0@),
        ),
        PaymentDispatch::InvalidInvoice(reason) => Err(
            payment_refused(ErrorKind::EngineRejection, "ERROR: invalid invoice: "@ + reason@),
        ),
        PaymentDispatch::NoRoute(reason) => Err(
            payment_refused(ErrorKind::EngineRejection, "ERROR: failed to find route: "@ + reason@),
        ),
        PaymentDispatch::SendFailure(reason) => Err(
            payment_refused(
                ErrorKind::EngineRejection,
                "ERROR: failed to send payment: "@ + reason@,
            ),
        ),
    }
}

/// Send payment: the answer once the engine has replied. A payment that the
/// engine accepted is recorded as a pending outbound payment, with the
/// secret and the amount of the invoice; any other reply leaves the ledger
/// as it was.
pub fn send_payment_reply(
    ledger: &mut PaymentLedger,
    invoice: &Payable,
    dispatch: PaymentDispatch,
) -> (reply: Result<ServerSuccess, Rejection>)
    ensures
        said(reply) == payment_answer(*invoice, dispatch),
        dispatch is Accepted ==> final(ledger).outbound@ == recorded(
            old(ledger).outbound@,
            invoice.payment_hash,
            Some(invoice.payment_secret),
            Some(invoice.amount_msat),
        ) && final(ledger).outbound.keys() == keys_with(
            old(ledger).outbound@,
            old(ledger).outbound.keys(),
            invoice.payment_hash,
        ) && final(ledger).inbound == old(ledger).inbound,
        !(dispatch is Accepted) ==> *final(ledger) == *old(ledger),
{
    match dispatch {
        PaymentDispatch::Accepted => {
            ledger.record_outbound(
                invoice.payment_hash,
                Some(invoice.payment_secret),
                Some(invoice.amount_msat),
            );
            let amount = u64_to_string(invoice.amount_msat);
            let payee = invoice.payee.to_hex();
            let mut msg = join3("EVENT: initiated sending ", amount.as_str(), " msats to ");
            msg.append(payee.as_str());
            Ok(ServerSuccess { msg })
        },
        PaymentDispatch::InvalidInvoice(reason) => Err(
            refuse(
                ErrorKind::EngineRejection,
                Status::ExpectationFailed,
                join2("ERROR: invalid invoice: ", reason.as_str()),
            ),
        ),
        PaymentDispatch::NoRoute(reason) => Err(
            refuse(
                ErrorKind::EngineRejection,
                Status::ExpectationFailed,
                join2("ERROR: failed to find route: ", reason.as_str()),
            ),
        ),
        PaymentDispatch::SendFailure(reason) => Err(
            refuse(
                ErrorKind::EngineRejection,
                Status::ExpectationFailed,
                join2("ERROR: failed to send payment: ", reason.as_str()),
            ),
        ),
    }
}

/// One payment of a listing.
#[derive(Clone, Debug, PartialEq, Eq)]
pub struct Payment {
    pub amount_millisatoshis: String,
    pub payment_hash: String,
    pub htlc_direction: String,
    pub htlc_status: String,
}

/// The listing of all payments.
#[derive(Clone, Debug, PartialEq, Eq)]
pub struct Payments {
    pub payments: Vec<Payment>,
}

/// The word by which a listing names a direction.
pub open spec fn direction_word(direction: Direction) -> Seq<char> {
    match direction {
        Direction::Inbound => "inbound"@,
        Direction::Outbound => "outbound"@,
    }
}

/// Whether the listed payment `shown` is the ledger row `row`: its amount in
/// decimal or `unknown`, its hash in hexadecimal, its direction and status
/// by their words.
pub open spec fn shows_payment(shown: Payment, row: LedgerRow) -> bool {
    &&& shown.amount_millisatoshis@ == row.info.amt_msat.text()
    &&& shown.payment_hash@ == hex_of(row.hash.0@)
    &&& shown.htlc_direction@ == direction_word(row.direction)
    &&& shown.htlc_status@ == row.info.status.word()
}

/// List payments: every payment of the ledger, once, the inbound ones first,
/// each with its direction and status.
pub fn list_payments(ledger: &PaymentLedger) -> (listing: Payments)
    ensures
        listing.payments@.len() == ledger.all_rows().len(),
        listing.payments@.len() == ledger.inbound@.dom().len() + ledger.outbound@.dom().len(),
        forall|i: int|
            0 <= i < listing.payments@.len() ==> shows_payment(
                #[trigger] listing.payments@[i],
                ledger.all_rows()[i],
            ),
{
    let rows = ledger.snapshot_all();
    let mut payments_vec: Vec<Payment> = Vec::new();
    let mut i: usize = 0;
    while i < rows.len()
        invariant
            i <= rows@.len(),
            payments_vec@.len() == i,
            forall|k: int| 0 <= k < i ==> shows_payment(#[trigger] payments_vec@[k], rows@[k]),
        decreases rows@.len() - i,
    {
        let row = rows[i];
        let payment = Payment {
            amount_millisatoshis: row.info.amt_msat.to_text(),
            payment_hash: hex_str(row.hash.0.as_slice()),
            htlc_direction: match row.direction {
                Direction::Inbound => String::from_str("inbound"),
                Direction::Outbound => String::from_str("outbound"),
            },
            htlc_status: row.info.status.label(),
        };
        payments_vec.push(payment);
        i = i + 1;
    }
    Payments { payments: payments_vec }
}

/// What this node reads of one of its channels.
#[derive(Clone, Debug, PartialEq, Eq)]
pub struct ChannelDetails {
    pub channel_id: [u8; 32],
    /// The id of the funding transaction, as it is written, once there is one.
    pub funding_txid: Option<String>,
    pub counterparty_node_id: NodePubkey,
    /// The alias that the network graph has for the counterparty, if any.
    pub counterparty_alias: Option<[u8; 32]>,
    pub short_channel_id: Option<u64>,
    pub is_funding_locked: bool,
    pub balance_msat: u64,
    pub channel_value_satoshis: u64,
    pub outbound_capacity_msat: u64,
    pub inbound_capacity_msat: u64,
    pub is_usable: bool,
    pub is_public: bool,
}

/// One channel of a listing.
#[derive(Clone, Debug, PartialEq, Eq)]
pub struct RedefinedChannelDetails {
    pub channel_id: String,
    pub tx_id: String,
    pub peer_pubkey: String,
    pub peer_alias: String,
    pub short_channel_id: u64,
    pub is_confirmed_onchain: bool,
    pub local_balance_msat: u64,
    pub channel_value_satoshis: u64,
    pub available_balance_for_send_msat: u64,
    pub available_balance_for_recv_msat: u64,
    pub channel_can_send_payments: bool,
    pub public: bool,
}

/// The listing of the node's channels.
#[derive(Clone, Debug, PartialEq, Eq)]
pub struct ListChannels {
    pub channels: Vec<RedefinedChannelDetails>,
}

/// Whether a byte is a printable ASCII character.
pub open spec fn is_printable(b: u8) -> bool {
    0x20 <= b <= 0x7e
}

/// The printable ASCII characters among `bytes`, in order.
pub open spec fn printable(bytes: Seq<u8>) -> Seq<char>
    decreases bytes.len(),
{
    if bytes.len() == 0 {
        Seq::empty()
    } else if is_printable(bytes.last()) {
        printable(bytes.drop_last()).push(bytes.last() as char)
    } else {
        printable(bytes.drop_last())
    }
}

/// Keeps the printable ASCII characters of `bytes` and drops the rest.
pub fn sanitize_string(bytes: &[u8]) -> (ret: String)
    ensures
        ret@ == printable(bytes@),
{
    let mut ret = String::new();
    let mut i: usize = 0;
    while i < bytes.len()
        invariant
            i <= bytes@.len(),
            ret@ == printable(bytes@.take(i as int)),
        decreases bytes@.len() - i,
    {
        let b: u8 = bytes[i];
        assert(bytes@.take(i + 1).drop_last() == bytes@.take(i as int));
        if b >= 0x20 && b <= 0x7e {
            push_char(&mut ret, b as char);
        }
        i = i + 1;
    }
    assert(bytes@.take(bytes@.len() as int) == bytes@);
    ret
}

/// Whether `shown` is the channel `chan` as a listing shows it: ids and keys
/// in hexadecimal, what is unknown as an empty text or as 0, the alias
/// reduced to printable characters, and the balances available only while
/// the channel is usable.
pub open spec fn shows_channel(shown: RedefinedChannelDetails, chan: ChannelDetails) -> bool {
    &&& shown.channel_id@ == hex_of(chan.channel_id@)
    &&& shown.tx_id@ == match chan.funding_txid {
        Some(txid) => txid@,
        None => Seq::<char>::empty(),
    }
    &&& shown.peer_pubkey@ == hex_of(chan.counterparty_node_id.0@)
    &&& shown.peer_alias@ == match chan.counterparty_alias {
        Some(alias) => printable(alias@),
        None => Seq::<char>::empty(),
    }
    &&& shown.short_channel_id == match chan.short_channel_id {
        Some(id) => id,
        None => 0,
    }
    &&& shown.is_confirmed_onchain == chan.is_funding_locked
    &&& shown.local_balance_msat == chan.balance_msat
    &&& shown.channel_value_satoshis == chan.channel_value_satoshis
    &&& shown.available_balance_for_send_msat == (if chan.is_usable {
        chan.outbound_capacity_msat
    } else {
        0
    })
    &&& shown.available_balance_for_recv_msat == (if chan.is_usable {
        chan.inbound_capacity_msat
    } else {
        0
    })
    &&& shown.channel_can_send_payments == chan.is_usable
    &&& shown.public == chan.is_public
}

fn redefine(chan_info: &ChannelDetails) -> (shown: RedefinedChannelDetails)
    ensures
        shows_channel(shown, *chan_info),
{
    let chan_id = hex_str(chan_info.channel_id.as_slice());
    let txid = match &chan_info.funding_txid {
        Some(funding_txid) => String::from_str(funding_txid.as_str()),
        None => String::new(),
    };
    let peer_pubkey = chan_info.counterparty_node_id.to_hex();
    let peer_alias = match &chan_info.counterparty_alias {
        Some(alias) => sanitize_string(alias.as_slice()),
        None => String::new(),
    };
    let short_channel_id: u64 = match chan_info.short_channel_id {
        Some(id) => id,
        None => 0,
    };
    let mut available_balance_for_send_msat: u64 = 0;
    let mut available_balance_for_recv_msat: u64 = 0;
    if chan_info.is_usable {
        available_balance_for_send_msat = chan_info.outbound_capacity_msat;
        available_balance_for_recv_msat = chan_info.inbound_capacity_msat;
    }
    RedefinedChannelDetails {
        channel_id: chan_id,
        tx_id: txid,
        peer_pubkey,
        peer_alias,
        short_channel_id,
        is_confirmed_onchain: chan_info.is_funding_locked,
        local_balance_msat: chan_info.balance_msat,
        channel_value_satoshis: chan_info.channel_value_satoshis,
        available_balance_for_send_msat,
        available_balance_for_recv_msat,
        channel_can_send_payments: chan_info.is_usable,
        public: chan_info.is_public,
    }
}

///List open node channels
pub fn list_channels(channels_list: &Vec<ChannelDetails>) -> (listing: ListChannels)
    ensures
        listing.channels@.len() == channels_list@.len(),
        forall|i: int|
            0 <= i < channels_list@.len() ==> shows_channel(
                #[trigger] listing.channels@[i],
                channels_list@[i],
            ),
{
    let mut channel_vector: Vec<RedefinedChannelDetails> = Vec::new();
    let mut i: usize = 0;
    while i < channels_list.len()
        invariant
            i <= channels_list@.len(),
            channel_vector@.len() == i,
            forall|k: int|
                0 <= k < i ==> shows_channel(#[trigger] channel_vector@[k], channels_list@[k]),
        decreases channels_list@.len() - i,
    {
        channel_vector.push(redefine(&channels_list[i]));
        i = i + 1;
    }
    ListChannels { channels: channel_vector }
}

/// What the node says of itself.
#[derive(Clone, Debug, PartialEq, Eq)]
pub struct NodeInfo {
    pub pubkey: NodePubkey,
    pub channels_number: usize,
    pub usable_channels_number: usize,
    pub local_balance_msat: u64,
    pub peers: usize,
}

/// How many of the channels are usable.
pub open spec fn usable_count(channels: Seq<ChannelDetails>) -> nat
    decreases channels.len(),
{
    if channels.len() == 0 {
        0
    } else if channels.last().is_usable {
        usable_count(channels.drop_last()) + 1
    } else {
        usable_count(channels.drop_last())
    }
}

/// The sum of the local balances of the channels, in millisatoshis.
pub open spec fn total_balance(channels: Seq<ChannelDetails>) -> nat
    decreases channels.len(),
{
    if channels.len() == 0 {
        0
    } else {
        total_balance(channels.drop_last()) + channels.last().balance_msat as nat
    }
}

/// The balance as the node reports it: the sum, or the largest number that
/// the report can hold where the sum is beyond it.
pub open spec fn reported_balance(channels: Seq<ChannelDetails>) -> u64 {
    if total_balance(channels) <= u64::MAX {
        total_balance(channels) as u64
    } else {
        u64::MAX
    }
}

/// Get node information
pub fn nodeinfo(
    pubkey: NodePubkey,
    channel_list: &Vec<ChannelDetails>,
    peers: usize,
) -> (info: NodeInfo)
    ensures
        info.pubkey == pubkey,
        info.channels_number == channel_list@.len(),
        info.usable_channels_number == usable_count(channel_list@),
        info.local_balance_msat == reported_balance(channel_list@),
        info.peers == peers,
{
    let mut usable_channels_number: usize = 0;
    let mut local_balance_msat: u64 = 0;
    let mut i: usize = 0;
    while i < channel_list.len()
        invariant
            i <= channel_list@.len(),
            usable_channels_number == usable_count(channel_list@.take(i as int)),
            usable_channels_number <= i,
            local_balance_msat == reported_balance(channel_list@.take(i as int)),
        decreases channel_list@.len() - i,
    {
        assert(channel_list@.take(i + 1).drop_last() == channel_list@.take(i as int));
        if channel_list[i].is_usable {
            usable_channels_number = usable_channels_number + 1;
        }
        local_balance_msat = local_balance_msat.saturating_add(channel_list[i].balance_msat);
        i = i + 1;
    }
    assert(channel_list@.take(channel_list@.len() as int) == channel_list@);
    NodeInfo {
        pubkey,
        channels_number: channel_list.len(),
        usable_channels_number,
        local_balance_msat,
        peers,
    }
}

/// The listing of the connected peers.
#[derive(Clone, Debug, PartialEq, Eq)]
pub struct ListPeers {
    pub peers: Vec<NodePubkey>,
}

/// List connected node peers
pub fn list_peers(peers: Vec<NodePubkey>) -> (listing: ListPeers)
    ensures
        listing.peers@ == peers@,
{
    if peers.len() == 0 {
        ListPeers { peers: Vec::new() }
    } else {
        ListPeers { peers }
    }
}

/// The request to open a channel.
#[derive(Clone, Debug, PartialEq, Eq)]
pub struct OpenChannel {
    pub pubkey: String,
    pub host: String,
    pub port: String,
    pub channel_amt_satoshis: String,
    pub channel_announcement: Option<String>,
}

/// The request to connect to a peer.
#[derive(Clone, Debug, PartialEq, Eq)]
pub struct ConnectPeer {
    pub pubkey: String,
    pub host: String,
    pub port: String,
}

/// A peer whose address is to be looked up.
#[derive(Debug, PartialEq, Eq)]
pub struct PeerLookup {
    /// The peer as `pubkey@host:port`.
    pub peer_pubkey_and_ip_addr: String,
    /// The key, and the address to look up.
    pub parts: PeerParts,
}

/// A peer as contracts speak of it: the whole text, the key part and the
/// address part.
pub struct PeerText {
    pub whole: Seq<char>,
    pub pubkey: Seq<char>,
    pub address: Seq<char>,
}

impl View for PeerLookup {
    type V = PeerText;

    open spec fn view(&self) -> PeerText {
        PeerText {
            whole: self.peer_pubkey_and_ip_addr@,
            pubkey: self.parts.pubkey@,
            address: self.parts.address@,
        }
    }
}

/// `pubkey@host:port`.
pub open spec fn peer_text(pubkey: Seq<char>, host: Seq<char>, port: Seq<char>) -> Seq<char> {
    pubkey + "@"@ + host + ":"@ + port
}

/// A text between double quotes.
pub open spec fn quoted(words: Seq<char>) -> Seq<char> {
    "\""@ + words + "\""@
}

/// The peer to look up for the text `whole`; a fault in the text is
/// reported in the words that `report` makes of it.
pub open spec fn lookup_of(whole: Seq<char>, report: spec_fn(Seq<char>) -> Seq<char>) -> Result<
    PeerText,
    Refusal,
> {
    match peer_parts(whole) {
        Ok((pubkey, address)) => Ok(PeerText { whole, pubkey, address }),
        Err(e) => Err(bad_request(report(e.words()))),
    }
}

/// Whether `got` is the outcome `expected`.
pub open spec fn is_lookup(
    got: Result<PeerLookup, Rejection>,
    expected: Result<PeerText, Refusal>,
) -> bool {
    match got {
        Ok(lookup) => expected == Ok::<PeerText, Refusal>(lookup@),
        Err(e) => expected == Err::<PeerText, Refusal>(e@),
    }
}

/// The peer that a request to open a channel names. All four of key, host,
/// port and amount must be there.
pub open spec fn open_channel_lookup(
    pubkey: Seq<char>,
    host: Seq<char>,
    port: Seq<char>,
    amount: Seq<char>,
) -> Result<PeerText, Refusal> {
    if pubkey.len() == 0 || host.len() == 0 || port.len() == 0 || amount.len() == 0 {
        Err(
            bad_request(
                "ERROR: openchannel has 2 required arguments: `openchannel pubkey@host:port channel_amt_satoshis` [--public]"@,
            ),
        )
    } else {
        lookup_of(peer_text(pubkey, host, port), |w: Seq<char>| quoted(w))
    }
}

/// The peer that a request to connect names. Key, host and port must be
/// there.
pub open spec fn connect_peer_lookup(pubkey: Seq<char>, host: Seq<char>, port: Seq<char>) -> Result<
    PeerText,
    Refusal,
> {
    if pubkey.len() == 0 || host.len() == 0 || port.len() == 0 {
        Err(
            bad_request(
                "ERROR: connectpeer requires peer connection info: `connectpeer pubkey@host:port`"@,
            ),
        )
    } else {
        lookup_of(peer_text(pubkey, host, port), |w: Seq<char>| w)
    }
}

fn peer_string(pubkey: &str, host: &str, port: &str) -> (s: String)
    ensures
        s@ == peer_text(pubkey@, host@, port@),
{
    let mut s = join3(pubkey, "@", host);
    s.append(":");
    s.append(port);
    s
}

/// Open channel with another node: checks that the required fields are
/// there and says which peer address is to be looked up.
pub fn open_channel_request(req: &OpenChannel) -> (lookup: Result<PeerLookup, Rejection>)
    ensures
        is_lookup(
            lookup,
            open_channel_lookup(
                req.pubkey@,
                req.host@,
                req.port@,
                req.channel_amt_satoshis@,
            ),
        ),
{
    if req.pubkey.as_str().is_empty() || req.host.as_str().is_empty()
        || req.port.as_str().is_empty() || req.channel_amt_satoshis.as_str().is_empty() {
        return Err(
            refuse_input(
                "ERROR: openchannel has 2 required arguments: `openchannel pubkey@host:port channel_amt_satoshis` [--public]",
            ),
        );
    }
    let peer_pubkey_and_ip_addr = peer_string(
        req.pubkey.as_str(),
        req.host.as_str(),
        req.port.as_str(),
    );
    match split_peer_info(peer_pubkey_and_ip_addr.as_str()) {
        Ok(parts) => Ok(PeerLookup { peer_pubkey_and_ip_addr, parts }),
        Err(e) => {
            let words = e.message();
            Err(
                refuse(
                    ErrorKind::ClientInputError,
                    Status::BadRequest,
                    join3("\"", words.as_str(), "\""),
                ),
            )
        },
    }
}

/// A channel that the engine is to open.
#[derive(Debug, PartialEq, Eq)]
pub struct ChannelOrder {
    pub peer: NodePubkey,
    pub channel_amt_sat: u64,
    pub announce_channel: bool,
    /// The peer as `pubkey@host:port`, to be kept for reconnecting.
    pub peer_pubkey_and_ip_addr: String,
}

/// A channel order as contracts speak of it.
pub struct ChannelOrderText {
    pub peer: NodePubkey,
    pub channel_amt_sat: u64,
    pub announce_channel: bool,
    pub whole: Seq<char>,
}

impl View for ChannelOrder {
    type V = ChannelOrderText;

    open spec fn view(&self) -> ChannelOrderText {
        ChannelOrderText {
            peer: self.peer,
            channel_amt_sat: self.channel_amt_sat,
            announce_channel: self.announce_channel,
            whole: self.peer_pubkey_and_ip_addr@,
        }
    }
}

/// Whether a channel is to be announced: only where the request says
/// `true`.
pub open spec fn announces(announcement: Option<Seq<char>>) -> bool {
    announcement == Some("true"@)
}

/// The channel to open for a request, given the peer that was read: the
/// peer must have been read, and the amount must be a number of satoshis,
/// in this order.
pub open spec fn channel_order_for(
    peer: Result<NodePubkey, PeerInfoError>,
    whole: Seq<char>,
    amount: Seq<char>,
    announcement: Option<Seq<char>>,
) -> Result<ChannelOrderText, Refusal> {
    match peer {
        Err(e) => Err(bad_request(quoted(e.words()))),
        Ok(key) => match parsed_u64(amount) {
            None => Err(bad_request("ERROR: channel amount must be a number"@)),
            Some(channel_amt_sat) => Ok(
                ChannelOrderText {
                    peer: key,
                    channel_amt_sat,
                    announce_channel: announces(announcement),
                    whole,
                },
            ),
        },
    }
}

/// The channel to open for a request whose peer address was looked up:
/// the address must have been found, the key must be a node's key, and the
/// amount must be a number of satoshis, in this order.
pub open spec fn channel_order(
    peer: PeerText,
    amount: Seq<char>,
    announcement: Option<Seq<char>>,
    resolved: bool,
) -> Result<ChannelOrderText, Refusal> {
    channel_order_for(peer_key(peer.pubkey, resolved), peer.whole, amount, announcement)
}

/// The announcement field of a request, as contracts speak of it.
pub open spec fn announcement_said(announcement: Option<String>) -> Option<Seq<char>> {
    match announcement {
        Some(text) => Some(text@),
        None => None,
    }
}

/// Whether `got` is the outcome `expected`.
pub open spec fn is_order(
    got: Result<ChannelOrder, Rejection>,
    expected: Result<ChannelOrderText, Refusal>,
) -> bool {
    match got {
        Ok(order) => expected == Ok::<ChannelOrderText, Refusal>(order@),
        Err(e) => expected == Err::<ChannelOrderText, Refusal>(e@),
    }
}

/// Open channel: once the peer's address was looked up, says what channel
/// the engine is to open. `resolved` tells whether the address was found.
/// No connection is asked for unless this gives `Ok`.
pub fn open_channel_order(req: &OpenChannel, lookup: PeerLookup, resolved: bool) -> (order: Result<
    ChannelOrder,
    Rejection,
>)
    ensures
        is_order(
            order,
            channel_order(
                lookup@,
                req.channel_amt_satoshis@,
                announcement_said(req.channel_announcement),
                resolved,
            ),
        ),
{
    let peer = parse_peer_info(&lookup.parts, resolved);
    order_channel(req, lookup.peer_pubkey_and_ip_addr, peer)
}

/// The channel to open for a request, given the peer that was read for it
/// and the peer's text `pubkey@host:port`. A peer that could not be read is
/// reported first, an amount that is no number second.
pub fn order_channel(
    req: &OpenChannel,
    peer_pubkey_and_ip_addr: String,
    peer: Result<NodePubkey, PeerInfoError>,
) -> (order: Result<ChannelOrder, Rejection>)
    ensures
        is_order(
            order,
            channel_order_for(
                peer,
                peer_pubkey_and_ip_addr@,
                req.channel_amt_satoshis@,
                announcement_said(req.channel_announcement),
            ),
        ),
{
    match peer {
        Err(e) => {
            let words = e.message();
            Err(
                refuse(
                    ErrorKind::ClientInputError,
                    Status::BadRequest,
                    join3("\"", words.as_str(), "\""),
                ),
            )
        },
        Ok(peer) => {
            match parse_u64(req.channel_amt_satoshis.as_str()) {
                None => Err(refuse_input("ERROR: channel amount must be a number")),
                Some(channel_amt_sat) => {
                    let announce_channel = match &req.channel_announcement {
                        Some(val) => text_is(val.as_str(), "true"),
                        None => false,
                    };
                    Ok(
                        ChannelOrder {
                            peer,
                            channel_amt_sat,
                            announce_channel,
                            peer_pubkey_and_ip_addr,
                        },
                    )
                },
            }
        },
    }
}

/// What became of a channel order.
#[derive(Clone, Debug, PartialEq, Eq)]
pub enum ChannelOpening {
    /// No connection to the peer could be had.
    ConnectFailed,
    /// The engine declined to open the channel; its reason.
    Rejected(String),
    /// The engine has started to open the channel.
    Opened,
}

/// The answer to a channel that was opened, with what is to be kept for
/// reconnecting to the peer.
#[derive(Clone, Debug, PartialEq, Eq)]
pub struct ChannelOpened {
    pub msg: ServerSuccess,
    /// The file to which the peer is to be appended.
    pub peer_data_path: String,
    /// The line to append: the peer as `pubkey@host:port`.
    pub peer_entry: String,
}

/// The refusal that reports a failure of the engine or of a peer.
pub open spec fn engine_refused(words: Seq<char>) -> Refusal {
    Refusal { kind: ErrorKind::EngineRejection, status: Status::BadRequest, words }
}

/// The file that keeps the peers of open channels, below the data directory.
pub open spec fn peer_data_file(ldk_data_dir: Seq<char>) -> Seq<char> {
    ldk_data_dir + "/channel_peer_data"@
}

/// What opening a channel answers, given what became of the order.
pub open spec fn opening_answer(peer: NodePubkey, opening: ChannelOpening) -> Result<
    Seq<char>,
    Refusal,
> {
    match opening {
        ChannelOpening::ConnectFailed => Err(engine_refused("ERROR: cannot connect to peer"@)),
        ChannelOpening::Rejected(reason) => Err(
            engine_refused("ERROR: unable to open a channel with peer: "@ + reason@),
        ),
        ChannelOpening::Opened => Ok(
            "EVENT: initiated channel with peer "@ + hex_of(peer.0@) + ". "@,
        ),
    }
}

/// Open channel: the answer once it is known what became of the order. For
/// a channel that was opened, the answer names the file and the line by
/// which the peer is kept for reconnecting.
pub fn open_channel_reply(
    order: &ChannelOrder,
    ldk_data_dir: &str,
    opening: ChannelOpening,
) -> (reply: Result<ChannelOpened, Rejection>)
    ensures
        match reply {
            Ok(opened) => opening_answer(order.peer, opening) == Ok::<Seq<char>, Refusal>(
                opened.msg.msg@,
            ) && opened.peer_data_path@ == peer_data_file(ldk_data_dir@) && opened.peer_entry@
                == order.peer_pubkey_and_ip_addr@,
            Err(e) => opening_answer(order.peer, opening) == Err::<Seq<char>, Refusal>(e@),
        },
{
    match opening {
        ChannelOpening::ConnectFailed => Err(
            refuse(
                ErrorKind::EngineRejection,
                Status::BadRequest,
                String::from_str("ERROR: cannot connect to peer"),
            ),
        ),
        ChannelOpening::Rejected(reason) => Err(
            refuse(
                ErrorKind::EngineRejection,
                Status::BadRequest,
                join2("ERROR: unable to open a channel with peer: ", reason.as_str()),
            ),
        ),
        ChannelOpening::Opened => {
            let peer = order.peer.to_hex();
            Ok(
                ChannelOpened {
                    msg: ServerSuccess {
                        msg: join3("EVENT: initiated channel with peer ", peer.as_str(), ". "),
                    },
                    peer_data_path: join2(ldk_data_dir, "/channel_peer_data"),
                    peer_entry: String::from_str(order.peer_pubkey_and_ip_addr.as_str()),
                },
            )
        },
    }
}

/// Connect to another peer: checks that the required fields are there and
/// says which peer address is to be looked up.
pub fn connect_peer_request(req: &ConnectPeer) -> (lookup: Result<PeerLookup, Rejection>)
    ensures
        is_lookup(lookup, connect_peer_lookup(req.pubkey@, req.host@, req.port@)),
{
    if req.pubkey.as_str().is_empty() || req.host.as_str().is_empty()
        || req.port.as_str().is_empty() {
        return Err(
            refuse_input(
                "ERROR: connectpeer requires peer connection info: `connectpeer pubkey@host:port`",
            ),
        );
    }
    let peer_pubkey_host_port = peer_string(
        req.pubkey.as_str(),
        req.host.as_str(),
        req.port.as_str(),
    );
    match split_peer_info(peer_pubkey_host_port.as_str()) {
        Ok(parts) => Ok(PeerLookup { peer_pubkey_and_ip_addr: peer_pubkey_host_port, parts }),
        Err(e) => Err(refuse(ErrorKind::ClientInputError, Status::BadRequest, e.message())),
    }
}

/// The peer to connect to, given the peer that was read.
pub open spec fn connect_target_for(peer: Result<NodePubkey, PeerInfoError>) -> Result<
    NodePubkey,
    Refusal,
> {
    match peer {
        Ok(key) => Ok(key),
        Err(e) => Err(bad_request(e.words())),
    }
}

/// The peer to connect to, once its address was looked up.
pub open spec fn connect_target(peer: PeerText, resolved: bool) -> Result<NodePubkey, Refusal> {
    connect_target_for(peer_key(peer.pubkey, resolved))
}

/// Whether `got` is the outcome `expected`.
pub open spec fn is_target(
    got: Result<NodePubkey, Rejection>,
    expected: Result<NodePubkey, Refusal>,
) -> bool {
    match got {
        Ok(key) => expected == Ok::<NodePubkey, Refusal>(key),
        Err(e) => expected == Err::<NodePubkey, Refusal>(e@),
    }
}

/// Connect to another peer: once the peer's address was looked up, says
/// which peer to connect to. `resolved` tells whether the address was found.
pub fn connect_peer_target(lookup: &PeerLookup, resolved: bool) -> (target: Result<
    NodePubkey,
    Rejection,
>)
    ensures
        is_target(target, connect_target(lookup@, resolved)),
{
    target_peer(parse_peer_info(&lookup.parts, resolved))
}

/// The peer to connect to, given the peer that was read: a peer that could
/// not be read is reported in the words of its fault.
pub fn target_peer(peer: Result<NodePubkey, PeerInfoError>) -> (target: Result<
    NodePubkey,
    Rejection,
>)
    ensures
        is_target(target, connect_target_for(peer)),
{
    match peer {
        Ok(key) => Ok(key),
        Err(e) => Err(refuse(ErrorKind::ClientInputError, Status::BadRequest, e.message())),
    }
}

/// What connecting to a peer answers, given whether the peer is connected
/// in the end.
pub open spec fn connect_answer(peer: NodePubkey, connected: bool) -> Result<Seq<char>, Refusal> {
    if connected {
        Ok("SUCCESS: connected to peer "@ + hex_of(peer.0@))
    } else {
        Err(engine_refused("Failed to connect to peer"@))
    }
}

/// Connect to another peer: the answer once it is known whether the peer is
/// connected.
pub fn connect_peer_reply(pubkey: &NodePubkey, connected: bool) -> (reply: Result<
    ServerSuccess,
    Rejection,
>)
    ensures
        said(reply) == connect_answer(*pubkey, connected),
{
    if connected {
        let peer = pubkey.to_hex();
        Ok(ServerSuccess { msg: join2("SUCCESS: connected to peer ", peer.as_str()) })
    } else {
        Err(
            refuse(
                ErrorKind::EngineRejection,
                Status::BadRequest,
                String::from_str("Failed to connect to peer"),
            ),
        )
    }
}

/// A request to open a channel whose amount is no number is refused as a
/// fault of the request, whatever else it holds, whoever the peer is and
/// whether or not the peer could be read: no channel order comes of it, so
/// no connection is asked for.
pub proof fn law_bad_amount_is_refused(
    peer: Result<NodePubkey, PeerInfoError>,
    whole: Seq<char>,
    amount: Seq<char>,
    announcement: Option<Seq<char>>,
)
    requires
        parsed_u64(amount) is None,
    ensures
        channel_order_for(peer, whole, amount, announcement) is Err,
        channel_order_for(peer, whole, amount, announcement)->Err_0.kind
            == ErrorKind::ClientInputError,
        channel_order_for(peer, whole, amount, announcement)->Err_0.status == Status::BadRequest,
{
}

/// The state of the node that the commands read and change, besides the
/// engine itself.
pub struct NodeVar {
    pub network: Network,
    pub payments: PaymentLedger,
    pub ldk_data_dir: String,
}

impl NodeVar {
    /// The state of a node that has seen no payment yet.
    pub fn new(network: Network, ldk_data_dir: String) -> (node_var: Self)
        ensures
            node_var.network == network,
            node_var.ldk_data_dir@ == ldk_data_dir@,
            node_var.payments.inbound@ == Map::<PaymentHash, PaymentInfo>::empty(),
            node_var.payments.outbound@ == Map::<PaymentHash, PaymentInfo>::empty(),
            node_var.payments.inbound.keys() == Seq::<PaymentHash>::empty(),
            node_var.payments.outbound.keys() == Seq::<PaymentHash>::empty(),
    {
        NodeVar { network, payments: PaymentLedger::new(), ldk_data_dir }
    }

    /// The handler of the engine's events for this node.
    pub fn event_handler(&self) -> (handler: ServerEventHandler)
        ensures
            handler.network == self.network,
    {
        ServerEventHandler { network: self.network }
    }
}

} // verus!
