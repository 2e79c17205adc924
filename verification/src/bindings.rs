//! The calls into the Bitcoin and Lightning libraries, and into the parts of
//! std that have no specification of their own.
//!
//! Nothing in this file is proved. Each function states what the called code
//! does, and the rest of the crate is proved from those statements.

use crate::invoice::names_too_much;
use crate::node_var::{Network, NodePubkey, PaymentHash, PaymentSecret};
use vstd::prelude::*;

verus! {

/// What this node reads in an invoice.
#[derive(Clone, Copy, Debug, PartialEq, Eq)]
pub struct DecodedInvoice {
    pub payment_hash: PaymentHash,
    pub payment_secret: PaymentSecret,
    pub amount_msat: Option<u64>,
    pub payee: NodePubkey,
}

/// What `lightning_invoice` makes of an invoice text that names no more
/// whole coins than an invoice can: the fields of the invoice, or the words
/// of its parse or semantic error.
pub uninterp spec fn invoice_reading(text: Seq<char>) -> Result<DecodedInvoice, Seq<char>>;

/// Parses a BOLT 11 invoice with `lightning_invoice`'s `FromStr` for
/// `Invoice` and reads its payment hash, payment secret, amount and the
/// payee key recovered from its signature. The outcome depends on the text
/// alone; on failure the error is given as `Display` writes it.
///
/// `lightning_invoice` multiplies an amount that is written in whole coins,
/// without a scaling letter, by a million million without looking whether
/// the product fits in 64 bits, and the call may then not return. Texts
/// whose prefix ends in a number above `MAX_WHOLE_COINS` are therefore left
/// out; `amount_fits` tells them.
#[verifier::external_body]
pub(crate) fn decode_invoice(text: &str) -> (read: Result<DecodedInvoice, String>)
    requires
        !names_too_much(text@),
    ensures
        match read {
            Ok(invoice) => invoice_reading(text@) == Ok::<DecodedInvoice, Seq<char>>(invoice),
            Err(e) => invoice_reading(text@) == Err::<DecodedInvoice, Seq<char>>(e@),
        },
{
    match text.parse::<lightning_invoice::Invoice>() {
        Ok(invoice) => Ok(
            DecodedInvoice {
                payment_hash: PaymentHash(bitcoin::hashes::Hash::into_inner(*invoice.payment_hash())),
                payment_secret: PaymentSecret(invoice.payment_secret().0),
                amount_msat: invoice.amount_milli_satoshis(),
                payee: NodePubkey(invoice.recover_payee_pub_key().serialize()),
            },
        ),
        Err(e) => Err(format!("{}", e)),
    }
}

/// The signature that `lightning::util::message_signing::sign` gives for a
/// message under a secret key, or the words of the secp256k1 error.
pub uninterp spec fn message_signature(message: Seq<u8>, key: Seq<u8>) -> Result<
    Seq<char>,
    Seq<char>,
>;

/// Signs a message with the node's secret key through
/// `lightning::util::message_signing::sign`; the key is first read with
/// `SecretKey::from_slice`. Signing is deterministic, so the outcome depends
/// on the message and the key alone. An error of either call is given as
/// `Display` writes it.
#[verifier::external_body]
pub(crate) fn sign_with_key(message: &[u8], key: &[u8; 32]) -> (signed: Result<String, String>)
    ensures
        match signed {
            Ok(s) => message_signature(message@, key@) == Ok::<Seq<char>, Seq<char>>(s@),
            Err(e) => message_signature(message@, key@) == Err::<Seq<char>, Seq<char>>(e@),
        },
{
    match bitcoin::secp256k1::SecretKey::from_slice(key) {
        Ok(sk) => lightning::util::message_signing::sign(message, &sk).map_err(|e| format!("{}", e)),
        Err(e) => Err(format!("{}", e)),
    }
}

/// The address that `bitcoin::Address::from_script` derives from an output
/// script on a chain, as `Display` writes it; `None` where the script pays to
/// no address.
pub uninterp spec fn address_of_script(script: Seq<u8>, network: Network) -> Option<Seq<char>>;

/// Derives the address that an output script pays to, with
/// `bitcoin::Address::from_script`, and writes it with `Display`. The outcome
/// depends on the script and the chain alone.
#[verifier::external_body]
pub(crate) fn script_address(script: &[u8], network: Network) -> (address: Option<String>)
    ensures
        match address {
            Some(a) => address_of_script(script@, network) == Some(a@),
            None => address_of_script(script@, network) is None,
        },
{
    let chain = match network {
        Network::Bitcoin => bitcoin::Network::Bitcoin,
        Network::Testnet => bitcoin::Network::Testnet,
        Network::Regtest => bitcoin::Network::Regtest,
        Network::Signet => bitcoin::Network::Signet,
    };
    bitcoin::Address::from_script(&bitcoin::Script::from(script.to_vec()), chain).map(
        |a| a.to_string(),
    )
}

/// The compressed form of the public key that secp256k1 reads in `bytes`;
/// `None` where the bytes are no point of the curve.
pub uninterp spec fn public_key_of(bytes: Seq<u8>) -> Option<NodePubkey>;

/// Reads a public key with secp256k1's `PublicKey::from_slice` and gives its
/// 33-byte compressed serialization. The outcome depends on the bytes alone.
#[verifier::external_body]
pub(crate) fn parse_public_key(bytes: &[u8]) -> (key: Option<NodePubkey>)
    ensures
        key == public_key_of(bytes@),
{
    match bitcoin::secp256k1::PublicKey::from_slice(bytes) {
        Ok(key) => Some(NodePubkey(key.serialize())),
        Err(_) => None,
    }
}

/// Appends one character to a string with std's `String::push`, which adds
/// the character at the end and changes nothing else.
#[verifier::external_body]
pub(crate) fn push_char(s: &mut String, c: char)
    ensures
        final(s)@ == old(s)@.push(c),
{
    s.push(c)
}

/// What std's `str::trim` leaves of a text: the text without the white space
/// at its beginning and end.
pub uninterp spec fn trimmed(text: Seq<char>) -> Seq<char>;

/// Removes leading and trailing white space with std's `str::trim`.
#[verifier::external_body]
pub(crate) fn trim(text: &str) -> (inner: &str)
    ensures
        inner@ == trimmed(text@),
{
    text.trim()
}

/// What std's `str::to_lowercase` makes of a text: its lower-case
/// equivalent.
pub uninterp spec fn lowercased(text: Seq<char>) -> Seq<char>;

/// Turns a text to lower case with std's `str::to_lowercase`.
#[verifier::external_body]
pub(crate) fn to_lowercase(text: &str) -> (lower: String)
    ensures
        lower@ == lowercased(text@),
{
    text.to_lowercase()
}

} // verus!
