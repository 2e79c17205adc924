use lightning_invoice::{Currency, InvoiceBuilder, SiPrefix};
use lnnode::invoice::amount_fits;
use lnnode::node_var::{PaymentHash, PaymentSecret};
use lnnode::server::{
    send_payment_request, ErrorKind, Rejection, ServerError, ServerInvoice, Status,
};
use std::time::Duration;

const TOO_LARGE: &str = "ERROR: invalid invoice: parsed integer doesn't fit into receiving type";

/// A correctly signed invoice whose prefix names the given amount.
fn signed_invoice(raw_amount: Option<u64>, si_prefix: Option<SiPrefix>) -> String {
    let mut raw = InvoiceBuilder::new(Currency::Bitcoin)
        .duration_since_epoch(Duration::from_secs(1496314658))
        .payment_secret(lightning::ln::PaymentSecret([0x22; 32]))
        .payment_hash(<bitcoin::hashes::sha256::Hash as bitcoin::hashes::Hash>::from_slice(&[0x33; 32]).unwrap())
        .description("coins".to_owned())
        .build_raw()
        .unwrap();
    raw.hrp.raw_amount = raw_amount;
    raw.hrp.si_prefix = si_prefix;
    let key = bitcoin::secp256k1::SecretKey::from_slice(&[0x44; 32]).unwrap();
    let signed = raw
        .sign::<_, ()>(|hash| Ok(bitcoin::secp256k1::Secp256k1::new().sign_recoverable(hash, &key)))
        .unwrap();
    signed.to_string()
}

fn too_large() -> Rejection {
    Rejection {
        kind: ErrorKind::ClientInputError,
        status: Status::BadRequest,
        body: ServerError { error: TOO_LARGE.to_string() },
    }
}

#[test]
fn the_amount_is_the_number_that_the_prefix_ends_in() {
    assert!(amount_fits("lnbc184467441qqqq"));
    assert!(!amount_fits("lnbc184467451qqqq"));
    assert!(!amount_fits("lnbc99999999999999999999999999991qqqq"));
    assert!(amount_fits("lnbc00000000000000000000184467441qqqq"));
    assert!(!amount_fits("lnbc00000000000000000000184467451qqqq"));
    assert!(amount_fits("lnbc01qqqq"));
}

#[test]
fn the_prefix_ends_at_the_last_separator() {
    // the amount 18446745 ends in no 1, the amount 184467441 does
    assert!(!amount_fits("lnbc184467451"));
    assert!(!amount_fits("lnbc1844674411qq"));
    assert!(amount_fits("lnbc18446741qq"));
    assert!(amount_fits("lnbc18446745"));
    assert!(amount_fits("lnbc1qq18446745"));
    assert!(!amount_fits("1844674519"));
    assert!(!amount_fits("18446745111"));
}

#[test]
fn an_amount_with_a_scaling_letter_or_none_at_all_fits() {
    assert!(amount_fits("lnbc99999999999999999999m1qqqq"));
    assert!(amount_fits("lnbc18446745p1qqqq"));
    assert!(amount_fits("lnbc1qqqq"));
    assert!(amount_fits("1"));
    assert!(amount_fits(""));
    assert!(amount_fits("no separator"));
}

#[test]
fn only_ascii_digits_count_as_the_amount() {
    assert!(amount_fits("lnbc18446745\u{0663}1qqqq"));
    assert!(!amount_fits("lnbc\u{0663}184467451qqqq"));
}

#[test]
fn an_invoice_for_more_whole_coins_than_fit_is_refused_before_it_is_read() {
    let text = signed_invoice(Some(18_446_745), None);
    assert!(text.starts_with("lnbc184467451"));
    assert_eq!(send_payment_request(&ServerInvoice { invoice: text }), Err(too_large()));
    let text = signed_invoice(Some(u64::MAX), None);
    assert_eq!(send_payment_request(&ServerInvoice { invoice: text }), Err(too_large()));
    assert_eq!(
        send_payment_request(&ServerInvoice { invoice: "LNBC184467451QQQQ".to_string() }),
        Err(too_large())
    );
}

#[test]
fn an_invoice_for_the_most_whole_coins_that_fit_is_read() {
    let text = signed_invoice(Some(18_446_744), None);
    let order = send_payment_request(&ServerInvoice { invoice: text }).unwrap();
    assert_eq!(order.amount_msat, 1_844_674_400_000_000_000);
    assert_eq!(order.payment_hash, PaymentHash([0x33; 32]));
    assert_eq!(order.payment_secret, PaymentSecret([0x22; 32]));
    let key = bitcoin::secp256k1::SecretKey::from_slice(&[0x44; 32]).unwrap();
    let public =
        bitcoin::secp256k1::PublicKey::from_secret_key(&bitcoin::secp256k1::Secp256k1::new(), &key);
    assert_eq!(order.payee.0, public.serialize());
}

#[test]
fn a_scaled_amount_that_does_not_fit_is_refused_in_the_same_words() {
    let text = signed_invoice(Some(u64::MAX), Some(SiPrefix::Milli));
    assert_eq!(send_payment_request(&ServerInvoice { invoice: text }), Err(too_large()));
}

#[test]
fn a_small_amount_in_whole_coins_is_read() {
    let text = signed_invoice(Some(2), None);
    let order = send_payment_request(&ServerInvoice { invoice: text }).unwrap();
    assert_eq!(order.amount_msat, 200_000_000_000);
}
