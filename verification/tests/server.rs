use lnnode::ledger::{Direction, PaymentLedger};
use lnnode::node_var::{
    Currency, HTLCStatus, MillisatAmount, Network, NodePubkey, PaymentHash, PaymentInfo,
    PaymentPreimage, PaymentSecret,
};
use lnnode::peer::PeerInfoError;
use lnnode::server::{
    close_channel_reply, close_channel_request, connect_peer_reply, connect_peer_request,
    connect_peer_target, force_close_channel_reply, force_close_channel_request,
    get_invoice_reply, get_invoice_request, help, list_channels, list_payments, list_peers,
    nodeinfo, open_channel_order, open_channel_reply, open_channel_request, order_channel,
    payable, sanitize_string, send_payment_reply, send_payment_request, sign_message,
    sign_message_reply, target_peer,
    Channel, ChannelDetails, ChannelOpening, ConnectPeer, ErrorKind, GetInvoice, IssuedInvoice,
    NodeVar, OpenChannel, Payable, Payment, PaymentDispatch, RedefinedChannelDetails, Rejection,
    ServerError, ServerInvoice, ServerSuccess, SignMessage, Status,
};

const NODE_KEY: &str = "03e7156ae33b0a208d0744199163177e909e80176e55d97a2f221ede0f934dd9ad";

const COFFEE_INVOICE: &str = "lnbc2500u1pvjluezsp5zyg3zyg3zyg3zyg3zyg3zyg3zyg3zyg3zyg3zyg3zyg3zyg3zygspp5qqqsyqcyq5rqwzqfqqqsyqcyq5rqwzqfqqqsyqcyq5rqwzqfqypqdq5xysxxatsyp3k7enxv4jsxqzpu9qrsgquk0rl77nj30yxdy8j9vdx85fkpmdla2087ne0xh8nhedh8w27kyke0lp53ut353s06fv3qfegext0eh0ymjpf39tuven09sam30g4vgpfna3rh";

const DONATION_INVOICE: &str = "lnbc1pvjluezsp5zyg3zyg3zyg3zyg3zyg3zyg3zyg3zyg3zyg3zyg3zyg3zyg3zygspp5qqqsyqcyq5rqwzqfqqqsyqcyq5rqwzqfqqqsyqcyq5rqwzqfqypqdpl2pkx2ctnv5sxxmmwwd5kgetjypeh2ursdae8g6twvus8g6rfwvs8qun0dfjkxaq9qrsgq357wnc5r2ueh7ck6q93dj32dlqnls087fxdwk8qakdyafkq3yap9us6v52vjjsrvywa6rt52cm9r9zqt8r2t7mlcwspyetp5h2tztugp9lfyql";

fn node_key() -> NodePubkey {
    let bytes = lnnode::hex_utils::to_vec(NODE_KEY).unwrap();
    let mut key = [0u8; 33];
    key.copy_from_slice(&bytes);
    NodePubkey(key)
}

fn vector_hash() -> PaymentHash {
    let bytes =
        lnnode::hex_utils::to_vec("0001020304050607080900010203040506070809000102030405060708090102")
            .unwrap();
    let mut hash = [0u8; 32];
    hash.copy_from_slice(&bytes);
    PaymentHash(hash)
}

fn bad_request(words: &str) -> Rejection {
    Rejection {
        kind: ErrorKind::ClientInputError,
        status: Status::BadRequest,
        body: ServerError { error: words.to_string() },
    }
}

fn engine_refused(words: &str) -> Rejection {
    Rejection {
        kind: ErrorKind::EngineRejection,
        status: Status::BadRequest,
        body: ServerError { error: words.to_string() },
    }
}

fn open_request(amount: &str) -> OpenChannel {
    OpenChannel {
        pubkey: NODE_KEY.to_string(),
        host: "127.0.0.1".to_string(),
        port: "9735".to_string(),
        channel_amt_satoshis: amount.to_string(),
        channel_announcement: None,
    }
}

#[test]
fn status_codes() {
    assert_eq!(Status::BadRequest.code(), 400);
    assert_eq!(Status::ExpectationFailed.code(), 417);
    assert_eq!(Status::InternalServerError.code(), 500);
}

#[test]
fn an_internal_fault_is_an_internal_error() {
    assert_eq!(
        lnnode::server::internal_error("ERROR: the payment ledger is unavailable"),
        Rejection {
            kind: ErrorKind::InternalInvariantViolation,
            status: Status::InternalServerError,
            body: ServerError { error: "ERROR: the payment ledger is unavailable".to_string() },
        }
    );
}

#[test]
fn help_lists_eleven_usage_strings() {
    let h = help();
    assert_eq!(h.openchannel, "pubkey@host:port <amt_satoshis>");
    assert_eq!(h.sendpayment, "<invoice>");
    assert_eq!(h.getinvoice, "<amt_millisatoshis>");
    assert_eq!(h.connectpeer, "pubkey@host:port");
    assert_eq!(h.listchannels, "");
    assert_eq!(h.listpayments, "");
    assert_eq!(h.closechannel, "<channel_id>");
    assert_eq!(h.forceclosechannel, "<channel_id>");
    assert_eq!(h.nodeinfo, "");
    assert_eq!(h.listpeers, "");
    assert_eq!(h.signmessage, "<message>");
}

#[test]
fn close_channel_reads_a_32_byte_id() {
    let req = Channel { channel_id: "ab".repeat(32) };
    assert_eq!(close_channel_request(&req), Ok([0xab; 32]));
    assert_eq!(force_close_channel_request(&req), Ok([0xab; 32]));
    let upper = Channel { channel_id: "0F".repeat(32) };
    assert_eq!(close_channel_request(&upper), Ok([0x0f; 32]));
}

#[test]
fn close_channel_with_62_hex_characters_is_a_client_error() {
    let req = Channel { channel_id: "ab".repeat(31) };
    assert_eq!(req.channel_id.len(), 62);
    let refused = close_channel_request(&req).unwrap_err();
    assert_eq!(refused.kind, ErrorKind::ClientInputError);
    assert_eq!(refused, bad_request("ERROR: couldn't parse channel_id"));
    assert_eq!(force_close_channel_request(&req), Err(bad_request("ERROR: couldn't parse channel_id")));
}

#[test]
fn close_channel_refuses_malformed_ids() {
    let missing = "ERROR: closechannel requires a channel ID: `closechannel <channel_id>`";
    assert_eq!(close_channel_request(&Channel { channel_id: String::new() }), Err(bad_request(missing)));
    assert_eq!(force_close_channel_request(&Channel { channel_id: String::new() }), Err(bad_request(missing)));
    for id in ["ab".repeat(33), "zz".repeat(32), format!("{}a", "ab".repeat(32)), "0".to_string()] {
        assert_eq!(
            close_channel_request(&Channel { channel_id: id.clone() }),
            Err(bad_request("ERROR: couldn't parse channel_id")),
            "{}",
            id
        );
    }
}

#[test]
fn close_channel_replies() {
    assert_eq!(
        close_channel_reply(Ok(())),
        Ok(ServerSuccess { msg: "EVENT: initiating channel close".to_string() })
    );
    assert_eq!(
        close_channel_reply(Err("ChannelUnavailable".to_string())),
        Err(engine_refused("ERROR: failed to close channel => ChannelUnavailable"))
    );
    assert_eq!(
        force_close_channel_reply(Ok(())),
        Ok(ServerSuccess { msg: "EVENT: initiating channel force-close".to_string() })
    );
    assert_eq!(
        force_close_channel_reply(Err("ChannelUnavailable".to_string())),
        Err(engine_refused("ERROR: failed to force-close channel => ChannelUnavailable"))
    );
}

#[test]
fn sign_message_signs_with_the_node_key() {
    let mut one = [0u8; 32];
    one[31] = 1;
    let req = SignMessage { message: "test message".to_string() };
    assert_eq!(
        sign_message(&req, &one),
        Ok(ServerSuccess {
            msg: "d9tibmnic9t5y41hg7hkakdcra94akas9ku3rmmj4ag9mritc8ok4p5qzefs78c9pqfhpuftqqzhydbdwfg7u6w6wdxcqpqn4sj4e73e".to_string()
        })
    );
    let signature = sign_message(&req, &one).unwrap().msg;
    assert!(lightning::util::message_signing::verify(
        b"test message",
        &signature,
        &bitcoin::secp256k1::PublicKey::from_secret_key(
            &bitcoin::secp256k1::Secp256k1::signing_only(),
            &bitcoin::secp256k1::key::ONE_KEY,
        ),
    ));
}

#[test]
fn sign_message_refuses_an_empty_message() {
    let mut one = [0u8; 32];
    one[31] = 1;
    assert_eq!(
        sign_message(&SignMessage { message: String::new() }, &one),
        Err(bad_request("ERROR: signmsg requires a message"))
    );
}

#[test]
fn sign_message_reports_a_key_that_is_none() {
    let zero = [0u8; 32];
    let refused = sign_message(&SignMessage { message: "m".to_string() }, &zero).unwrap_err();
    assert_eq!(refused.kind, ErrorKind::ClientInputError);
    assert_eq!(refused.status, Status::BadRequest);
    assert!(refused.body.error.starts_with("ERROR: failed to sign message. "));
    assert!(refused.body.error.len() > "ERROR: failed to sign message. ".len());
}

#[test]
fn sign_message_reply_passes_the_outcome_on() {
    assert_eq!(sign_message_reply(Ok("sig".to_string())), Ok(ServerSuccess { msg: "sig".to_string() }));
    assert_eq!(
        sign_message_reply(Err("bad key".to_string())),
        Err(bad_request("ERROR: failed to sign message. bad key"))
    );
}

#[test]
fn get_invoice_reads_the_amount() {
    let order = get_invoice_request(&GetInvoice { amt_millisatoshis: "5000".to_string() }, Network::Regtest)
        .unwrap();
    assert_eq!(order.amt_msat, 5000);
    assert_eq!(order.currency, Currency::Regtest);
    assert_eq!(order.description, "ln-node");
    let order = get_invoice_request(&GetInvoice { amt_millisatoshis: "0".to_string() }, Network::Bitcoin)
        .unwrap();
    assert_eq!(order.amt_msat, 0);
    assert_eq!(order.currency, Currency::Bitcoin);
}

#[test]
fn get_invoice_refuses_a_missing_or_non_numeric_amount() {
    assert_eq!(
        get_invoice_request(&GetInvoice { amt_millisatoshis: String::new() }, Network::Regtest),
        Err(bad_request("ERROR: getinvoice requires an amount in millisatoshis"))
    );
    for amount in ["abc", "-1", "1.5", "18446744073709551616"] {
        assert_eq!(
            get_invoice_request(&GetInvoice { amt_millisatoshis: amount.to_string() }, Network::Regtest),
            Err(bad_request("ERROR: getinvoice provided payment amount was not a number"))
        );
    }
}

#[test]
fn get_invoice_reply_records_a_pending_inbound_payment() {
    let mut ledger = PaymentLedger::new();
    let issued = IssuedInvoice {
        invoice: COFFEE_INVOICE.to_string(),
        payment_hash: vector_hash(),
        payment_secret: PaymentSecret([0x11; 32]),
    };
    assert_eq!(
        get_invoice_reply(&mut ledger, 250_000_000, Ok(issued)),
        Ok(ServerInvoice { invoice: COFFEE_INVOICE.to_string() })
    );
    assert_eq!(
        ledger.inbound.get(&vector_hash()),
        Some(PaymentInfo {
            preimage: None,
            secret: Some(PaymentSecret([0x11; 32])),
            status: HTLCStatus::Pending,
            amt_msat: MillisatAmount(Some(250_000_000)),
        })
    );
    assert_eq!(ledger.outbound.len(), 0);
}

#[test]
fn get_invoice_failure_goes_out_as_an_error_with_the_reason() {
    let mut ledger = PaymentLedger::new();
    let reply = get_invoice_reply(&mut ledger, 1, Err("CreationError(RouteTooLong)".to_string()));
    assert_eq!(
        reply,
        Err(Rejection {
            kind: ErrorKind::EngineRejection,
            status: Status::BadRequest,
            body: ServerError { error: "ERROR: failed to create invoice: CreationError(RouteTooLong)".to_string() },
        })
    );
    assert_eq!(ledger.inbound.len(), 0);
    assert_eq!(ledger.outbound.len(), 0);
}

#[test]
fn send_payment_reads_the_invoice() {
    let order = send_payment_request(&ServerInvoice { invoice: COFFEE_INVOICE.to_string() }).unwrap();
    assert_eq!(
        order,
        Payable {
            payment_hash: vector_hash(),
            payment_secret: PaymentSecret([0x11; 32]),
            amount_msat: 250_000_000,
            payee: node_key(),
        }
    );
    let secret = bitcoin::secp256k1::SecretKey::from_slice(
        &lnnode::hex_utils::to_vec("e126f68f7eafcc8b74f54d269fe206be715000f94dac067d1c04a8ca3b2db734").unwrap(),
    )
    .unwrap();
    let public =
        bitcoin::secp256k1::PublicKey::from_secret_key(&bitcoin::secp256k1::Secp256k1::signing_only(), &secret);
    assert_eq!(order.payee.0, public.serialize());
}

#[test]
fn send_payment_refuses_an_invoice_that_does_not_parse() {
    let refused = send_payment_request(&ServerInvoice { invoice: "not an invoice".to_string() }).unwrap_err();
    assert_eq!(refused.kind, ErrorKind::ClientInputError);
    assert_eq!(refused.status, Status::BadRequest);
    assert!(refused.body.error.starts_with("ERROR: invalid invoice: "));
    let refused = send_payment_request(&ServerInvoice { invoice: String::new() }).unwrap_err();
    assert_eq!(refused.kind, ErrorKind::ClientInputError);
    let mut tampered = COFFEE_INVOICE.to_string();
    tampered.pop();
    tampered.push('q');
    assert!(send_payment_request(&ServerInvoice { invoice: tampered }).is_err());
}

#[test]
fn send_payment_refuses_an_invoice_without_amount() {
    assert_eq!(
        send_payment_request(&ServerInvoice { invoice: DONATION_INVOICE.to_string() }),
        Err(Rejection {
            kind: ErrorKind::ClientInputError,
            status: Status::ExpectationFailed,
            body: ServerError { error: "ERROR: invalid invoice: amount missing".to_string() },
        })
    );
}

#[test]
fn payable_reports_the_reason_of_a_failed_reading() {
    assert_eq!(payable(Err("currency code unknown".to_string())), Err(bad_request("ERROR: invalid invoice: currency code unknown")));
}

#[test]
fn send_payment_reply_records_a_pending_outbound_payment() {
    let mut ledger = PaymentLedger::new();
    let order = send_payment_request(&ServerInvoice { invoice: COFFEE_INVOICE.to_string() }).unwrap();
    assert_eq!(
        send_payment_reply(&mut ledger, &order, PaymentDispatch::Accepted),
        Ok(ServerSuccess { msg: format!("EVENT: initiated sending 250000000 msats to {}", NODE_KEY) })
    );
    assert_eq!(
        ledger.outbound.get(&vector_hash()),
        Some(PaymentInfo {
            preimage: None,
            secret: Some(PaymentSecret([0x11; 32])),
            status: HTLCStatus::Pending,
            amt_msat: MillisatAmount(Some(250_000_000)),
        })
    );
    assert_eq!(ledger.inbound.len(), 0);
}

#[test]
fn send_payment_reply_tells_the_three_rejections_apart() {
    let order = send_payment_request(&ServerInvoice { invoice: COFFEE_INVOICE.to_string() }).unwrap();
    let cases = [
        (PaymentDispatch::InvalidInvoice("Invoice expired prior to send".to_string()), "ERROR: invalid invoice: Invoice expired prior to send"),
        (PaymentDispatch::NoRoute("no path".to_string()), "ERROR: failed to find route: no path"),
        (PaymentDispatch::SendFailure("AllFailedRetrySafe".to_string()), "ERROR: failed to send payment: AllFailedRetrySafe"),
    ];
    for (dispatch, words) in cases {
        let mut ledger = PaymentLedger::new();
        assert_eq!(
            send_payment_reply(&mut ledger, &order, dispatch),
            Err(Rejection {
                kind: ErrorKind::EngineRejection,
                status: Status::ExpectationFailed,
                body: ServerError { error: words.to_string() },
            })
        );
        assert_eq!(ledger.outbound.len(), 0);
    }
}

#[test]
fn issued_and_paid_invoice_match_on_both_ledgers() {
    let mut payee = PaymentLedger::new();
    let mut payer = PaymentLedger::new();
    let order = get_invoice_request(&GetInvoice { amt_millisatoshis: "250000000".to_string() }, Network::Bitcoin)
        .unwrap();
    let issued = IssuedInvoice {
        invoice: COFFEE_INVOICE.to_string(),
        payment_hash: vector_hash(),
        payment_secret: PaymentSecret([0x11; 32]),
    };
    let invoice = get_invoice_reply(&mut payee, order.amt_msat, Ok(issued)).unwrap();
    let to_pay = send_payment_request(&invoice).unwrap();
    send_payment_reply(&mut payer, &to_pay, PaymentDispatch::Accepted).unwrap();
    lnnode::events::payment_claimed(
        &mut payee,
        to_pay.payment_hash,
        lnnode::events::PaymentPurpose::InvoicePayment {
            payment_preimage: Some(PaymentPreimage([5; 32])),
            payment_secret: to_pay.payment_secret,
        },
        to_pay.amount_msat,
        true,
    );
    let at_payee = payee.inbound.get(&vector_hash()).unwrap();
    let at_payer = payer.outbound.get(&vector_hash()).unwrap();
    assert_eq!(at_payee.amt_msat, MillisatAmount(Some(250_000_000)));
    assert_eq!(at_payer.amt_msat, at_payee.amt_msat);
    assert_eq!(at_payee.status, HTLCStatus::Succeeded);
    assert_eq!(payee.inbound.snapshot()[0].hash, payer.outbound.snapshot()[0].hash);
}

#[test]
fn list_payments_shows_each_record_with_direction_and_status() {
    let mut ledger = PaymentLedger::new();
    ledger.record_inbound(PaymentHash([0x01; 32]), None, Some(1000));
    ledger.record_outbound(PaymentHash([0x02; 32]), None, None);
    ledger.settle(PaymentHash([0x02; 32]), PaymentPreimage([9; 32]), Direction::Outbound).unwrap();
    let listing = list_payments(&ledger);
    assert_eq!(listing.payments.len(), 2);
    let inbound = Payment {
        amount_millisatoshis: "1000".to_string(),
        payment_hash: "01".repeat(32),
        htlc_direction: "inbound".to_string(),
        htlc_status: "pending".to_string(),
    };
    let outbound = Payment {
        amount_millisatoshis: "unknown".to_string(),
        payment_hash: "02".repeat(32),
        htlc_direction: "outbound".to_string(),
        htlc_status: "succeeded".to_string(),
    };
    assert!(listing.payments.contains(&inbound));
    assert!(listing.payments.contains(&outbound));
}

#[test]
fn list_payments_of_an_empty_ledger_is_empty() {
    assert!(list_payments(&PaymentLedger::new()).payments.is_empty());
}

#[test]
fn list_payments_shows_failed_payments() {
    let mut ledger = PaymentLedger::new();
    ledger.record_inbound(PaymentHash([0x0a; 32]), None, Some(0));
    ledger.fail(PaymentHash([0x0a; 32]), Direction::Inbound).unwrap();
    let listing = list_payments(&ledger);
    assert_eq!(listing.payments.len(), 1);
    assert_eq!(listing.payments[0].htlc_status, "failed");
    assert_eq!(listing.payments[0].amount_millisatoshis, "0");
    assert_eq!(listing.payments[0].payment_hash, "0a".repeat(32));
}

fn channel(usable: bool, balance: u64) -> ChannelDetails {
    ChannelDetails {
        channel_id: [0xcd; 32],
        funding_txid: Some("4a5e1e4baab89f3a32518a88c31bc87f618f76673e2cc77ab2127b7afdeda33b".to_string()),
        counterparty_node_id: node_key(),
        counterparty_alias: None,
        short_channel_id: Some(42),
        is_funding_locked: true,
        balance_msat: balance,
        channel_value_satoshis: 100_000,
        outbound_capacity_msat: 70_000,
        inbound_capacity_msat: 30_000,
        is_usable: usable,
        is_public: false,
    }
}

#[test]
fn list_channels_shows_a_usable_channel() {
    let mut alias = [0u8; 32];
    alias[..5].copy_from_slice(b"alice");
    let mut chan = channel(true, 70_000);
    chan.counterparty_alias = Some(alias);
    let listing = list_channels(&vec![chan]);
    assert_eq!(
        listing.channels,
        vec![RedefinedChannelDetails {
            channel_id: "cd".repeat(32),
            tx_id: "4a5e1e4baab89f3a32518a88c31bc87f618f76673e2cc77ab2127b7afdeda33b".to_string(),
            peer_pubkey: NODE_KEY.to_string(),
            peer_alias: "alice".to_string(),
            short_channel_id: 42,
            is_confirmed_onchain: true,
            local_balance_msat: 70_000,
            channel_value_satoshis: 100_000,
            available_balance_for_send_msat: 70_000,
            available_balance_for_recv_msat: 30_000,
            channel_can_send_payments: true,
            public: false,
        }]
    );
}

#[test]
fn list_channels_shows_what_is_unknown_as_empty_or_zero() {
    let mut chan = channel(false, 70_000);
    chan.funding_txid = None;
    chan.short_channel_id = None;
    chan.is_funding_locked = false;
    chan.is_public = true;
    let listing = list_channels(&vec![chan.clone(), chan]);
    assert_eq!(listing.channels.len(), 2);
    let shown = &listing.channels[1];
    assert_eq!(shown.tx_id, "");
    assert_eq!(shown.peer_alias, "");
    assert_eq!(shown.short_channel_id, 0);
    assert!(!shown.is_confirmed_onchain);
    assert_eq!(shown.local_balance_msat, 70_000);
    assert_eq!(shown.available_balance_for_send_msat, 0);
    assert_eq!(shown.available_balance_for_recv_msat, 0);
    assert!(!shown.channel_can_send_payments);
    assert!(shown.public);
    assert!(list_channels(&Vec::new()).channels.is_empty());
}

#[test]
fn sanitize_string_keeps_printable_ascii() {
    assert_eq!(sanitize_string(b"alice"), "alice");
    assert_eq!(sanitize_string(b"a\x00b\x1fc\x7fd\xffe ~"), "abcde ~");
    assert_eq!(sanitize_string(&[0u8; 32]), "");
}

#[test]
fn nodeinfo_counts_channels_and_sums_balances() {
    let channels = vec![channel(true, 1_000), channel(false, 200), channel(true, 30)];
    let info = nodeinfo(node_key(), &channels, 4);
    assert_eq!(info.pubkey, node_key());
    assert_eq!(info.channels_number, 3);
    assert_eq!(info.usable_channels_number, 2);
    assert_eq!(info.local_balance_msat, 1_230);
    assert_eq!(info.peers, 4);
    let none = nodeinfo(node_key(), &Vec::new(), 0);
    assert_eq!(none.channels_number, 0);
    assert_eq!(none.usable_channels_number, 0);
    assert_eq!(none.local_balance_msat, 0);
}

#[test]
fn nodeinfo_balance_stops_at_the_largest_number() {
    let channels = vec![channel(true, u64::MAX - 1), channel(true, 5), channel(true, 7)];
    assert_eq!(nodeinfo(node_key(), &channels, 0).local_balance_msat, u64::MAX);
}

#[test]
fn list_peers_hands_the_peers_on() {
    assert!(list_peers(Vec::new()).peers.is_empty());
    assert_eq!(list_peers(vec![node_key(), NodePubkey([2; 33])]).peers, vec![node_key(), NodePubkey([2; 33])]);
}

#[test]
fn open_channel_with_a_non_numeric_amount_is_a_client_error() {
    let req = open_request("abc");
    let lookup = open_channel_request(&req).unwrap();
    let refused = open_channel_order(&req, lookup, true).unwrap_err();
    assert_eq!(refused.kind, ErrorKind::ClientInputError);
    assert_eq!(refused, bad_request("ERROR: channel amount must be a number"));
}

#[test]
fn open_channel_needs_all_four_fields() {
    let words = "ERROR: openchannel has 2 required arguments: `openchannel pubkey@host:port channel_amt_satoshis` [--public]";
    let mut req = open_request("1000");
    req.pubkey = String::new();
    assert_eq!(open_channel_request(&req), Err(bad_request(words)));
    let mut req = open_request("1000");
    req.host = String::new();
    assert_eq!(open_channel_request(&req), Err(bad_request(words)));
    let mut req = open_request("1000");
    req.port = String::new();
    assert_eq!(open_channel_request(&req), Err(bad_request(words)));
    assert_eq!(open_channel_request(&open_request("")), Err(bad_request(words)));
}

#[test]
fn open_channel_names_the_address_to_look_up() {
    let lookup = open_channel_request(&open_request("1000")).unwrap();
    assert_eq!(lookup.peer_pubkey_and_ip_addr, format!("{}@127.0.0.1:9735", NODE_KEY));
    assert_eq!(lookup.parts.pubkey, NODE_KEY);
    assert_eq!(lookup.parts.address, "127.0.0.1:9735");
}

#[test]
fn open_channel_orders_a_channel() {
    let mut req = open_request("100000");
    let order = open_channel_order(&req, open_channel_request(&req).unwrap(), true).unwrap();
    assert_eq!(order.peer, node_key());
    assert_eq!(order.channel_amt_sat, 100_000);
    assert!(!order.announce_channel);
    assert_eq!(order.peer_pubkey_and_ip_addr, format!("{}@127.0.0.1:9735", NODE_KEY));
    req.channel_announcement = Some("true".to_string());
    assert!(open_channel_order(&req, open_channel_request(&req).unwrap(), true).unwrap().announce_channel);
    req.channel_announcement = Some("yes".to_string());
    assert!(!open_channel_order(&req, open_channel_request(&req).unwrap(), true).unwrap().announce_channel);
}

#[test]
fn open_channel_reports_peer_faults_in_quotes_and_before_the_amount() {
    let req = open_request("abc");
    assert_eq!(
        open_channel_order(&req, open_channel_request(&req).unwrap(), false),
        Err(bad_request("\"ERROR: couldn't parse pubkey@host:port into a socket address\""))
    );
    let mut req = open_request("abc");
    req.pubkey = "02abcd".to_string();
    assert_eq!(
        open_channel_order(&req, open_channel_request(&req).unwrap(), true),
        Err(bad_request("\"ERROR: unable to parse given pubkey for node\""))
    );
}

#[test]
fn open_channel_replies() {
    let req = open_request("100000");
    let order = open_channel_order(&req, open_channel_request(&req).unwrap(), true).unwrap();
    assert_eq!(
        open_channel_reply(&order, "/var/ldk", ChannelOpening::ConnectFailed),
        Err(engine_refused("ERROR: cannot connect to peer"))
    );
    assert_eq!(
        open_channel_reply(&order, "/var/ldk", ChannelOpening::Rejected("APIMisuseError".to_string())),
        Err(engine_refused("ERROR: unable to open a channel with peer: APIMisuseError"))
    );
    let opened = open_channel_reply(&order, "/var/ldk", ChannelOpening::Opened).unwrap();
    assert_eq!(opened.msg.msg, format!("EVENT: initiated channel with peer {}. ", NODE_KEY));
    assert_eq!(opened.peer_data_path, "/var/ldk/channel_peer_data");
    assert_eq!(opened.peer_entry, format!("{}@127.0.0.1:9735", NODE_KEY));
}

#[test]
fn connect_peer_needs_key_host_and_port() {
    let words = "ERROR: connectpeer requires peer connection info: `connectpeer pubkey@host:port`";
    let full = ConnectPeer { pubkey: NODE_KEY.to_string(), host: "localhost".to_string(), port: "9735".to_string() };
    let mut req = full.clone();
    req.pubkey = String::new();
    assert_eq!(connect_peer_request(&req), Err(bad_request(words)));
    let mut req = full.clone();
    req.host = String::new();
    assert_eq!(connect_peer_request(&req), Err(bad_request(words)));
    let mut req = full.clone();
    req.port = String::new();
    assert_eq!(connect_peer_request(&req), Err(bad_request(words)));
    let lookup = connect_peer_request(&full).unwrap();
    assert_eq!(lookup.parts.address, "localhost:9735");
}

#[test]
fn connect_peer_reports_peer_faults_plainly() {
    let req = ConnectPeer { pubkey: NODE_KEY.to_string(), host: "nowhere".to_string(), port: "1".to_string() };
    let lookup = connect_peer_request(&req).unwrap();
    assert_eq!(
        connect_peer_target(&lookup, false),
        Err(bad_request("ERROR: couldn't parse pubkey@host:port into a socket address"))
    );
    assert_eq!(connect_peer_target(&lookup, true), Ok(node_key()));
    let req = ConnectPeer { pubkey: "zz".to_string(), host: "h".to_string(), port: "1".to_string() };
    assert_eq!(
        connect_peer_target(&connect_peer_request(&req).unwrap(), true),
        Err(bad_request("ERROR: unable to parse given pubkey for node"))
    );
}

#[test]
fn connect_peer_replies() {
    assert_eq!(
        connect_peer_reply(&node_key(), true),
        Ok(ServerSuccess { msg: format!("SUCCESS: connected to peer {}", NODE_KEY) })
    );
    assert_eq!(connect_peer_reply(&node_key(), false), Err(engine_refused("Failed to connect to peer")));
}

#[test]
fn node_var_starts_without_payments() {
    let node_var = NodeVar::new(Network::Testnet, "/var/ldk".to_string());
    assert_eq!(node_var.network, Network::Testnet);
    assert_eq!(node_var.ldk_data_dir, "/var/ldk");
    assert!(node_var.payments.snapshot_all().is_empty());
    assert_eq!(node_var.event_handler().network, Network::Testnet);
}

#[test]
fn order_channel_reports_the_peer_before_the_amount() {
    let whole = format!("{}@127.0.0.1:9735", NODE_KEY);
    assert_eq!(
        order_channel(&open_request("abc"), whole.clone(), Err(PeerInfoError::Pubkey)),
        Err(bad_request("\"ERROR: unable to parse given pubkey for node\""))
    );
    assert_eq!(
        order_channel(&open_request("abc"), whole.clone(), Ok(node_key())),
        Err(bad_request("ERROR: channel amount must be a number"))
    );
    let order = order_channel(&open_request("+21"), whole.clone(), Ok(node_key())).unwrap();
    assert_eq!(order.peer, node_key());
    assert_eq!(order.channel_amt_sat, 21);
    assert_eq!(order.peer_pubkey_and_ip_addr, whole);
}

#[test]
fn target_peer_reports_the_fault_of_the_peer() {
    assert_eq!(target_peer(Ok(node_key())), Ok(node_key()));
    assert_eq!(
        target_peer(Err(PeerInfoError::Format)),
        Err(bad_request("ERROR: incorrectly formatted peer info. Should be formatted as: `pubkey@host:port`"))
    );
}
