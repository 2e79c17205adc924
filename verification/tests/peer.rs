use lnnode::hex_utils::to_compressed_pubkey;
use lnnode::node_var::NodePubkey;
use lnnode::peer::{
    connect_peer_if_necessary, is_connected, parse_peer_info, peer_from_key, split_peer_info,
    ConnectStep, PeerInfoError, PeerParts,
};

const NODE_KEY: &str = "03e7156ae33b0a208d0744199163177e909e80176e55d97a2f221ede0f934dd9ad";

fn vector_key() -> NodePubkey {
    to_compressed_pubkey(NODE_KEY).unwrap()
}

#[test]
fn a_node_key_is_66_hex_characters_on_the_curve() {
    let key = vector_key();
    assert_eq!(key.0[0], 0x03);
    assert_eq!(key.0[1], 0xe7);
    assert_eq!(key.0[32], 0xad);
    assert_eq!(key.to_hex(), NODE_KEY);
    assert_eq!(to_compressed_pubkey(&NODE_KEY.to_uppercase()), Some(key));
    assert_eq!(to_compressed_pubkey(""), None);
    assert_eq!(to_compressed_pubkey(&NODE_KEY[..64]), None);
    assert_eq!(to_compressed_pubkey(&format!("{}00", NODE_KEY)), None);
    assert_eq!(to_compressed_pubkey(&"zz".repeat(33)), None);
    // 33 bytes that are no point of the curve
    assert_eq!(to_compressed_pubkey(&"00".repeat(33)), None);
    assert_eq!(to_compressed_pubkey(&format!("05{}", &NODE_KEY[2..])), None);
}

#[test]
fn peer_info_is_split_at_the_first_at_sign() {
    assert_eq!(
        split_peer_info("02ab@127.0.0.1:9735"),
        Ok(PeerParts { pubkey: "02ab".to_string(), address: "127.0.0.1:9735".to_string() })
    );
    assert_eq!(
        split_peer_info("02ab@host:1@more"),
        Ok(PeerParts { pubkey: "02ab".to_string(), address: "host:1".to_string() })
    );
    assert_eq!(split_peer_info("@"), Ok(PeerParts { pubkey: String::new(), address: String::new() }));
    assert_eq!(split_peer_info("02ab"), Err(PeerInfoError::Format));
    assert_eq!(split_peer_info(""), Err(PeerInfoError::Format));
}

#[test]
fn peer_info_errors_in_words() {
    assert_eq!(
        PeerInfoError::Format.message(),
        "ERROR: incorrectly formatted peer info. Should be formatted as: `pubkey@host:port`"
    );
    assert_eq!(PeerInfoError::Address.message(), "ERROR: couldn't parse pubkey@host:port into a socket address");
    assert_eq!(PeerInfoError::Pubkey.message(), "ERROR: unable to parse given pubkey for node");
}

#[test]
fn the_address_is_looked_at_before_the_key() {
    let good = PeerParts { pubkey: NODE_KEY.to_string(), address: "h:1".to_string() };
    let bad = PeerParts { pubkey: "02ab".to_string(), address: "h:1".to_string() };
    assert_eq!(parse_peer_info(&good, true), Ok(vector_key()));
    assert_eq!(parse_peer_info(&good, false), Err(PeerInfoError::Address));
    assert_eq!(parse_peer_info(&bad, true), Err(PeerInfoError::Pubkey));
    assert_eq!(parse_peer_info(&bad, false), Err(PeerInfoError::Address));
}

#[test]
fn connecting_twice_to_a_connected_peer_dials_neither_time() {
    let other = NodePubkey([2; 33]);
    let mut connected = vec![other];
    assert_eq!(connect_peer_if_necessary(&vector_key(), &connected), ConnectStep::Dial);
    connected.push(vector_key());
    assert_eq!(connect_peer_if_necessary(&vector_key(), &connected), ConnectStep::AlreadyConnected);
    assert_eq!(connect_peer_if_necessary(&vector_key(), &connected), ConnectStep::AlreadyConnected);
    assert_eq!(connected.iter().filter(|k| **k == vector_key()).count(), 1);
    assert_eq!(connect_peer_if_necessary(&vector_key(), &Vec::new()), ConnectStep::Dial);
}

#[test]
fn a_peer_needs_an_address_and_a_key() {
    assert_eq!(peer_from_key(Some(vector_key()), true), Ok(vector_key()));
    assert_eq!(peer_from_key(Some(vector_key()), false), Err(PeerInfoError::Address));
    assert_eq!(peer_from_key(None, true), Err(PeerInfoError::Pubkey));
    assert_eq!(peer_from_key(None, false), Err(PeerInfoError::Address));
}

#[test]
fn a_connected_peer_is_connected_whatever_dialling_comes_to() {
    assert!(is_connected(ConnectStep::AlreadyConnected, false));
    assert!(is_connected(ConnectStep::AlreadyConnected, true));
    assert!(is_connected(ConnectStep::Dial, true));
    assert!(!is_connected(ConnectStep::Dial, false));
}

#[test]
fn connecting_a_connected_peer_answers_success_both_times() {
    let connected = vec![NodePubkey([2; 33]), vector_key()];
    for _ in 0..2 {
        let step = connect_peer_if_necessary(&vector_key(), &connected);
        assert_eq!(step, ConnectStep::AlreadyConnected);
        let reply = lnnode::server::connect_peer_reply(&vector_key(), is_connected(step, false));
        assert_eq!(reply.unwrap().msg, format!("SUCCESS: connected to peer {}", NODE_KEY));
    }
}
