use lnnode::cli::{Command, Field};

fn words(line: &[&str]) -> Vec<String> {
    line.iter().map(|w| w.to_string()).collect()
}

fn field(name: &str, value: &str) -> Field {
    Field { name: name.to_string(), value: value.to_string() }
}

#[test]
fn openchannel_names_peer_and_amount() {
    assert_eq!(
        Command::new(&words(&["lnnode-cli", "openchannel", "02ab@127.0.0.1:9735", "100000"])),
        Some(vec![
            field("pubkey", "02ab"),
            field("host", "127.0.0.1"),
            field("port", "9735"),
            field("channel_amt_satoshis", "100000"),
        ])
    );
}

#[test]
fn the_command_is_read_without_case_and_surrounding_space() {
    assert_eq!(
        Command::new(&words(&["lnnode-cli", "  GetInvoice\t", "5000"])),
        Some(vec![field("amt_millisatoshis", "5000")])
    );
    assert_eq!(
        Command::new(&words(&["lnnode-cli", "SENDPAYMENT", "lnbc1"])),
        Some(vec![field("invoice", "lnbc1")])
    );
}

#[test]
fn commands_with_one_argument() {
    assert_eq!(Command::new(&words(&["c", "closechannel", "abcd"])), Some(vec![field("channel_id", "abcd")]));
    assert_eq!(Command::new(&words(&["c", "forceclosechannel", "abcd"])), Some(vec![field("channel_id", "abcd")]));
    assert_eq!(Command::new(&words(&["c", "signmessage", "hello"])), Some(vec![field("message", "hello")]));
    assert_eq!(Command::new(&words(&["c", "signmessage", "hello", "more"])), Some(vec![field("message", "hello")]));
}

#[test]
fn commands_without_arguments_have_no_fields() {
    for name in ["listchannels", "listpayments", "nodeinfo", "listpeers", "help", "nonsense", ""] {
        assert_eq!(Command::new(&words(&["c", name])), Some(vec![]), "{}", name);
        assert_eq!(Command::new(&words(&["c", name, "extra"])), Some(vec![]), "{}", name);
    }
}

#[test]
fn connectpeer_names_the_peer() {
    assert_eq!(
        Command::new(&words(&["c", "connectpeer", "02ab@localhost:9735"])),
        Some(vec![field("pubkey", "02ab"), field("host", "localhost"), field("port", "9735")])
    );
    assert_eq!(Command::new(&words(&["c", "connectpeer"])), Some(vec![]));
}

#[test]
fn a_peer_is_cut_at_the_first_separators() {
    assert_eq!(
        Command::new(&words(&["c", "connectpeer", "key@host:1:2@rest:3"])),
        Some(vec![field("pubkey", "key"), field("host", "host"), field("port", "1")])
    );
    assert_eq!(
        Command::new(&words(&["c", "connectpeer", "@:"])),
        Some(vec![field("pubkey", ""), field("host", ""), field("port", "")])
    );
}

#[test]
fn missing_words_or_separators_give_no_request() {
    assert_eq!(Command::new(&words(&[])), None);
    assert_eq!(Command::new(&words(&["c"])), None);
    assert_eq!(Command::new(&words(&["c", "openchannel"])), None);
    assert_eq!(Command::new(&words(&["c", "openchannel", "02ab@h:1"])), None);
    assert_eq!(Command::new(&words(&["c", "openchannel", "02ab", "1000"])), None);
    assert_eq!(Command::new(&words(&["c", "openchannel", "02ab@h", "1000"])), None);
    assert_eq!(Command::new(&words(&["c", "connectpeer", "02ab:h"])), None);
    assert_eq!(Command::new(&words(&["c", "sendpayment"])), None);
    assert_eq!(Command::new(&words(&["c", "getinvoice"])), None);
    assert_eq!(Command::new(&words(&["c", "closechannel"])), None);
    assert_eq!(Command::new(&words(&["c", "forceclosechannel"])), None);
    assert_eq!(Command::new(&words(&["c", "signmessage"])), None);
}

#[test]
fn body_takes_the_name_as_it_is() {
    assert_eq!(Command::body("getinvoice", &words(&["c", "x", "7"])), Some(vec![field("amt_millisatoshis", "7")]));
    assert_eq!(Command::body("GetInvoice", &words(&["c", "x", "7"])), Some(vec![]));
}

#[test]
fn the_twelve_commands_are_known() {
    for name in [
        "help", "nodeinfo", "connectpeer", "listpeers", "openchannel", "listchannels", "getinvoice",
        "sendpayment", "listpayments", "closechannel", "forceclosechannel", "signmessage",
    ] {
        assert!(Command::is_known(name), "{}", name);
    }
    assert!(!Command::is_known("Help"));
    assert!(!Command::is_known(" help"));
    assert!(!Command::is_known(""));
    assert!(!Command::is_known("pay"));
}

#[test]
fn connectpeer_without_a_peer_is_noticed() {
    assert!(Command::lacks_peer(&words(&["c", "connectpeer"])));
    assert!(Command::lacks_peer(&words(&["c", " ConnectPeer "])));
    assert!(!Command::lacks_peer(&words(&["c", "connectpeer", "02ab@h:1"])));
    assert!(!Command::lacks_peer(&words(&["c", "listpeers"])));
    assert!(!Command::lacks_peer(&words(&["c"])));
    assert!(Command::names_peer_command("connectpeer"));
    assert!(!Command::names_peer_command("ConnectPeer"));
}
