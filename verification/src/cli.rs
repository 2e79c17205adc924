//! The command line of the node's client: from the words of a command to the
//! fields of the request that is sent to the node.

use crate::bindings::{lowercased, to_lowercase, trim, trimmed};
use crate::text::{after, before, chars_of, cut, string_of, text_is};
use vstd::prelude::*;
use vstd::string::*;

verus! {

/// One named field of a request.
#[derive(Debug, PartialEq, Eq)]
pub struct Field {
    pub name: String,
    pub value: String,
}

/// The fields of a request, as pairs of name and value.
pub open spec fn body_view(fields: Seq<Field>) -> Seq<(Seq<char>, Seq<char>)> {
    Seq::new(fields.len(), |i: int| (fields[i].name@, fields[i].value@))
}

/// The words of a command line, as texts.
pub open spec fn texts(words: Seq<String>) -> Seq<Seq<char>> {
    Seq::new(words.len(), |i: int| words[i]@)
}

/// The three fields that `pubkey@host:port` names. `None` where the `@` or
/// the `:` after it is missing.
pub open spec fn peer_fields(peer: Seq<char>) -> Option<Seq<(Seq<char>, Seq<char>)>> {
    match after(peer, '@') {
        None => None,
        Some(rest) => {
            let address = before(rest, '@');
            match after(address, ':') {
                None => None,
                Some(tail) => Some(
                    seq![
                        ("pubkey"@, before(peer, '@')),
                        ("host"@, before(address, ':')),
                        ("port"@, before(tail, ':')),
                    ],
                ),
            }
        },
    }
}

/// The single field `name` with the third word as its value. `None` where
/// the command line has no third word.
pub open spec fn one_field(name: Seq<char>, args: Seq<Seq<char>>) -> Option<
    Seq<(Seq<char>, Seq<char>)>,
> {
    if args.len() >= 3 {
        Some(seq![(name, args[2])])
    } else {
        None
    }
}

/// The fields of the request for the command `name` with the command line
/// `args`, whose first two words are the program and the command. `None`
/// where a word or a separator that the command needs is missing.
pub open spec fn command_body(name: Seq<char>, args: Seq<Seq<char>>) -> Option<
    Seq<(Seq<char>, Seq<char>)>,
> {
    if name == "openchannel"@ {
        if args.len() >= 4 {
            match peer_fields(args[2]) {
                Some(fields) => Some(fields.push(("channel_amt_satoshis"@, args[3]))),
                None => None,
            }
        } else {
            None
        }
    } else if name == "sendpayment"@ {
        one_field("invoice"@, args)
    } else if name == "getinvoice"@ {
        one_field("amt_millisatoshis"@, args)
    } else if name == "connectpeer"@ {
        if args.len() < 3 {
            Some(Seq::empty())
        } else {
            peer_fields(args[2])
        }
    } else if name == "closechannel"@ || name == "forceclosechannel"@ {
        one_field("channel_id"@, args)
    } else if name == "signmessage"@ {
        one_field("message"@, args)
    } else {
        Some(Seq::empty())
    }
}

/// Whether the fields `got` are the fields `expected`.
pub open spec fn is_body(
    got: Option<Vec<Field>>,
    expected: Option<Seq<(Seq<char>, Seq<char>)>>,
) -> bool {
    match got {
        Some(fields) => expected == Some(body_view(fields@)),
        None => expected is None,
    }
}

/// The commands that the node answers.
pub open spec fn is_command(name: Seq<char>) -> bool {
    name == "help"@ || name == "nodeinfo"@ || name == "connectpeer"@ || name == "listpeers"@
        || name == "openchannel"@ || name == "listchannels"@ || name == "getinvoice"@ || name
        == "sendpayment"@ || name == "listpayments"@ || name == "closechannel"@ || name
        == "forceclosechannel"@ || name == "signmessage"@
}

fn make_field(name: &str, value: &str) -> (f: Field)
    ensures
        f.name@ == name@,
        f.value@ == value@,
{
    Field { name: String::from_str(name), value: String::from_str(value) }
}

fn split_peer(peer: &str) -> (fields: Option<Vec<Field>>)
    ensures
        is_body(fields, peer_fields(peer@)),
{
    let chars = chars_of(peer);
    let (pubkey, rest) = cut(&chars, '@');
    match rest {
        None => None,
        Some(rest) => {
            let (address, _) = cut(&rest, '@');
            let (host, tail) = cut(&address, ':');
            match tail {
                None => None,
                Some(tail) => {
                    let (port, _) = cut(&tail, ':');
                    let mut fields: Vec<Field> = Vec::new();
                    fields.push(Field { name: String::from_str("pubkey"), value: string_of(&pubkey) });
                    fields.push(Field { name: String::from_str("host"), value: string_of(&host) });
                    fields.push(Field { name: String::from_str("port"), value: string_of(&port) });
                    assert(body_view(fields@) =~= peer_fields(peer@).unwrap());
                    Some(fields)
                },
            }
        },
    }
}

fn single(name: &str, cmd_input: &Vec<String>) -> (fields: Option<Vec<Field>>)
    ensures
        is_body(fields, one_field(name@, texts(cmd_input@))),
{
    if cmd_input.len() >= 3 {
        let mut fields: Vec<Field> = Vec::new();
        fields.push(make_field(name, cmd_input[2].as_str()));
        assert(body_view(fields@) =~= one_field(name@, texts(cmd_input@)).unwrap());
        Some(fields)
    } else {
        None
    }
}

/// LDK CLI command
#[derive(Debug)]
pub struct Command();

impl Command {
    /// The fields of the request that a command line asks for. The first two
    /// words are the program and the command; the command is read without
    /// the white space around it and without regard to case. `None` where
    /// there is no command, or where a word or a separator that the command
    /// needs is missing.
    pub fn new(cmd_input: &Vec<String>) -> (fields: Option<Vec<Field>>)
        ensures
            is_body(
                fields,
                if cmd_input@.len() < 2 {
                    None
                } else {
                    command_body(lowercased(trimmed(cmd_input@[1]@)), texts(cmd_input@))
                },
            ),
    {
        if cmd_input.len() < 2 {
            return None;
        }
        let arg = to_lowercase(trim(cmd_input[1].as_str()));
        Command::body(arg.as_str(), cmd_input)
    }

    /// The fields of the request for the command `name`, taken from the
    /// words that follow it on the command line.
    pub fn body(name: &str, cmd_input: &Vec<String>) -> (fields: Option<Vec<Field>>)
        ensures
            is_body(fields, command_body(name@, texts(cmd_input@))),
    {
        if text_is(name, "openchannel") {
            if cmd_input.len() >= 4 {
                match split_peer(cmd_input[2].as_str()) {
                    Some(mut fields) => {
                        let ghost peer = body_view(fields@);
                        fields.push(make_field("channel_amt_satoshis", cmd_input[3].as_str()));
                        assert(body_view(fields@) =~= peer.push(
                            ("channel_amt_satoshis"@, cmd_input@[3]@),
                        ));
                        Some(fields)
                    },
                    None => None,
                }
            } else {
                None
            }
        } else if text_is(name, "sendpayment") {
            single("invoice", cmd_input)
        } else if text_is(name, "getinvoice") {
            single("amt_millisatoshis", cmd_input)
        } else if text_is(name, "connectpeer") {
            if cmd_input.len() < 3 {
                let fields: Vec<Field> = Vec::new();
                assert(body_view(fields@) =~= Seq::empty());
                Some(fields)
            } else {
                split_peer(cmd_input[2].as_str())
            }
        } else if text_is(name, "closechannel") || text_is(name, "forceclosechannel") {
            single("channel_id", cmd_input)
        } else if text_is(name, "signmessage") {
            single("message", cmd_input)
        } else {
            let fields: Vec<Field> = Vec::new();
            assert(body_view(fields@) =~= Seq::empty());
            Some(fields)
        }
    }

    /// Whether the command line asks to connect to a peer without naming
    /// one. Such a command line gives a request without fields, and calls
    /// for a word to the operator.
    pub fn lacks_peer(cmd_input: &Vec<String>) -> (lacking: bool)
        ensures
            lacking == (cmd_input@.len() == 2 && lowercased(trimmed(cmd_input@[1]@))
                == "connectpeer"@),
    {
        if cmd_input.len() != 2 {
            return false;
        }
        let arg = to_lowercase(trim(cmd_input[1].as_str()));
        Command::names_peer_command(arg.as_str())
    }

    /// Whether `name` is the command that connects to a peer.
    pub fn names_peer_command(name: &str) -> (b: bool)
        ensures
            b == (name@ == "connectpeer"@),
    {
        text_is(name, "connectpeer")
    }

    /// Whether `name` is one of the commands that the node answers.
    pub fn is_known(name: &str) -> (known: bool)
        ensures
            known == is_command(name@),
    {
        text_is(name, "help") || text_is(name, "nodeinfo") || text_is(name, "connectpeer")
            || text_is(name, "listpeers") || text_is(name, "openchannel") || text_is(
            name,
            "listchannels",
        ) || text_is(name, "getinvoice") || text_is(name, "sendpayment") || text_is(
            name,
            "listpayments",
        ) || text_is(name, "closechannel") || text_is(name, "forceclosechannel") || text_is(
            name,
            "signmessage",
        )
    }
}

} // verus!
