//! Peers: reading `pubkey@host:port`, and deciding whether a connection has
//! to be made.

use crate::hex_utils::{compressed_pubkey, to_compressed_pubkey};
use crate::node_var::NodePubkey;
use crate::text::{after, before, chars_of, cut, string_of};
use vstd::prelude::*;
use vstd::string::*;

verus! {

/// Why a peer's connection info could not be used.
#[derive(Clone, Copy, Debug, PartialEq, Eq, Structural)]
pub enum PeerInfoError {
    /// The text has no `@`.
    Format,
    /// `host:port` names no socket address.
    Address,
    /// The key is no public key of a node.
    Pubkey,
}

impl PeerInfoError {
    /// The words in which the error is reported.
    pub open spec fn words(self) -> Seq<char> {
        match self {
            PeerInfoError::Format => "ERROR: incorrectly formatted peer info. Should be formatted as: `pubkey@host:port`"@,
            PeerInfoError::Address => "ERROR: couldn't parse pubkey@host:port into a socket address"@,
            PeerInfoError::Pubkey => "ERROR: unable to parse given pubkey for node"@,
        }
    }

    /// The words in which the error is reported.
    pub fn message(&self) -> (s: String)
        ensures
            s@ == self.words(),
    {
        match self {
            PeerInfoError::Format => String::from_str(
                "ERROR: incorrectly formatted peer info. Should be formatted as: `pubkey@host:port`",
            ),
            PeerInfoError::Address => String::from_str(
                "ERROR: couldn't parse pubkey@host:port into a socket address",
            ),
            PeerInfoError::Pubkey => String::from_str("ERROR: unable to parse given pubkey for node"),
        }
    }
}

/// The two parts of `pubkey@host:port`, as texts.
#[derive(Debug, PartialEq, Eq)]
pub struct PeerParts {
    /// What stands before the first `@`.
    pub pubkey: String,
    /// What stands between the first `@` and the next, or the end.
    pub address: String,
}

/// The parts of the peer info `text`, or the error where it has no `@`.
pub open spec fn peer_parts(text: Seq<char>) -> Result<(Seq<char>, Seq<char>), PeerInfoError> {
    match after(text, '@') {
        Some(rest) => Ok((before(text, '@'), before(rest, '@'))),
        None => Err(PeerInfoError::Format),
    }
}

/// The peer, given the node key that was read in the key part, if any, and
/// whether the address part names a socket address. The address is looked
/// at first, the key second.
pub open spec fn peer_with(key: Option<NodePubkey>, resolved: bool) -> Result<
    NodePubkey,
    PeerInfoError,
> {
    if !resolved {
        Err(PeerInfoError::Address)
    } else {
        match key {
            Some(key) => Ok(key),
            None => Err(PeerInfoError::Pubkey),
        }
    }
}

/// The peer that the parts name, once it is known whether the address part
/// names a socket address.
pub open spec fn peer_key(pubkey: Seq<char>, resolved: bool) -> Result<NodePubkey, PeerInfoError> {
    peer_with(compressed_pubkey(pubkey), resolved)
}

/// Splits `pubkey@host:port` into the key and the address to look up.
pub fn split_peer_info(peer_pubkey_and_ip_addr: &str) -> (parts: Result<PeerParts, PeerInfoError>)
    ensures
        match parts {
            Ok(p) => peer_parts(peer_pubkey_and_ip_addr@) == Ok::<
                (Seq<char>, Seq<char>),
                PeerInfoError,
            >((p.pubkey@, p.address@)),
            Err(e) => peer_parts(peer_pubkey_and_ip_addr@) == Err::<
                (Seq<char>, Seq<char>),
                PeerInfoError,
            >(e),
        },
{
    let chars = chars_of(peer_pubkey_and_ip_addr);
    let (pubkey, rest) = cut(&chars, '@');
    match rest {
        Some(rest) => {
            let (address, _) = cut(&rest, '@');
            Ok(PeerParts { pubkey: string_of(&pubkey), address: string_of(&address) })
        },
        None => Err(PeerInfoError::Format),
    }
}

/// Reads the peer that `parts` name. `resolved` says whether the address
/// part was found to name a socket address.
pub fn parse_peer_info(parts: &PeerParts, resolved: bool) -> (peer: Result<
    NodePubkey,
    PeerInfoError,
>)
    ensures
        peer == peer_key(parts.pubkey@, resolved),
{
    if !resolved {
        return Err(PeerInfoError::Address);
    }
    peer_from_key(to_compressed_pubkey(parts.pubkey.as_str()), resolved)
}

/// The peer, given the node key that was read in the key part, if any, and
/// whether the address part was found to name a socket address.
pub fn peer_from_key(key: Option<NodePubkey>, resolved: bool) -> (peer: Result<
    NodePubkey,
    PeerInfoError,
>)
    ensures
        peer == peer_with(key, resolved),
{
    if !resolved {
        return Err(PeerInfoError::Address);
    }
    match key {
        Some(key) => Ok(key),
        None => Err(PeerInfoError::Pubkey),
    }
}

/// What to do to have a connection to a peer.
#[derive(Clone, Copy, Debug, PartialEq, Eq, Structural)]
pub enum ConnectStep {
    /// The peer is connected: nothing is to be done.
    AlreadyConnected,
    /// The peer is not connected: a connection has to be made.
    Dial,
}

/// What is to be done for a connection to `pubkey` while the peers
/// `connected` are connected.
pub open spec fn connect_step(connected: Seq<NodePubkey>, pubkey: NodePubkey) -> ConnectStep {
    if connected.contains(pubkey) {
        ConnectStep::AlreadyConnected
    } else {
        ConnectStep::Dial
    }
}

/// The connected peers after a connection to `pubkey` was asked for and,
/// where one had to be made, was made.
pub open spec fn peers_after_connect(connected: Seq<NodePubkey>, pubkey: NodePubkey) -> Seq<
    NodePubkey,
> {
    match connect_step(connected, pubkey) {
        ConnectStep::AlreadyConnected => connected,
        ConnectStep::Dial => connected.push(pubkey),
    }
}

/// Decides whether a connection to `pubkey` has to be made: only where it is
/// not among the connected peers.
pub fn connect_peer_if_necessary(
    pubkey: &NodePubkey,
    connected: &Vec<NodePubkey>,
) -> (step: ConnectStep)
    ensures
        step == connect_step(connected@, *pubkey),
{
    let mut i: usize = 0;
    while i < connected.len()
        invariant
            i <= connected@.len(),
            forall|j: int| 0 <= j < i ==> connected@[j] != *pubkey,
        decreases connected@.len() - i,
    {
        if connected[i].same_as(pubkey) {
            return ConnectStep::AlreadyConnected;
        }
        i = i + 1;
    }
    ConnectStep::Dial
}

/// Whether a peer is connected in the end, given what was to be done for the
/// connection and, where a connection had to be made, whether dialling made
/// it. For a peer that was connected already, dialling does not count.
pub open spec fn connection_stands(step: ConnectStep, dialled: bool) -> bool {
    match step {
        ConnectStep::AlreadyConnected => true,
        ConnectStep::Dial => dialled,
    }
}

/// Says whether a peer is connected in the end: it was connected already,
/// or it had to be dialled and dialling made the connection.
pub fn is_connected(step: ConnectStep, dialled: bool) -> (connected: bool)
    ensures
        connected == connection_stands(step, dialled),
{
    match step {
        ConnectStep::AlreadyConnected => true,
        ConnectStep::Dial => dialled,
    }
}

/// Connecting to a connected peer asks for no new connection, however often
/// it is done, and leaves the connected peers as they are; and after any
/// connect the peer is connected, so that a second connect changes nothing.
pub proof fn law_connect_is_idempotent(connected: Seq<NodePubkey>, pubkey: NodePubkey)
    ensures
        connected.contains(pubkey) ==> connect_step(connected, pubkey)
            == ConnectStep::AlreadyConnected && peers_after_connect(connected, pubkey)
            == connected,
        connect_step(peers_after_connect(connected, pubkey), pubkey)
            == ConnectStep::AlreadyConnected,
        peers_after_connect(peers_after_connect(connected, pubkey), pubkey) == peers_after_connect(
            connected,
            pubkey,
        ),
        connected.no_duplicates() ==> peers_after_connect(connected, pubkey).no_duplicates(),
        forall|dialled: bool|
            connected.contains(pubkey) ==> #[trigger] connection_stands(
                connect_step(connected, pubkey),
                dialled,
            ),
{
    let once = peers_after_connect(connected, pubkey);
    if !connected.contains(pubkey) {
        assert(once[connected.len() as int] == pubkey);
    }
    assert(once.contains(pubkey));
}

} // verus!
