//! Payment bookkeeping types shared by the event coordinator and the
//! request facade.

use crate::text::u64_to_string;
use vstd::prelude::*;
use vstd::string::*;

verus! {

/// 32-byte identifier of a payment; the key of a payment table.
#[derive(Clone, Copy, Debug, PartialEq, Eq)]
pub struct PaymentHash(pub [u8; 32]);

/// 32-byte secret whose hash is the payment hash; showing it proves receipt.
#[derive(Clone, Copy, Debug, PartialEq, Eq)]
pub struct PaymentPreimage(pub [u8; 32]);

/// 32-byte secret that binds a payment to an invoice.
#[derive(Clone, Copy, Debug, PartialEq, Eq)]
pub struct PaymentSecret(pub [u8; 32]);

impl PaymentHash {
    /// Whether two hashes hold the same bytes.
    pub fn same_as(&self, other: &PaymentHash) -> (same: bool)
        ensures
            same == (*self == *other),
    {
        let mut i: usize = 0;
        while i < 32
            invariant
                i <= 32,
                forall|j: int| 0 <= j < i ==> self.0[j] == other.0[j],
            decreases 32 - i,
        {
            if self.0[i] != other.0[i] {
                return false;
            }
            i = i + 1;
        }
        assert(self.0 =~= other.0);
        true
    }
}

/// Compressed public key of a node, 33 bytes.
#[derive(Clone, Copy, Debug, PartialEq, Eq)]
pub struct NodePubkey(pub [u8; 33]);

impl NodePubkey {
    /// Whether two keys hold the same bytes.
    pub fn same_as(&self, other: &NodePubkey) -> (same: bool)
        ensures
            same == (*self == *other),
    {
        let mut i: usize = 0;
        while i < 33
            invariant
                i <= 33,
                forall|j: int| 0 <= j < i ==> self.0[j] == other.0[j],
            decreases 33 - i,
        {
            if self.0[i] != other.0[i] {
                return false;
            }
            i = i + 1;
        }
        assert(self.0 =~= other.0);
        true
    }

    /// The key in lower-case hexadecimal, as it is shown to an operator.
    pub fn to_hex(&self) -> (s: String)
        ensures
            s@ == crate::hex_utils::hex_of(self.0@),
    {
        crate::hex_utils::hex_str(self.0.as_slice())
    }
}

/// The chain that the node works on.
#[derive(Clone, Copy, Debug, PartialEq, Eq, Structural)]
pub enum Network {
    Bitcoin,
    Testnet,
    Regtest,
    Signet,
}

/// The currency that an invoice is issued in.
#[derive(Clone, Copy, Debug, PartialEq, Eq, Structural)]
pub enum Currency {
    Bitcoin,
    BitcoinTestnet,
    Regtest,
    Signet,
}

impl Network {
    /// The currency of invoices on this chain.
    pub open spec fn invoice_currency(self) -> Currency {
        match self {
            Network::Bitcoin => Currency::Bitcoin,
            Network::Testnet => Currency::BitcoinTestnet,
            Network::Regtest => Currency::Regtest,
            Network::Signet => Currency::Signet,
        }
    }

    /// The currency of invoices on this chain.
    pub fn currency(&self) -> (c: Currency)
        ensures
            c == self.invoice_currency(),
    {
        match self {
            Network::Bitcoin => Currency::Bitcoin,
            Network::Testnet => Currency::BitcoinTestnet,
            Network::Regtest => Currency::Regtest,
            Network::Signet => Currency::Signet,
        }
    }
}

/// Defines the status variations of an HTLC
#[derive(Clone, Copy, Debug, PartialEq, Eq, Structural)]
pub enum HTLCStatus {
    Pending,
    Succeeded,
    Failed,
}

impl HTLCStatus {
    /// A status is final once the payment has succeeded or failed.
    pub open spec fn is_final(self) -> bool {
        self != HTLCStatus::Pending
    }

    /// The only moves a status may make: stay as it is, or leave `Pending`.
    pub open spec fn may_become(self, next: HTLCStatus) -> bool {
        self == next || self == HTLCStatus::Pending
    }

    /// Whether the payment is still open.
    pub fn is_pending(&self) -> (b: bool)
        ensures
            b == (*self == HTLCStatus::Pending),
    {
        match self {
            HTLCStatus::Pending => true,
            _ => false,
        }
    }

    /// The word by which a listing names the status.
    pub open spec fn word(self) -> Seq<char> {
        match self {
            HTLCStatus::Pending => "pending"@,
            HTLCStatus::Succeeded => "succeeded"@,
            HTLCStatus::Failed => "failed"@,
        }
    }

    /// The status as a listing shows it.
    pub fn label(&self) -> (s: String)
        ensures
            s@ == self.word(),
    {
        match self {
            HTLCStatus::Pending => String::from_str("pending"),
            HTLCStatus::Succeeded => String::from_str("succeeded"),
            HTLCStatus::Failed => String::from_str("failed"),
        }
    }
}

/// An amount in millisatoshis, where one is known.
#[derive(Clone, Copy, Debug, PartialEq, Eq)]
pub struct MillisatAmount(pub Option<u64>);

impl MillisatAmount {
    /// How the amount reads: its decimal notation, or `unknown`.
    pub open spec fn text(self) -> Seq<char> {
        match self.0 {
            Some(amt) => crate::text::decimal(amt as nat),
            None => "unknown"@,
        }
    }

    /// The amount as shown to an operator.
    pub fn to_text(&self) -> (s: String)
        ensures
            s@ == self.text(),
    {
        match self.0 {
            Some(amt) => u64_to_string(amt),
            None => String::from_str("unknown"),
        }
    }
}

/// Defines the information about a payment
#[derive(Clone, Copy, Debug, PartialEq, Eq)]
pub struct PaymentInfo {
    pub preimage: Option<PaymentPreimage>,
    pub secret: Option<PaymentSecret>,
    pub status: HTLCStatus,
    pub amt_msat: MillisatAmount,
}

/// One row of a payment table.
#[derive(Clone, Copy, Debug, PartialEq, Eq)]
pub struct PaymentEntry {
    pub hash: PaymentHash,
    pub info: PaymentInfo,
}

/// Where channel and graph data are kept on disk.
#[derive(Clone, Debug, PartialEq, Eq)]
pub struct DataPersister {
    pub data_dir: String,
}

impl DataPersister {
    /// What is to be said after an attempt to write the network graph. A
    /// graph that could not be written is no failure, since it can be
    /// fetched again; it only calls for a warning, as it may point to a
    /// fault of the disk.
    pub fn persist_graph(&self, written: bool) -> (warning: Option<String>)
        ensures
            match warning {
                Some(w) => !written && w@
                    == "Warning: Failed to persist network graph, check your disk and permissions"@,
                None => written,
            },
    {
        if written {
            None
        } else {
            Some(
                String::from_str(
                    "Warning: Failed to persist network graph, check your disk and permissions",
                ),
            )
        }
    }
}

} // verus!
