//! The payment ledger: one table of payment attempts per direction.
//!
//! A table never forgets a payment, and the status of a payment only ever
//! leaves `Pending`: once it has succeeded or failed it stays so.

use crate::node_var::{
    HTLCStatus, MillisatAmount, PaymentEntry, PaymentHash, PaymentInfo, PaymentPreimage,
    PaymentSecret,
};
use vstd::prelude::*;

verus! {

/// Which way a payment flows, seen from this node.
#[derive(Clone, Copy, Debug, PartialEq, Eq, Structural)]
pub enum Direction {
    Inbound,
    Outbound,
}

/// Why a payment could not be settled or failed.
#[derive(Clone, Copy, Debug, PartialEq, Eq, Structural)]
pub enum LedgerError {
    /// The table holds no payment with that hash.
    NotFound,
    /// The payment has already succeeded or failed.
    AlreadyFinal,
}

/// The record that a newly issued invoice or a newly sent payment gets.
pub open spec fn pending_info(secret: Option<PaymentSecret>, amount: Option<u64>) -> PaymentInfo {
    PaymentInfo {
        preimage: None,
        secret,
        status: HTLCStatus::Pending,
        amt_msat: MillisatAmount(amount),
    }
}

/// The table after a pending payment was recorded: a new record, or the open
/// record of that hash written afresh; a final record stays as it is.
pub open spec fn recorded(
    m: Map<PaymentHash, PaymentInfo>,
    hash: PaymentHash,
    secret: Option<PaymentSecret>,
    amount: Option<u64>,
) -> Map<PaymentHash, PaymentInfo> {
    if m.dom().contains(hash) && m[hash].status.is_final() {
        m
    } else {
        m.insert(hash, pending_info(secret, amount))
    }
}

/// The table after `info` was entered: added if the hash was unknown.
pub open spec fn entered(
    m: Map<PaymentHash, PaymentInfo>,
    hash: PaymentHash,
    info: PaymentInfo,
) -> Map<PaymentHash, PaymentInfo> {
    if m.dom().contains(hash) {
        m
    } else {
        m.insert(hash, info)
    }
}

/// Whether settling or failing the payment `hash` takes effect.
pub open spec fn resolvable(m: Map<PaymentHash, PaymentInfo>, hash: PaymentHash) -> bool {
    m.dom().contains(hash) && m[hash].status == HTLCStatus::Pending
}

/// What settling or failing the payment `hash` answers.
pub open spec fn resolution(m: Map<PaymentHash, PaymentInfo>, hash: PaymentHash) -> Result<
    (),
    LedgerError,
> {
    if !m.dom().contains(hash) {
        Err(LedgerError::NotFound)
    } else if m[hash].status.is_final() {
        Err(LedgerError::AlreadyFinal)
    } else {
        Ok(())
    }
}

/// A record once its payment has succeeded: the preimage is kept, and the
/// secret too where one came with it.
pub open spec fn settled_info(
    info: PaymentInfo,
    preimage: PaymentPreimage,
    secret: Option<PaymentSecret>,
) -> PaymentInfo {
    PaymentInfo {
        preimage: Some(preimage),
        secret: if secret is Some {
            secret
        } else {
            info.secret
        },
        status: HTLCStatus::Succeeded,
        amt_msat: info.amt_msat,
    }
}

/// A record once its payment has failed.
pub open spec fn failed_info(info: PaymentInfo) -> PaymentInfo {
    PaymentInfo {
        preimage: info.preimage,
        secret: info.secret,
        status: HTLCStatus::Failed,
        amt_msat: info.amt_msat,
    }
}

/// The table after the payment `hash` was settled.
pub open spec fn settled(
    m: Map<PaymentHash, PaymentInfo>,
    hash: PaymentHash,
    preimage: PaymentPreimage,
    secret: Option<PaymentSecret>,
) -> Map<PaymentHash, PaymentInfo> {
    if resolvable(m, hash) {
        m.insert(hash, settled_info(m[hash], preimage, secret))
    } else {
        m
    }
}

/// The table after the payment `hash` was failed.
pub open spec fn failed(m: Map<PaymentHash, PaymentInfo>, hash: PaymentHash) -> Map<
    PaymentHash,
    PaymentInfo,
> {
    if resolvable(m, hash) {
        m.insert(hash, failed_info(m[hash]))
    } else {
        m
    }
}

/// The hashes in `keys`, each occurring once.
pub open spec fn distinct(keys: Seq<PaymentHash>) -> bool {
    forall|i: int, j: int| 0 <= i < j < keys.len() ==> keys[i] != keys[j]
}

/// The order of the hashes after a payment with `hash` came in: a new hash
/// goes last, a known one keeps its place.
pub open spec fn keys_with(
    m: Map<PaymentHash, PaymentInfo>,
    keys: Seq<PaymentHash>,
    hash: PaymentHash,
) -> Seq<PaymentHash> {
    if m.dom().contains(hash) {
        keys
    } else {
        keys.push(hash)
    }
}

/// Payment attempts of one direction, by payment hash.
pub struct PaymentInfoStorage {
    entries: Vec<PaymentEntry>,
}

impl View for PaymentInfoStorage {
    type V = Map<PaymentHash, PaymentInfo>;

    /// The records by hash.
    closed spec fn view(&self) -> Map<PaymentHash, PaymentInfo> {
        Map::new(
            |h: PaymentHash| exists|i: int| 0 <= i < self.entries@.len() && self.entries@[i].hash == h,
            |h: PaymentHash| self.entries@[self.place(h)].info,
        )
    }
}

impl PaymentInfoStorage {
    /// What holds of every table: no hash has two rows.
    #[verifier::type_invariant]
    pub closed spec fn well_formed(self) -> bool {
        forall|i: int, j: int|
            0 <= i < j < self.entries@.len() ==> self.entries@[i].hash != self.entries@[j].hash
    }

    spec fn place(self, h: PaymentHash) -> int {
        choose|i: int| 0 <= i < self.entries@.len() && self.entries@[i].hash == h
    }

    /// The hashes in the order in which they were first recorded.
    pub closed spec fn keys(&self) -> Seq<PaymentHash> {
        Seq::new(self.entries@.len(), |i: int| self.entries@[i].hash)
    }

    /// The rows, in the order of `keys`.
    pub open spec fn rows(&self) -> Seq<PaymentEntry> {
        Seq::new(
            self.keys().len(),
            |i: int| PaymentEntry { hash: self.keys()[i], info: self@[self.keys()[i]] },
        )
    }

    /// Every table lists each of its hashes once, and no others.
    pub proof fn lemma_keys(&self)
        requires
            self.well_formed(),
        ensures
            distinct(self.keys()),
            forall|h: PaymentHash| self@.dom().contains(h) <==> self.keys().contains(h),
    {
        self.lemma_rows();
    }

    proof fn lemma_rows(&self)
        requires
            self.well_formed(),
        ensures
            distinct(self.keys()),
            forall|h: PaymentHash| self@.dom().contains(h) <==> self.keys().contains(h),
            self.rows() == self.entries@,
    {
        assert forall|h: PaymentHash| self@.dom().contains(h) implies self.keys().contains(h) by {
            let i = self.place(h);
            assert(self.keys()[i] == h);
        }
        assert forall|i: int| 0 <= i < self.entries@.len() implies self.rows()[i]
            == self.entries@[i] by {
            let h = self.entries@[i].hash;
            assert(self.place(h) == i);
        }
        assert(self.rows() =~= self.entries@);
    }

    /// An empty table.
    pub fn new() -> (table: Self)
        ensures
            table@ == Map::<PaymentHash, PaymentInfo>::empty(),
            table.keys() == Seq::<PaymentHash>::empty(),
    {
        let table = PaymentInfoStorage { entries: Vec::new() };
        assert(table@ =~= Map::<PaymentHash, PaymentInfo>::empty());
        assert(table.keys() =~= Seq::<PaymentHash>::empty());
        table
    }

    /// The number of payments in the table.
    pub fn len(&self) -> (n: usize)
        ensures
            n == self.keys().len(),
            n == self@.dom().len(),
            distinct(self.keys()),
    {
        proof {
            use_type_invariant(self);
            self.lemma_keys();
            self.lemma_dom_len();
        }
        self.entries.len()
    }

    proof fn lemma_dom_len(&self)
        requires
            self.well_formed(),
        ensures
            self@.dom().finite(),
            self@.dom().len() == self.entries@.len(),
    {
        self.lemma_keys();
        let keys = self.keys();
        keys.unique_seq_to_set();
        assert(keys.no_duplicates());
        assert(self@.dom() =~= keys.to_set());
    }

    fn find(&self, hash: &PaymentHash) -> (at: Option<usize>)
        ensures
            match at {
                Some(i) => i < self.entries@.len() && self.entries@[i as int].hash == *hash
                    && self@.dom().contains(*hash) && self@[*hash] == self.entries@[i as int].info,
                None => !self@.dom().contains(*hash),
            },
    {
        proof {
            use_type_invariant(self);
        }
        let mut i: usize = 0;
        while i < self.entries.len()
            invariant
                self.well_formed(),
                i <= self.entries@.len(),
                forall|j: int| 0 <= j < i ==> self.entries@[j].hash != *hash,
            decreases self.entries@.len() - i,
        {
            if self.entries[i].hash.same_as(hash) {
                assert(self.place(*hash) == i);
                return Some(i);
            }
            i = i + 1;
        }
        None
    }

    /// The record of a payment, if the table has one.
    pub fn get(&self, hash: &PaymentHash) -> (info: Option<PaymentInfo>)
        ensures
            info == (if self@.dom().contains(*hash) {
                Some(self@[*hash])
            } else {
                None
            }),
    {
        match self.find(hash) {
            Some(i) => Some(self.entries[i].info),
            None => None,
        }
    }

    /// The row at place `i` of the table's order, if the table has that many.
    pub fn row(&self, i: usize) -> (entry: Option<PaymentEntry>)
        ensures
            entry == (if i < self.keys().len() {
                Some(self.rows()[i as int])
            } else {
                None
            }),
    {
        proof {
            use_type_invariant(self);
            self.lemma_rows();
        }
        if i < self.entries.len() {
            Some(self.entries[i])
        } else {
            None
        }
    }

    /// All rows, in the table's order.
    pub fn snapshot(&self) -> (rows: Vec<PaymentEntry>)
        ensures
            rows@ == self.rows(),
    {
        proof {
            use_type_invariant(self);
            self.lemma_rows();
        }
        let mut rows: Vec<PaymentEntry> = Vec::new();
        let mut i: usize = 0;
        while i < self.entries.len()
            invariant
                i <= self.entries@.len(),
                rows@ == self.entries@.take(i as int),
            decreases self.entries@.len() - i,
        {
            rows.push(self.entries[i]);
            assert(self.entries@.take(i + 1) == self.entries@.take(i as int).push(
                self.entries@[i as int],
            ));
            i = i + 1;
        }
        assert(self.entries@.take(self.entries@.len() as int) == self.entries@);
        rows
    }

    fn put(&mut self, at: Option<usize>, hash: PaymentHash, info: PaymentInfo)
        requires
            match at {
                Some(i) => i < old(self).entries@.len() && old(self).entries@[i as int].hash == hash,
                None => !old(self)@.dom().contains(hash),
            },
        ensures
            final(self)@ == old(self)@.insert(hash, info),
            final(self).keys() == keys_with(old(self)@, old(self).keys(), hash),
    {
        proof {
            use_type_invariant(&*self);
        }
        let ghost before = self.entries@;
        let ghost was = *self;
        let entry = PaymentEntry { hash, info };
        let mut entries: Vec<PaymentEntry> = Vec::new();
        core::mem::swap(&mut self.entries, &mut entries);
        match at {
            Some(i) => {
                assert(was.place(hash) == i);
                entries[i] = entry;
                assert(entries@ == before.update(i as int, entry));
            },
            None => {
                assert forall|j: int| 0 <= j < before.len() implies before[j].hash != hash by {
                    if before[j].hash == hash {
                        assert(was@.dom().contains(hash));
                    }
                }
                entries.push(entry);
            },
        }
        core::mem::swap(&mut self.entries, &mut entries);
        proof {
            let now = *self;
            assert forall|h: PaymentHash| #[trigger]
                now@.dom().contains(h) <==> was@.insert(hash, info).dom().contains(h) by {
                if was@.dom().contains(h) {
                    let j = was.place(h);
                    assert(now.entries@[j].hash == h);
                }
                if now@.dom().contains(h) && h != hash {
                    let j = now.place(h);
                    assert(before[j].hash == h);
                }
                if h == hash {
                    match at {
                        Some(i) => {
                            assert(now.entries@[i as int].hash == hash);
                        },
                        None => {
                            assert(now.entries@[before.len() as int].hash == hash);
                        },
                    }
                }
            }
            assert forall|h: PaymentHash| #[trigger]
                now@.dom().contains(h) implies now@[h] == was@.insert(hash, info)[h] by {
                let j = now.place(h);
                if h != hash {
                    assert(before[j].hash == h);
                    assert(was.place(h) == j);
                }
            }
            assert(now@ =~= was@.insert(hash, info));
            assert(now.keys() =~= keys_with(was@, was.keys(), hash));
        }
    }

    /// Records a pending payment. A payment that has already succeeded or
    /// failed keeps its record.
    pub fn record(&mut self, hash: PaymentHash, secret: Option<PaymentSecret>, amount: Option<u64>)
        ensures
            final(self)@ == recorded(old(self)@, hash, secret, amount),
            final(self).keys() == keys_with(old(self)@, old(self).keys(), hash),
    {
        let at = self.find(&hash);
        let open = match at {
            Some(i) => self.entries[i].info.status.is_pending(),
            None => true,
        };
        if open {
            let info = PaymentInfo {
                preimage: None,
                secret,
                status: HTLCStatus::Pending,
                amt_msat: MillisatAmount(amount),
            };
            self.put(at, hash, info);
        }
    }

    /// Adds the record of a payment that the table did not know. A known
    /// payment keeps its record.
    pub fn enter(&mut self, hash: PaymentHash, info: PaymentInfo)
        ensures
            final(self)@ == entered(old(self)@, hash, info),
            final(self).keys() == keys_with(old(self)@, old(self).keys(), hash),
    {
        let at = self.find(&hash);
        if at.is_none() {
            self.put(at, hash, info);
        }
    }

    /// Marks a pending payment as succeeded and keeps its preimage, and the
    /// secret where one is given.
    pub fn settle(
        &mut self,
        hash: PaymentHash,
        preimage: PaymentPreimage,
        secret: Option<PaymentSecret>,
    ) -> (done: Result<(), LedgerError>)
        ensures
            done == resolution(old(self)@, hash),
            final(self)@ == settled(old(self)@, hash, preimage, secret),
            final(self).keys() == old(self).keys(),
    {
        let at = self.find(&hash);
        match at {
            None => Err(LedgerError::NotFound),
            Some(i) => {
                let was = self.entries[i].info;
                if was.status.is_pending() {
                    let info = PaymentInfo {
                        preimage: Some(preimage),
                        secret: if secret.is_some() {
                            secret
                        } else {
                            was.secret
                        },
                        status: HTLCStatus::Succeeded,
                        amt_msat: was.amt_msat,
                    };
                    self.put(at, hash, info);
                    Ok(())
                } else {
                    Err(LedgerError::AlreadyFinal)
                }
            },
        }
    }

    /// Marks a pending payment as failed.
    pub fn fail(&mut self, hash: PaymentHash) -> (done: Result<(), LedgerError>)
        ensures
            done == resolution(old(self)@, hash),
            final(self)@ == failed(old(self)@, hash),
            final(self).keys() == old(self).keys(),
    {
        let at = self.find(&hash);
        match at {
            None => Err(LedgerError::NotFound),
            Some(i) => {
                let was = self.entries[i].info;
                if was.status.is_pending() {
                    let info = PaymentInfo {
                        preimage: was.preimage,
                        secret: was.secret,
                        status: HTLCStatus::Failed,
                        amt_msat: was.amt_msat,
                    };
                    self.put(at, hash, info);
                    Ok(())
                } else {
                    Err(LedgerError::AlreadyFinal)
                }
            },
        }
    }
}

/// One row of a listing of the whole ledger.
#[derive(Clone, Copy, Debug, PartialEq, Eq)]
pub struct LedgerRow {
    pub direction: Direction,
    pub hash: PaymentHash,
    pub info: PaymentInfo,
}

/// The rows of one table, each marked with the table's direction.
pub open spec fn marked_rows(direction: Direction, rows: Seq<PaymentEntry>) -> Seq<LedgerRow> {
    Seq::new(
        rows.len(),
        |i: int| LedgerRow { direction, hash: rows[i].hash, info: rows[i].info },
    )
}

/// Inbound and outbound payment attempts.
pub struct PaymentLedger {
    pub inbound: PaymentInfoStorage,
    pub outbound: PaymentInfoStorage,
}

impl PaymentLedger {
    /// The records of one direction, by hash.
    pub open spec fn table(&self, direction: Direction) -> Map<PaymentHash, PaymentInfo> {
        match direction {
            Direction::Inbound => self.inbound@,
            Direction::Outbound => self.outbound@,
        }
    }

    /// The hashes of one direction, in the order in which they came.
    pub open spec fn keys(&self, direction: Direction) -> Seq<PaymentHash> {
        match direction {
            Direction::Inbound => self.inbound.keys(),
            Direction::Outbound => self.outbound.keys(),
        }
    }

    /// The direction that an operation on `direction` leaves alone.
    pub open spec fn other(direction: Direction) -> Direction {
        match direction {
            Direction::Inbound => Direction::Outbound,
            Direction::Outbound => Direction::Inbound,
        }
    }

    /// All rows of the ledger: the inbound ones, then the outbound ones.
    pub open spec fn all_rows(&self) -> Seq<LedgerRow> {
        marked_rows(Direction::Inbound, self.inbound.rows()) + marked_rows(
            Direction::Outbound,
            self.outbound.rows(),
        )
    }

    /// A ledger without payments.
    pub fn new() -> (ledger: Self)
        ensures
            ledger.inbound@ == Map::<PaymentHash, PaymentInfo>::empty(),
            ledger.outbound@ == Map::<PaymentHash, PaymentInfo>::empty(),
            ledger.inbound.keys() == Seq::<PaymentHash>::empty(),
            ledger.outbound.keys() == Seq::<PaymentHash>::empty(),
    {
        PaymentLedger { inbound: PaymentInfoStorage::new(), outbound: PaymentInfoStorage::new() }
    }

    /// Records the payment that an issued invoice asks for, as pending.
    pub fn record_inbound(
        &mut self,
        hash: PaymentHash,
        secret: Option<PaymentSecret>,
        amount: Option<u64>,
    )
        ensures
            final(self).inbound@ == recorded(old(self).inbound@, hash, secret, amount),
            final(self).inbound.keys() == keys_with(
                old(self).inbound@,
                old(self).inbound.keys(),
                hash,
            ),
            final(self).outbound == old(self).outbound,
    {
        self.inbound.record(hash, secret, amount);
    }

    /// Records a payment that was handed to the engine, as pending.
    pub fn record_outbound(
        &mut self,
        hash: PaymentHash,
        secret: Option<PaymentSecret>,
        amount: Option<u64>,
    )
        ensures
            final(self).outbound@ == recorded(old(self).outbound@, hash, secret, amount),
            final(self).outbound.keys() == keys_with(
                old(self).outbound@,
                old(self).outbound.keys(),
                hash,
            ),
            final(self).inbound == old(self).inbound,
    {
        self.outbound.record(hash, secret, amount);
    }

    /// Marks a pending payment of `direction` as succeeded and keeps its
    /// preimage. `NotFound` when that direction has no such payment,
    /// `AlreadyFinal` when it has succeeded or failed before; the ledger is
    /// then left as it was.
    pub fn settle(
        &mut self,
        hash: PaymentHash,
        preimage: PaymentPreimage,
        direction: Direction,
    ) -> (done: Result<(), LedgerError>)
        ensures
            done == resolution(old(self).table(direction), hash),
            final(self).table(direction) == settled(
                old(self).table(direction),
                hash,
                preimage,
                None,
            ),
            final(self).keys(direction) == old(self).keys(direction),
            direction == Direction::Inbound ==> final(self).outbound == old(self).outbound,
            direction == Direction::Outbound ==> final(self).inbound == old(self).inbound,
    {
        match direction {
            Direction::Inbound => self.inbound.settle(hash, preimage, None),
            Direction::Outbound => self.outbound.settle(hash, preimage, None),
        }
    }

    /// Marks a pending payment of `direction` as failed, with the answers of
    /// `settle`.
    pub fn fail(&mut self, hash: PaymentHash, direction: Direction) -> (done: Result<(), LedgerError>)
        ensures
            done == resolution(old(self).table(direction), hash),
            final(self).table(direction) == failed(old(self).table(direction), hash),
            final(self).keys(direction) == old(self).keys(direction),
            direction == Direction::Inbound ==> final(self).outbound == old(self).outbound,
            direction == Direction::Outbound ==> final(self).inbound == old(self).inbound,
    {
        match direction {
            Direction::Inbound => self.inbound.fail(hash),
            Direction::Outbound => self.outbound.fail(hash),
        }
    }

    /// Every payment of the ledger with its direction: the inbound ones in
    /// their order, then the outbound ones in theirs.
    pub fn snapshot_all(&self) -> (rows: Vec<LedgerRow>)
        ensures
            rows@ == self.all_rows(),
            rows@.len() == self.inbound@.dom().len() + self.outbound@.dom().len(),
    {
        let mut rows: Vec<LedgerRow> = Vec::new();
        let inbound = self.inbound.snapshot();
        let n_in: usize = self.inbound.len();
        let mut i: usize = 0;
        while i < inbound.len()
            invariant
                i <= inbound@.len(),
                rows@ == marked_rows(Direction::Inbound, inbound@).take(i as int),
            decreases inbound@.len() - i,
        {
            let e = inbound[i];
            rows.push(LedgerRow { direction: Direction::Inbound, hash: e.hash, info: e.info });
            assert(rows@ =~= marked_rows(Direction::Inbound, inbound@).take(i + 1));
            i = i + 1;
        }
        assert(rows@ =~= marked_rows(Direction::Inbound, inbound@));
        let outbound = self.outbound.snapshot();
        let n_out: usize = self.outbound.len();
        let ghost head = rows@;
        let mut j: usize = 0;
        while j < outbound.len()
            invariant
                j <= outbound@.len(),
                rows@ == head + marked_rows(Direction::Outbound, outbound@).take(j as int),
            decreases outbound@.len() - j,
        {
            let e = outbound[j];
            rows.push(LedgerRow { direction: Direction::Outbound, hash: e.hash, info: e.info });
            assert(rows@ =~= head + marked_rows(Direction::Outbound, outbound@).take(j + 1));
            j = j + 1;
        }
        assert(rows@ =~= head + marked_rows(Direction::Outbound, outbound@));
        rows
    }
}

/// An operation on one payment table.
pub enum TableOp {
    Record { hash: PaymentHash, secret: Option<PaymentSecret>, amount: Option<u64> },
    Enter { hash: PaymentHash, info: PaymentInfo },
    Settle { hash: PaymentHash, preimage: PaymentPreimage, secret: Option<PaymentSecret> },
    Fail { hash: PaymentHash },
}

impl TableOp {
    /// The table after the operation.
    pub open spec fn apply(self, m: Map<PaymentHash, PaymentInfo>) -> Map<PaymentHash, PaymentInfo> {
        match self {
            TableOp::Record { hash, secret, amount } => recorded(m, hash, secret, amount),
            TableOp::Enter { hash, info } => entered(m, hash, info),
            TableOp::Settle { hash, preimage, secret } => settled(m, hash, preimage, secret),
            TableOp::Fail { hash } => failed(m, hash),
        }
    }

    /// Whether the operation settles or fails the payment `h` and takes
    /// effect on the table `m`.
    pub open spec fn resolves(self, m: Map<PaymentHash, PaymentInfo>, h: PaymentHash) -> bool {
        match self {
            TableOp::Settle { hash, .. } => hash == h && resolvable(m, h),
            TableOp::Fail { hash } => hash == h && resolvable(m, h),
            _ => false,
        }
    }

    /// Whether the operation can bring the payment `h` into a table.
    pub open spec fn inserts(self, h: PaymentHash) -> bool {
        match self {
            TableOp::Record { hash, .. } => hash == h,
            TableOp::Enter { hash, .. } => hash == h,
            _ => false,
        }
    }
}

/// The table after the operations `ops`, applied in order to `m`.
pub open spec fn run(m: Map<PaymentHash, PaymentInfo>, ops: Seq<TableOp>) -> Map<
    PaymentHash,
    PaymentInfo,
>
    decreases ops.len(),
{
    if ops.len() == 0 {
        m
    } else {
        ops.last().apply(run(m, ops.drop_last()))
    }
}

/// How many of the operations `ops`, applied in order to `m`, settled or
/// failed the payment `h` with effect.
pub open spec fn resolutions(
    m: Map<PaymentHash, PaymentInfo>,
    ops: Seq<TableOp>,
    h: PaymentHash,
) -> nat
    decreases ops.len(),
{
    if ops.len() == 0 {
        0
    } else {
        let before = resolutions(m, ops.drop_last(), h);
        if ops.last().resolves(run(m, ops.drop_last()), h) {
            before + 1
        } else {
            before
        }
    }
}

/// No operation removes a payment, and none changes a status other than from
/// `Pending`.
pub proof fn law_status_only_leaves_pending(
    m: Map<PaymentHash, PaymentInfo>,
    op: TableOp,
    h: PaymentHash,
)
    requires
        m.dom().contains(h),
    ensures
        op.apply(m).dom().contains(h),
        m[h].status.may_become(op.apply(m)[h].status),
        m[h].status.is_final() ==> op.apply(m)[h] == m[h],
{
}

/// Whatever operations follow, a payment stays in its table, and once it has
/// succeeded or failed its record never changes again.
pub proof fn law_records_are_kept(
    m: Map<PaymentHash, PaymentInfo>,
    ops: Seq<TableOp>,
    h: PaymentHash,
)
    requires
        m.dom().contains(h),
    ensures
        run(m, ops).dom().contains(h),
        m[h].status.may_become(run(m, ops)[h].status),
        m[h].status.is_final() ==> run(m, ops)[h] == m[h],
    decreases ops.len(),
{
    if ops.len() > 0 {
        law_records_are_kept(m, ops.drop_last(), h);
        law_status_only_leaves_pending(run(m, ops.drop_last()), ops.last(), h);
    }
}

/// Of all the settlements and failures ever asked for a payment, at most one
/// takes effect; none does on a payment that has succeeded or failed already,
/// and the one that does leaves the payment final.
pub proof fn law_resolved_at_most_once(
    m: Map<PaymentHash, PaymentInfo>,
    ops: Seq<TableOp>,
    h: PaymentHash,
)
    ensures
        resolutions(m, ops, h) <= 1,
        m.dom().contains(h) && m[h].status.is_final() ==> resolutions(m, ops, h) == 0,
        resolutions(m, ops, h) == 1 ==> run(m, ops).dom().contains(h) && run(
            m,
            ops,
        )[h].status.is_final(),
    decreases ops.len(),
{
    if ops.len() > 0 {
        let head = ops.drop_last();
        law_resolved_at_most_once(m, head, h);
        if run(m, head).dom().contains(h) {
            law_status_only_leaves_pending(run(m, head), ops.last(), h);
        }
        if m.dom().contains(h) {
            law_records_are_kept(m, head, h);
        }
    }
}

/// No settlement or failure takes effect on a payment before an operation
/// has brought it into the table.
pub proof fn law_not_resolved_before_recorded(ops: Seq<TableOp>, h: PaymentHash)
    requires
        forall|i: int| 0 <= i < ops.len() ==> !(#[trigger] ops[i]).inserts(h),
    ensures
        !run(Map::empty(), ops).dom().contains(h),
        resolutions(Map::empty(), ops, h) == 0,
    decreases ops.len(),
{
    if ops.len() > 0 {
        let head = ops.drop_last();
        assert forall|i: int| 0 <= i < head.len() implies !(#[trigger] head[i]).inserts(h) by {
            assert(head[i] == ops[i]);
        }
        law_not_resolved_before_recorded(head, h);
        assert(!ops[ops.len() - 1].inserts(h));
    }
}

} // verus!
