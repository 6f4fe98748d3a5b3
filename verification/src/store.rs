use vstd::prelude::*;
use crate::address::{same_key, Pubkey};
use crate::error::ErrorCode;
use crate::records::{Record, RecordKind, RecordView};

verus! {

/// The store as a mathematical value: what every identity holds, and which
/// record lives at which address.
#[verifier::ext_equal]
pub struct StoreView {
    /// Native value charged per byte of record storage.
    pub rent_per_byte: nat,
    /// Native value held by each identity; total, zero where nothing is held.
    pub balances: Map<Seq<u8>, nat>,
    /// The live records, by address.
    pub records: Map<Seq<u8>, RecordView>,
}

/// How an operation with the stated outcome `step` relates the state before
/// it to the state after it and to what it returned: a success moves to the
/// stated state, a failure returns the stated error and changes nothing.
pub open spec fn follows<S>(
    before: S,
    step: Result<S, ErrorCode>,
    res: Result<(), ErrorCode>,
    after: S,
) -> bool {
    match step {
        Ok(next) => res is Ok && after == next,
        Err(e) => res == Err::<(), ErrorCode>(e) && after == before,
    }
}

impl StoreView {
    /// A store is well formed when `balances` says of every key what it
    /// holds.
    pub open spec fn wf(self) -> bool {
        forall|key: Seq<u8>| #[trigger] self.balances.dom().contains(key)
    }

    /// The store in which nobody holds anything and no record lives.
    pub open spec fn empty(rent_per_byte: nat) -> StoreView {
        StoreView {
            rent_per_byte,
            balances: Map::total(|key: Seq<u8>| 0nat),
            records: Map::empty(),
        }
    }

    pub open spec fn balance(self, key: Seq<u8>) -> nat {
        self.balances[key]
    }

    /// The deposit held against a record of shape `kind`.
    pub open spec fn cost(self, kind: RecordKind) -> nat {
        self.rent_per_byte * kind.spec_space()
    }

    pub open spec fn read(self, address: Seq<u8>) -> Option<RecordView> {
        if self.records.contains_key(address) {
            Some(self.records[address])
        } else {
            None
        }
    }

    pub open spec fn credit(self, key: Seq<u8>, lamports: nat) -> StoreView {
        StoreView { balances: self.balances.insert(key, self.balances[key] + lamports), ..self }
    }

    pub open spec fn debit(self, key: Seq<u8>, lamports: nat) -> StoreView {
        StoreView {
            balances: self.balances.insert(key, (self.balances[key] - lamports) as nat),
            ..self
        }
    }

    /// Moves `lamports` from `from` to `to`.
    pub open spec fn transfer(self, from: Seq<u8>, to: Seq<u8>, lamports: nat) -> Result<
        StoreView,
        ErrorCode,
    > {
        if self.balances[from] < lamports {
            Err(ErrorCode::InsufficientFunds)
        } else {
            Ok(self.debit(from, lamports).credit(to, lamports))
        }
    }

    /// Puts `record` at `address`, which must be free, and charges its
    /// deposit to `payer`.
    pub open spec fn create(self, address: Seq<u8>, record: RecordView, payer: Seq<u8>) -> Result<
        StoreView,
        ErrorCode,
    > {
        if self.records.contains_key(address) {
            Err(ErrorCode::AddressOccupied)
        } else if self.balances[payer] < self.cost(record.kind()) {
            Err(ErrorCode::InsufficientFunds)
        } else {
            Ok(
                StoreView {
                    records: self.records.insert(address, record),
                    ..self.debit(payer, self.cost(record.kind()))
                },
            )
        }
    }

    /// Replaces the record at `address` by `record`. The address must hold
    /// a record of the same shape; `authorizer` must be its owner, and the
    /// replacement must name the same owner.
    pub open spec fn update(
        self,
        address: Seq<u8>,
        record: RecordView,
        authorizer: Seq<u8>,
    ) -> Result<StoreView, ErrorCode> {
        if !self.records.contains_key(address) || self.records[address].kind() != record.kind() {
            Err(ErrorCode::AddressNotFound)
        } else if self.records[address].owner() != authorizer || record.owner() != authorizer {
            Err(ErrorCode::Unauthorized)
        } else {
            Ok(StoreView { records: self.records.insert(address, record), ..self })
        }
    }

    /// Deletes the record at `address` and hands its deposit to
    /// `beneficiary`; the address is free again afterwards.
    pub open spec fn close(self, address: Seq<u8>, beneficiary: Seq<u8>) -> Result<
        StoreView,
        ErrorCode,
    > {
        if !self.records.contains_key(address) {
            Err(ErrorCode::AddressNotFound)
        } else {
            Ok(
                StoreView {
                    records: self.records.remove(address),
                    ..self.credit(beneficiary, self.cost(self.records[address].kind()))
                },
            )
        }
    }

    /// Moves `lamports` from `from` to `to` and then writes the receipt
    /// `record` at `address`, paid for by `payer`. Either both happen or
    /// neither does.
    pub open spec fn transfer_then_record(
        self,
        from: Seq<u8>,
        to: Seq<u8>,
        lamports: nat,
        address: Seq<u8>,
        record: RecordView,
        payer: Seq<u8>,
    ) -> Result<StoreView, ErrorCode> {
        match self.transfer(from, to, lamports) {
            Ok(moved) => moved.create(address, record, payer),
            Err(e) => Err(e),
        }
    }
}

/// Sum of a sequence of amounts.
pub open spec fn total(amounts: Seq<int>) -> int
    decreases amounts.len(),
{
    if amounts.len() == 0 {
        0
    } else {
        total(amounts.drop_last()) + amounts.last()
    }
}

proof fn lemma_total_push(amounts: Seq<int>, x: int)
    ensures
        total(amounts.push(x)) == total(amounts) + x,
{
    assert(amounts.push(x).drop_last() =~= amounts);
}

proof fn lemma_total_update(amounts: Seq<int>, i: int, x: int)
    requires
        0 <= i < amounts.len(),
    ensures
        total(amounts.update(i, x)) == total(amounts) - amounts[i] + x,
    decreases amounts.len(),
{
    if i == amounts.len() - 1 {
        assert(amounts.update(i, x).drop_last() =~= amounts.drop_last());
    } else {
        lemma_total_update(amounts.drop_last(), i, x);
        assert(amounts.update(i, x).drop_last() =~= amounts.drop_last().update(i, x));
    }
}

proof fn lemma_total_remove(amounts: Seq<int>, i: int)
    requires
        0 <= i < amounts.len(),
    ensures
        total(amounts.remove(i)) == total(amounts) - amounts[i],
    decreases amounts.len(),
{
    if i == amounts.len() - 1 {
        assert(amounts.remove(i) =~= amounts.drop_last());
    } else {
        lemma_total_remove(amounts.drop_last(), i);
        assert(amounts.remove(i).drop_last() =~= amounts.drop_last().remove(i));
    }
}

proof fn lemma_total_nonnegative(amounts: Seq<int>)
    requires
        forall|i: int| 0 <= i < amounts.len() ==> amounts[i] >= 0,
    ensures
        total(amounts) >= 0,
    decreases amounts.len(),
{
    if amounts.len() > 0 {
        lemma_total_nonnegative(amounts.drop_last());
    }
}

proof fn lemma_total_bounds(amounts: Seq<int>, i: int)
    requires
        forall|j: int| 0 <= j < amounts.len() ==> amounts[j] >= 0,
        0 <= i < amounts.len(),
    ensures
        amounts[i] <= total(amounts),
{
    lemma_total_update(amounts, i, 0);
    lemma_total_nonnegative(amounts.update(i, 0));
}

/// An optional record as an optional mathematical value.
pub open spec fn record_view(found: Option<&Record>) -> Option<RecordView> {
    match found {
        Some(record) => Some(record@),
        None => None,
    }
}

/// What one identity holds.
struct Wallet {
    key: Pubkey,
    lamports: u64,
}

/// One live record, with the deposit that was charged for it.
struct Slot {
    address: Pubkey,
    deposit: u64,
    record: Record,
}

spec fn held(wallets: Seq<Wallet>) -> Seq<int> {
    Seq::new(wallets.len(), |i: int| wallets[i].lamports as int)
}

spec fn deposited(slots: Seq<Slot>) -> Seq<int> {
    Seq::new(slots.len(), |i: int| slots[i].deposit as int)
}

/// Whether some wallet belongs to `key`.
spec fn holds(wallets: Seq<Wallet>, key: Seq<u8>) -> bool {
    exists|i: int| 0 <= i < wallets.len() && (#[trigger] wallets[i]).key@ == key
}

/// Index of a wallet that belongs to `key`.
spec fn wallet_of(wallets: Seq<Wallet>, key: Seq<u8>) -> int {
    choose|i: int| 0 <= i < wallets.len() && (#[trigger] wallets[i]).key@ == key
}

/// No key has two wallets.
spec fn distinct_keys(wallets: Seq<Wallet>) -> bool {
    forall|i: int, j: int|
        0 <= i < j < wallets.len() ==> (#[trigger] wallets[i]).key@ != (#[trigger] wallets[j]).key@
}

/// What each key holds: the content of its wallet, or nothing.
spec fn balances_of(wallets: Seq<Wallet>) -> Map<Seq<u8>, nat> {
    Map::total(
        |key: Seq<u8>|
            if holds(wallets, key) {
                wallets[wallet_of(wallets, key)].lamports as nat
            } else {
                0nat
            },
    )
}

/// Whether some slot sits at `address`.
spec fn stores(slots: Seq<Slot>, address: Seq<u8>) -> bool {
    exists|i: int| 0 <= i < slots.len() && (#[trigger] slots[i]).address@ == address
}

/// Index of a slot that sits at `address`.
spec fn slot_of(slots: Seq<Slot>, address: Seq<u8>) -> int {
    choose|i: int| 0 <= i < slots.len() && (#[trigger] slots[i]).address@ == address
}

/// No address has two slots.
spec fn distinct_addresses(slots: Seq<Slot>) -> bool {
    forall|i: int, j: int|
        0 <= i < j < slots.len() ==> (#[trigger] slots[i]).address@ != (
        #[trigger] slots[j]).address@
}

/// The record at each address that has a slot.
spec fn records_of(slots: Seq<Slot>) -> Map<Seq<u8>, RecordView> {
    Map::new(
        |address: Seq<u8>| stores(slots, address),
        |address: Seq<u8>| slots[slot_of(slots, address)].record@,
    )
}

proof fn lemma_balance_at(wallets: Seq<Wallet>, i: int)
    requires
        distinct_keys(wallets),
        0 <= i < wallets.len(),
    ensures
        holds(wallets, wallets[i].key@),
        wallet_of(wallets, wallets[i].key@) == i,
        balances_of(wallets)[wallets[i].key@] == wallets[i].lamports,
{
    let key = wallets[i].key@;
    assert(holds(wallets, key));
    let j = wallet_of(wallets, key);
    assert(wallets[j].key@ == key);
    assert(j == i);
}

proof fn lemma_record_at(slots: Seq<Slot>, i: int)
    requires
        distinct_addresses(slots),
        0 <= i < slots.len(),
    ensures
        stores(slots, slots[i].address@),
        slot_of(slots, slots[i].address@) == i,
        records_of(slots).contains_key(slots[i].address@),
        records_of(slots)[slots[i].address@] == slots[i].record@,
{
    let address = slots[i].address@;
    assert(stores(slots, address));
    let j = slot_of(slots, address);
    assert(slots[j].address@ == address);
    assert(j == i);
}

/// Replacing what the wallet at `i` holds replaces what its key holds.
proof fn lemma_balances_set(before: Seq<Wallet>, after: Seq<Wallet>, i: int)
    requires
        distinct_keys(before),
        0 <= i < before.len(),
        after.len() == before.len(),
        after[i].key@ == before[i].key@,
        forall|j: int| 0 <= j < before.len() && j != i ==> after[j] == before[j],
    ensures
        distinct_keys(after),
        balances_of(after) == balances_of(before).insert(
            before[i].key@,
            after[i].lamports as nat,
        ),
        held(after) == held(before).update(i, after[i].lamports as int),
{
    assert forall|a: int, b: int| 0 <= a < b < after.len() implies (#[trigger] after[a]).key@ != (
    #[trigger] after[b]).key@ by {
        assert(before[a].key@ != before[b].key@);
    }
    assert forall|key: Seq<u8>| #[trigger]
        balances_of(after)[key] == balances_of(before).insert(
            before[i].key@,
            after[i].lamports as nat,
        )[key] by {
        if holds(before, key) {
            let j = wallet_of(before, key);
            lemma_balance_at(before, j);
            assert(after[j].key@ == key);
            lemma_balance_at(after, j);
        } else if holds(after, key) {
            let j = wallet_of(after, key);
            assert(before[j].key@ == key);
        }
    }
    assert(balances_of(after) =~= balances_of(before).insert(
        before[i].key@,
        after[i].lamports as nat,
    ));
    assert(held(after) =~= held(before).update(i, after[i].lamports as int));
}

/// A new wallet gives its key what it holds.
proof fn lemma_balances_push(before: Seq<Wallet>, wallet: Wallet)
    requires
        distinct_keys(before),
        !holds(before, wallet.key@),
    ensures
        distinct_keys(before.push(wallet)),
        balances_of(before.push(wallet)) == balances_of(before).insert(
            wallet.key@,
            wallet.lamports as nat,
        ),
        held(before.push(wallet)) == held(before).push(wallet.lamports as int),
{
    let after = before.push(wallet);
    let n = before.len() as int;
    assert forall|a: int, b: int| 0 <= a < b < after.len() implies (#[trigger] after[a]).key@ != (
    #[trigger] after[b]).key@ by {
        if b == n {
            assert(before[a].key@ != wallet.key@);
        } else {
            assert(before[a].key@ != before[b].key@);
        }
    }
    assert forall|key: Seq<u8>| #[trigger]
        balances_of(after)[key] == balances_of(before).insert(
            wallet.key@,
            wallet.lamports as nat,
        )[key] by {
        if key == wallet.key@ {
            assert(after[n].key@ == key);
            lemma_balance_at(after, n);
        } else if holds(before, key) {
            let j = wallet_of(before, key);
            lemma_balance_at(before, j);
            assert(after[j].key@ == key);
            lemma_balance_at(after, j);
        } else if holds(after, key) {
            let j = wallet_of(after, key);
            assert(before[j].key@ == key);
        }
    }
    assert(balances_of(after) =~= balances_of(before).insert(
        wallet.key@,
        wallet.lamports as nat,
    ));
    assert(held(after) =~= held(before).push(wallet.lamports as int));
}

/// A new slot puts its record at its address.
proof fn lemma_records_push(before: Seq<Slot>, slot: Slot)
    requires
        distinct_addresses(before),
        !stores(before, slot.address@),
    ensures
        distinct_addresses(before.push(slot)),
        records_of(before.push(slot)) == records_of(before).insert(slot.address@, slot.record@),
        deposited(before.push(slot)) == deposited(before).push(slot.deposit as int),
{
    let after = before.push(slot);
    let n = before.len() as int;
    assert forall|a: int, b: int| 0 <= a < b < after.len() implies (
    #[trigger] after[a]).address@ != (#[trigger] after[b]).address@ by {
        if b == n {
            assert(before[a].address@ != slot.address@);
        } else {
            assert(before[a].address@ != before[b].address@);
        }
    }
    let expected = records_of(before).insert(slot.address@, slot.record@);
    assert forall|address: Seq<u8>| #[trigger]
        records_of(after).contains_key(address) == expected.contains_key(address) by {
        if address == slot.address@ {
            assert(after[n].address@ == address);
        } else if stores(before, address) {
            let j = slot_of(before, address);
            assert(after[j].address@ == address);
        } else if stores(after, address) {
            let j = slot_of(after, address);
            assert(before[j].address@ == address);
        }
    }
    assert forall|address: Seq<u8>| #[trigger] expected.contains_key(address) implies records_of(
        after,
    )[address] == expected[address] by {
        if address == slot.address@ {
            assert(after[n].address@ == address);
            lemma_record_at(after, n);
        } else {
            let j = slot_of(before, address);
            lemma_record_at(before, j);
            assert(after[j].address@ == address);
            lemma_record_at(after, j);
        }
    }
    assert(records_of(after) =~= expected);
    assert(deposited(after) =~= deposited(before).push(slot.deposit as int));
}

/// Replacing the record in the slot at `i` replaces the record at its
/// address.
proof fn lemma_records_set(before: Seq<Slot>, after: Seq<Slot>, i: int)
    requires
        distinct_addresses(before),
        0 <= i < before.len(),
        after.len() == before.len(),
        after[i].address@ == before[i].address@,
        after[i].deposit == before[i].deposit,
        forall|j: int| 0 <= j < before.len() && j != i ==> after[j] == before[j],
    ensures
        distinct_addresses(after),
        records_of(after) == records_of(before).insert(before[i].address@, after[i].record@),
        deposited(after) == deposited(before),
{
    assert forall|a: int, b: int| 0 <= a < b < after.len() implies (
    #[trigger] after[a]).address@ != (#[trigger] after[b]).address@ by {
        assert(before[a].address@ != before[b].address@);
    }
    let expected = records_of(before).insert(before[i].address@, after[i].record@);
    assert forall|address: Seq<u8>| #[trigger]
        records_of(after).contains_key(address) == expected.contains_key(address) by {
        if stores(before, address) {
            let j = slot_of(before, address);
            assert(after[j].address@ == address);
        } else if stores(after, address) {
            let j = slot_of(after, address);
            assert(before[j].address@ == address);
        }
    }
    assert forall|address: Seq<u8>| #[trigger] expected.contains_key(address) implies records_of(
        after,
    )[address] == expected[address] by {
        lemma_record_at(before, i);
        let j = slot_of(before, address);
        lemma_record_at(before, j);
        assert(after[j].address@ == address);
        lemma_record_at(after, j);
    }
    assert(records_of(after) =~= expected);
    assert(deposited(after) =~= deposited(before));
}

/// Taking the slot at `i` out frees its address.
proof fn lemma_records_remove(before: Seq<Slot>, i: int)
    requires
        distinct_addresses(before),
        0 <= i < before.len(),
    ensures
        distinct_addresses(before.remove(i)),
        !stores(before.remove(i), before[i].address@),
        records_of(before.remove(i)) == records_of(before).remove(before[i].address@),
        deposited(before.remove(i)) == deposited(before).remove(i),
{
    let after = before.remove(i);
    assert forall|a: int| 0 <= a < after.len() implies (#[trigger] after[a]) == before[if a < i {
        a
    } else {
        a + 1
    }] by {}
    assert forall|a: int, b: int| 0 <= a < b < after.len() implies (
    #[trigger] after[a]).address@ != (#[trigger] after[b]).address@ by {
        let a0 = if a < i { a } else { a + 1 };
        let b0 = if b < i { b } else { b + 1 };
        assert(before[a0].address@ != before[b0].address@);
    }
    assert(!stores(after, before[i].address@)) by {
        if stores(after, before[i].address@) {
            let a = slot_of(after, before[i].address@);
            let a0 = if a < i { a } else { a + 1 };
            assert(before[a0].address@ == before[i].address@);
            if a0 < i {
                assert(before[a0].address@ != before[i].address@);
            } else {
                assert(before[i].address@ != before[a0].address@);
            }
        }
    }
    let expected = records_of(before).remove(before[i].address@);
    assert forall|address: Seq<u8>| #[trigger]
        records_of(after).contains_key(address) == expected.contains_key(address) by {
        if stores(after, address) {
            let a = slot_of(after, address);
            let a0 = if a < i { a } else { a + 1 };
            assert(before[a0].address@ == address);
        } else if stores(before, address) && address != before[i].address@ {
            let j = slot_of(before, address);
            let moved = if j < i { j } else { j - 1 };
            assert(after[moved].address@ == address);
        }
    }
    assert forall|address: Seq<u8>| #[trigger] expected.contains_key(address) implies records_of(
        after,
    )[address] == expected[address] by {
        let j = slot_of(before, address);
        lemma_record_at(before, j);
        let moved = if j < i { j } else { j - 1 };
        assert(after[moved].address@ == address);
        lemma_record_at(after, moved);
    }
    assert(records_of(after) =~= expected);
    assert(deposited(after) =~= deposited(before).remove(i));
}

/// The record store: records at their addresses, and the native value that
/// the identities hold. The deposit of every live record is kept aside until
/// the record is closed, so no operation but `fund` changes the supply.
pub struct RecordStore {
    rent_per_byte: u64,
    wallets: Vec<Wallet>,
    slots: Vec<Slot>,
}

impl View for RecordStore {
    type V = StoreView;

    closed spec fn view(&self) -> StoreView {
        StoreView {
            rent_per_byte: self.rent_per_byte as nat,
            balances: balances_of(self.wallets@),
            records: records_of(self.slots@),
        }
    }
}

impl RecordStore {
    /// The store's invariant: its view is well formed, and the store's own
    /// invariant holds.
    pub open spec fn wf(&self) -> bool {
        self@.wf() && self.inv()
    }

    /// No key has two wallets and no address two slots, every deposit is
    /// the cost of its record, and the supply fits in 64 bits.
    pub closed spec fn inv(&self) -> bool {
        &&& distinct_keys(self.wallets@)
        &&& distinct_addresses(self.slots@)
        &&& forall|i: int|
            0 <= i < self.slots@.len() ==> (#[trigger] self.slots@[i]).deposit
                == self.rent_per_byte * self.slots@[i].record@.kind().spec_space()
        &&& self.supply() <= u64::MAX
    }

    /// All native value in the store: what the identities hold and what is
    /// kept aside as deposits.
    pub closed spec fn supply(&self) -> nat {
        (total(held(self.wallets@)) + total(deposited(self.slots@))) as nat
    }

    /// Nobody holds more than the supply.
    pub proof fn balance_within_supply(&self, key: Seq<u8>)
        requires
            self.wf(),
        ensures
            self@.balance(key) <= self.supply(),
    {
        lemma_total_nonnegative(held(self.wallets@));
        lemma_total_nonnegative(deposited(self.slots@));
        if holds(self.wallets@, key) {
            let i = wallet_of(self.wallets@, key);
            lemma_total_bounds(held(self.wallets@), i);
        }
    }

    /// An empty store that charges `rent_per_byte` for each byte of a record.
    pub fn new(rent_per_byte: u64) -> (store: RecordStore)
        ensures
            store.wf(),
            store@ == StoreView::empty(rent_per_byte as nat),
            store.supply() == 0,
    {
        let store = RecordStore { rent_per_byte, wallets: Vec::new(), slots: Vec::new() };
        assert(store@.balances =~= StoreView::empty(rent_per_byte as nat).balances);
        assert(store@.records =~= StoreView::empty(rent_per_byte as nat).records);
        store
    }

    fn find_wallet(&self, key: &Pubkey) -> (found: Option<usize>)
        ensures
            match found {
                Some(i) => i < self.wallets@.len() && self.wallets@[i as int].key@ == key@,
                None => !holds(self.wallets@, key@),
            },
    {
        let mut i: usize = 0;
        while i < self.wallets.len()
            invariant
                i <= self.wallets@.len(),
                forall|j: int| 0 <= j < i ==> (#[trigger] self.wallets@[j]).key@ != key@,
            decreases self.wallets@.len() - i,
        {
            if same_key(&self.wallets[i].key, key) {
                return Some(i);
            }
            i = i + 1;
        }
        None
    }

    fn find_slot(&self, address: &Pubkey) -> (found: Option<usize>)
        ensures
            match found {
                Some(i) => i < self.slots@.len() && self.slots@[i as int].address@ == address@,
                None => !stores(self.slots@, address@),
            },
    {
        let mut i: usize = 0;
        while i < self.slots.len()
            invariant
                i <= self.slots@.len(),
                forall|j: int| 0 <= j < i ==> (#[trigger] self.slots@[j]).address@ != address@,
            decreases self.slots@.len() - i,
        {
            if same_key(&self.slots[i].address, address) {
                return Some(i);
            }
            i = i + 1;
        }
        None
    }

    /// What `key` holds.
    pub fn balance(&self, key: &Pubkey) -> (lamports: u64)
        requires
            self.wf(),
        ensures
            lamports == self@.balance(key@),
    {
        match self.find_wallet(key) {
            Some(i) => {
                proof {
                    lemma_balance_at(self.wallets@, i as int);
                }
                self.wallets[i].lamports
            },
            None => 0,
        }
    }

    fn credit(&mut self, key: &Pubkey, lamports: u64)
        requires
            old(self).wf(),
            old(self).supply() + lamports <= u64::MAX,
        ensures
            final(self).wf(),
            final(self)@ == old(self)@.credit(key@, lamports as nat),
            final(self).supply() == old(self).supply() + lamports,
    {
        proof {
            lemma_total_nonnegative(held(self.wallets@));
            lemma_total_nonnegative(deposited(self.slots@));
        }
        match self.find_wallet(key) {
            Some(i) => {
                let before = self.wallets[i].lamports;
                proof {
                    lemma_balance_at(self.wallets@, i as int);
                    lemma_total_bounds(held(self.wallets@), i as int);
                    lemma_total_update(held(self.wallets@), i as int, before + lamports);
                }
                self.wallets[i].lamports = before + lamports;
                proof {
                    lemma_balances_set(old(self).wallets@, self.wallets@, i as int);
                }
            },
            None => {
                let wallet = Wallet { key: *key, lamports };
                proof {
                    lemma_balances_push(self.wallets@, wallet);
                    lemma_total_push(held(self.wallets@), lamports as int);
                }
                self.wallets.push(wallet);
            },
        }
    }

    fn debit(&mut self, key: &Pubkey, lamports: u64)
        requires
            old(self).wf(),
            old(self)@.balance(key@) >= lamports,
        ensures
            final(self).wf(),
            final(self)@ == old(self)@.debit(key@, lamports as nat),
            final(self).supply() == old(self).supply() - lamports,
    {
        proof {
            lemma_total_nonnegative(held(self.wallets@));
            lemma_total_nonnegative(deposited(self.slots@));
        }
        match self.find_wallet(key) {
            Some(i) => {
                let before = self.wallets[i].lamports;
                proof {
                    lemma_balance_at(self.wallets@, i as int);
                    lemma_total_update(held(self.wallets@), i as int, before - lamports);
                }
                self.wallets[i].lamports = before - lamports;
                proof {
                    lemma_balances_set(old(self).wallets@, self.wallets@, i as int);
                    lemma_total_nonnegative(held(self.wallets@));
                }
            },
            None => {
                assert(self@.debit(key@, lamports as nat).balances =~= self@.balances);
            },
        }
    }

    /// Adds `lamports` of new native value to what `key` holds, unless the
    /// supply would no longer fit in 64 bits; says whether it did.
    pub fn fund(&mut self, key: &Pubkey, lamports: u64) -> (funded: bool)
        requires
            old(self).wf(),
        ensures
            final(self).wf(),
            funded == (old(self).supply() + lamports <= u64::MAX),
            funded ==> final(self)@ == old(self)@.credit(key@, lamports as nat)
                && final(self).supply() == old(self).supply() + lamports,
            !funded ==> final(self)@ == old(self)@ && final(self).supply() == old(self).supply(),
    {
        let supply = self.supply_held();
        if lamports > u64::MAX - supply {
            return false;
        }
        self.credit(key, lamports);
        true
    }

    /// Moves `lamports` from `from` to `to`; fails with `InsufficientFunds`
    /// where `from` holds less.
    pub fn transfer(&mut self, from: &Pubkey, to: &Pubkey, lamports: u64) -> (res: Result<
        (),
        ErrorCode,
    >)
        requires
            old(self).wf(),
        ensures
            final(self).wf(),
            follows(
                old(self)@,
                old(self)@.transfer(from@, to@, lamports as nat),
                res,
                final(self)@,
            ),
            final(self).supply() == old(self).supply(),
    {
        if self.balance(from) < lamports {
            return Err(ErrorCode::InsufficientFunds);
        }
        self.debit(from, lamports);
        self.credit(to, lamports);
        Ok(())
    }

    /// The record that lives at `address`, if one does.
    pub fn read(&self, address: &Pubkey) -> (found: Option<&Record>)
        requires
            self.wf(),
        ensures
            record_view(found) == self@.read(address@),
    {
        match self.find_slot(address) {
            Some(i) => {
                proof {
                    lemma_record_at(self.slots@, i as int);
                }
                Some(&self.slots[i].record)
            },
            None => None,
        }
    }

    /// Creates `record` at `address` and charges its deposit to `payer`.
    /// Fails with `AddressOccupied` where a record lives at `address`, else
    /// with `InsufficientFunds` where `payer` cannot pay the deposit.
    pub fn create(&mut self, address: &Pubkey, record: Record, payer: &Pubkey) -> (res: Result<
        (),
        ErrorCode,
    >)
        requires
            old(self).wf(),
        ensures
            final(self).wf(),
            follows(
                old(self)@,
                old(self)@.create(address@, record@, payer@),
                res,
                final(self)@,
            ),
            final(self).supply() == old(self).supply(),
    {
        match self.find_slot(address) {
            Some(i) => {
                proof {
                    lemma_record_at(self.slots@, i as int);
                }
                return Err(ErrorCode::AddressOccupied);
            },
            None => {},
        }
        let funds = self.balance(payer);
        let space = record.kind().space() as u64;
        let deposit = match self.rent_per_byte.checked_mul(space) {
            Some(deposit) => deposit,
            None => {
                return Err(ErrorCode::InsufficientFunds);
            },
        };
        if funds < deposit {
            return Err(ErrorCode::InsufficientFunds);
        }
        self.debit(payer, deposit);
        let slot = Slot { address: *address, deposit, record };
        proof {
            lemma_records_push(self.slots@, slot);
            lemma_total_push(deposited(self.slots@), deposit as int);
            lemma_total_nonnegative(held(self.wallets@));
            lemma_total_nonnegative(deposited(self.slots@));
        }
        self.slots.push(slot);
        Ok(())
    }

    /// Replaces the record at `address` by `record`. Fails with
    /// `AddressNotFound` unless a record of the same shape lives there, else
    /// with `Unauthorized` unless `authorizer` owns that record and the
    /// replacement names the same owner.
    pub fn update(&mut self, address: &Pubkey, record: Record, authorizer: &Pubkey) -> (res:
        Result<(), ErrorCode>)
        requires
            old(self).wf(),
        ensures
            final(self).wf(),
            follows(
                old(self)@,
                old(self)@.update(address@, record@, authorizer@),
                res,
                final(self)@,
            ),
            final(self).supply() == old(self).supply(),
    {
        let i = match self.find_slot(address) {
            Some(i) => i,
            None => {
                return Err(ErrorCode::AddressNotFound);
            },
        };
        proof {
            lemma_record_at(self.slots@, i as int);
        }
        if self.slots[i].record.kind() != record.kind() {
            return Err(ErrorCode::AddressNotFound);
        }
        let owner = self.slots[i].record.owner();
        let named = record.owner();
        if !same_key(&owner, authorizer) || !same_key(&named, authorizer) {
            return Err(ErrorCode::Unauthorized);
        }
        self.slots[i].record = record;
        proof {
            lemma_records_set(old(self).slots@, self.slots@, i as int);
        }
        Ok(())
    }

    /// Deletes the record at `address`, hands its deposit to `beneficiary`
    /// and returns the record. Fails with `AddressNotFound` where no record
    /// lives at `address`.
    pub fn close(&mut self, address: &Pubkey, beneficiary: &Pubkey) -> (res: Result<
        Record,
        ErrorCode,
    >)
        requires
            old(self).wf(),
        ensures
            final(self).wf(),
            match old(self)@.close(address@, beneficiary@) {
                Ok(next) => res matches Ok(record) && record@ == old(self)@.records[address@]
                    && final(self)@ == next,
                Err(e) => res matches Err(x) && x == e && final(self)@ == old(self)@,
            },
            final(self).supply() == old(self).supply(),
    {
        let i = match self.find_slot(address) {
            Some(i) => i,
            None => {
                return Err(ErrorCode::AddressNotFound);
            },
        };
        proof {
            lemma_record_at(self.slots@, i as int);
            lemma_records_remove(self.slots@, i as int);
            lemma_total_nonnegative(held(self.wallets@));
            lemma_total_nonnegative(deposited(self.slots@));
            lemma_total_remove(deposited(self.slots@), i as int);
        }
        let slot = self.slots.remove(i);
        proof {
            lemma_total_nonnegative(deposited(self.slots@));
        }
        self.credit(beneficiary, slot.deposit);
        Ok(slot.record)
    }

    /// Moves `lamports` from `from` to `to`, then creates the receipt
    /// `record` at `address`, paid for by `payer`. Where the receipt cannot
    /// be written the transfer is undone: both happen, or neither does.
    pub fn transfer_then_record(
        &mut self,
        from: &Pubkey,
        to: &Pubkey,
        lamports: u64,
        address: &Pubkey,
        record: Record,
        payer: &Pubkey,
    ) -> (res: Result<(), ErrorCode>)
        requires
            old(self).wf(),
        ensures
            final(self).wf(),
            follows(
                old(self)@,
                old(self)@.transfer_then_record(
                    from@,
                    to@,
                    lamports as nat,
                    address@,
                    record@,
                    payer@,
                ),
                res,
                final(self)@,
            ),
            final(self).supply() == old(self).supply(),
    {
        match self.transfer(from, to, lamports) {
            Ok(()) => {},
            Err(e) => {
                return Err(e);
            },
        }
        match self.create(address, record, payer) {
            Ok(()) => Ok(()),
            Err(e) => {
                // The receipt could not be written: send the value back.
                let undone = self.transfer(to, from, lamports);
                proof {
                    assert(undone is Ok);
                    assert(self@.balances =~= old(self)@.balances);
                }
                Err(e)
            },
        }
    }

    fn supply_held(&self) -> (supply: u64)
        requires
            self.wf(),
        ensures
            supply == self.supply(),
    {
        proof {
            lemma_total_nonnegative(held(self.wallets@));
            lemma_total_nonnegative(deposited(self.slots@));
        }
        let mut sum: u64 = 0;
        let mut i: usize = 0;
        while i < self.wallets.len()
            invariant
                i <= self.wallets@.len(),
                sum == total(held(self.wallets@).take(i as int)),
                total(held(self.wallets@)) <= u64::MAX,
            decreases self.wallets@.len() - i,
        {
            proof {
                let all = held(self.wallets@);
                assert(all.take(i + 1).drop_last() =~= all.take(i as int));
                lemma_total_take(all, i + 1);
            }
            sum = sum + self.wallets[i].lamports;
            i = i + 1;
        }
        assert(held(self.wallets@).take(i as int) =~= held(self.wallets@));
        let mut j: usize = 0;
        let ghost base = sum as int;
        while j < self.slots.len()
            invariant
                j <= self.slots@.len(),
                base >= 0,
                sum == base + total(deposited(self.slots@).take(j as int)),
                base + total(deposited(self.slots@)) <= u64::MAX,
            decreases self.slots@.len() - j,
        {
            proof {
                let all = deposited(self.slots@);
                assert(all.take(j + 1).drop_last() =~= all.take(j as int));
                lemma_total_take(all, j + 1);
            }
            sum = sum + self.slots[j].deposit;
            j = j + 1;
        }
        assert(deposited(self.slots@).take(j as int) =~= deposited(self.slots@));
        sum
    }
}

proof fn lemma_total_take(amounts: Seq<int>, n: int)
    requires
        forall|i: int| 0 <= i < amounts.len() ==> amounts[i] >= 0,
        0 <= n <= amounts.len(),
    ensures
        total(amounts.take(n)) <= total(amounts),
    decreases amounts.len() - n,
{
    if n < amounts.len() {
        lemma_total_take(amounts, n + 1);
        assert(amounts.take(n + 1).drop_last() =~= amounts.take(n));
    } else {
        assert(amounts.take(n) =~= amounts);
    }
}

} // verus!
