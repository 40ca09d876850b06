use vstd::prelude::*;
use crate::types::{Address, BurnRecord, Error, FactoryState, TokenInfo};

verus! {

/// The largest number of slots that a `u32` counter can number.
pub const SLOT_LIMIT: u64 = 4294967295;

/// What the store holds, as a mathematical value.
pub struct StoreView {
    pub admin: Option<Address>,
    pub treasury: Option<Address>,
    pub base_fee: Option<i128>,
    pub metadata_fee: Option<i128>,
    /// The registry: the token at each slot.
    pub tokens: Seq<TokenInfo>,
    /// The ledger: the burn record at each index.
    pub burns: Seq<BurnRecord>,
}

/// `t` after one burn of `amount`.
pub open spec fn burned(t: TokenInfo, amount: i128) -> TokenInfo {
    TokenInfo {
        address: t.address,
        creator: t.creator,
        name: t.name,
        symbol: t.symbol,
        decimals: t.decimals,
        total_supply: t.total_supply,
        initial_supply: t.initial_supply,
        total_burned: (t.total_burned + amount) as i128,
        burn_count: (t.burn_count + 1) as u32,
        metadata_uri: t.metadata_uri,
        created_at: t.created_at,
    }
}

/// `t` with `delta` taken from its supply.
pub open spec fn supply_reduced(t: TokenInfo, delta: i128) -> TokenInfo {
    TokenInfo {
        address: t.address,
        creator: t.creator,
        name: t.name,
        symbol: t.symbol,
        decimals: t.decimals,
        total_supply: (t.total_supply - delta) as i128,
        initial_supply: t.initial_supply,
        total_burned: t.total_burned,
        burn_count: t.burn_count,
        metadata_uri: t.metadata_uri,
        created_at: t.created_at,
    }
}

/// The ledger entry that a burn writes.
pub open spec fn burn_entry(
    token_address: Address,
    amount: i128,
    burned_by: Address,
    from: Address,
    is_admin_burn: bool,
    timestamp: u64,
) -> BurnRecord {
    BurnRecord { token_address, from, amount, burned_by, timestamp, is_admin_burn }
}

/// No two slots hold the same address.
pub open spec fn addresses_unique(tokens: Seq<TokenInfo>) -> bool {
    forall|i: int, j: int|
        0 <= i < tokens.len() && 0 <= j < tokens.len() && i != j
            ==> (#[trigger] tokens[i]).address@ != (#[trigger] tokens[j]).address@
}

/// Both sequences hold the same addresses, slot by slot.
pub open spec fn same_addresses(s: Seq<TokenInfo>, t: Seq<TokenInfo>) -> bool {
    &&& s.len() == t.len()
    &&& forall|i: int| 0 <= i < s.len() ==> (#[trigger] s[i]).address@ == t[i].address@
}

/// The store after a burn that [`record_burn`] accepted.
pub open spec fn after_burn(
    v: StoreView,
    token_address: Address,
    amount: i128,
    burned_by: Address,
    from: Address,
    is_admin_burn: bool,
    timestamp: u64,
) -> StoreView {
    v.counted(token_address@, amount).with_record(
        burn_entry(token_address, amount, burned_by, from, is_admin_burn, timestamp),
    )
}

impl StoreView {
    /// Both counters fit in a `u32`, and no two slots hold the same address.
    pub open spec fn wf(self) -> bool {
        &&& self.tokens.len() <= SLOT_LIMIT
        &&& self.burns.len() <= SLOT_LIMIT
        &&& addresses_unique(self.tokens)
    }

    /// Some slot holds a token with address `a`.
    pub open spec fn has_token(self, a: Seq<char>) -> bool {
        exists|i: int| 0 <= i < self.tokens.len() && (#[trigger] self.tokens[i]).address@ == a
    }

    /// The slot that holds address `a`, where there is one.
    pub open spec fn slot_of(self, a: Seq<char>) -> int {
        choose|i: int| 0 <= i < self.tokens.len() && (#[trigger] self.tokens[i]).address@ == a
    }

    /// The token with address `a`, if one is registered.
    pub open spec fn token_of(self, a: Seq<char>) -> Option<TokenInfo> {
        if self.has_token(a) {
            Some(self.tokens[self.slot_of(a)])
        } else {
            None
        }
    }

    /// The amount burned of token `a`; 0 for an unknown token.
    pub open spec fn burned_of(self, a: Seq<char>) -> i128 {
        match self.token_of(a) {
            Some(t) => t.total_burned,
            None => 0,
        }
    }

    /// The number of burns of token `a`; 0 for an unknown token.
    pub open spec fn burns_of(self, a: Seq<char>) -> u32 {
        match self.token_of(a) {
            Some(t) => t.burn_count,
            None => 0,
        }
    }

    /// The number of burn events in the ledger.
    pub open spec fn global_count(self) -> nat {
        self.burns.len()
    }

    /// The store with slot `i` holding `t`.
    pub open spec fn with_token(self, i: int, t: TokenInfo) -> StoreView {
        StoreView {
            admin: self.admin,
            treasury: self.treasury,
            base_fee: self.base_fee,
            metadata_fee: self.metadata_fee,
            tokens: self.tokens.update(i, t),
            burns: self.burns,
        }
    }

    /// The store with its configuration replaced.
    pub open spec fn with_config(
        self,
        admin: Option<Address>,
        treasury: Option<Address>,
        base_fee: Option<i128>,
        metadata_fee: Option<i128>,
    ) -> StoreView {
        StoreView {
            admin,
            treasury,
            base_fee,
            metadata_fee,
            tokens: self.tokens,
            burns: self.burns,
        }
    }

    /// The store with `t` appended to the registry.
    pub open spec fn with_new_token(self, t: TokenInfo) -> StoreView {
        StoreView {
            admin: self.admin,
            treasury: self.treasury,
            base_fee: self.base_fee,
            metadata_fee: self.metadata_fee,
            tokens: self.tokens.push(t),
            burns: self.burns,
        }
    }

    /// The store with `r` appended to the ledger.
    pub open spec fn with_record(self, r: BurnRecord) -> StoreView {
        StoreView {
            admin: self.admin,
            treasury: self.treasury,
            base_fee: self.base_fee,
            metadata_fee: self.metadata_fee,
            tokens: self.tokens,
            burns: self.burns.push(r),
        }
    }

    /// Why the counters of token `a` cannot take a burn of `amount`, if they can't.
    pub open spec fn count_failure(self, a: Seq<char>, amount: i128) -> Option<Error> {
        if !self.has_token(a) {
            Some(Error::TokenNotFound)
        } else if amount <= 0 {
            Some(Error::InvalidParameters)
        } else if self.tokens[self.slot_of(a)].total_burned + amount > i128::MAX
            || self.tokens[self.slot_of(a)].burn_count == u32::MAX {
            Some(Error::Overflow)
        } else {
            None
        }
    }

    /// Why a burn of `amount` of token `a` cannot be recorded, if it can't.
    pub open spec fn burn_failure(self, a: Seq<char>, amount: i128) -> Option<Error> {
        if self.burns.len() >= SLOT_LIMIT {
            Some(Error::Overflow)
        } else {
            self.count_failure(a, amount)
        }
    }

    /// Why token `t` cannot be registered, if it can't.
    pub open spec fn register_failure(self, t: TokenInfo) -> Option<Error> {
        if self.has_token(t.address@) {
            Some(Error::DuplicateToken)
        } else if self.tokens.len() >= SLOT_LIMIT {
            Some(Error::Overflow)
        } else {
            None
        }
    }

    /// Why `t` cannot be written back at slot `i`, if it can't.
    pub open spec fn write_failure(self, i: int, t: TokenInfo) -> Option<Error> {
        if i >= self.tokens.len() {
            Some(Error::TokenNotFound)
        } else if t.address@ != self.tokens[i].address@ {
            Some(Error::InvalidParameters)
        } else {
            None
        }
    }

    /// The store after the counters of token `a` take a burn of `amount`.
    pub open spec fn counted(self, a: Seq<char>, amount: i128) -> StoreView {
        self.with_token(self.slot_of(a), burned(self.tokens[self.slot_of(a)], amount))
    }

    /// Why `delta` cannot be taken from the supply of token `a`, if it can't.
    pub open spec fn supply_failure(self, a: Seq<char>, delta: i128) -> Option<Error> {
        if !self.has_token(a) {
            Some(Error::TokenNotFound)
        } else if delta > self.tokens[self.slot_of(a)].total_supply {
            Some(Error::SupplyUnderflow)
        } else if self.tokens[self.slot_of(a)].total_supply - delta > i128::MAX {
            Some(Error::Overflow)
        } else {
            None
        }
    }

    /// The store after `delta` is taken from the supply of token `a`.
    pub open spec fn supplied(self, a: Seq<char>, delta: i128) -> StoreView {
        self.with_token(self.slot_of(a), supply_reduced(self.tokens[self.slot_of(a)], delta))
    }
}

/// Where two registries hold the same addresses slot by slot, they find the
/// same tokens at the same slots.
pub proof fn lemma_same_addresses(v: StoreView, w: StoreView)
    requires
        addresses_unique(v.tokens),
        same_addresses(v.tokens, w.tokens),
    ensures
        addresses_unique(w.tokens),
        forall|a: Seq<char>| #[trigger] w.has_token(a) == v.has_token(a),
        forall|a: Seq<char>| v.has_token(a) ==> #[trigger] w.slot_of(a) == v.slot_of(a),
{
    assert forall|i: int, j: int|
        0 <= i < w.tokens.len() && 0 <= j < w.tokens.len() && i != j
        implies (#[trigger] w.tokens[i]).address@ != (#[trigger] w.tokens[j]).address@ by {
        assert(v.tokens[i].address@ != v.tokens[j].address@);
    }
    assert forall|a: Seq<char>| v.has_token(a) implies w.has_token(a) && w.slot_of(a) == v.slot_of(a) by {
        let k = v.slot_of(a);
        assert(w.tokens[k].address@ == a);
        let m = w.slot_of(a);
        assert(v.tokens[m].address@ == a);
    }
    assert forall|a: Seq<char>| w.has_token(a) implies v.has_token(a) by {
        let m = w.slot_of(a);
        assert(v.tokens[m].address@ == a);
    }
}

/// The persistent state of the token factory: configuration, registry and ledger.
pub struct FactoryStore {
    admin: Option<Address>,
    treasury: Option<Address>,
    base_fee: Option<i128>,
    metadata_fee: Option<i128>,
    tokens: Vec<TokenInfo>,
    burns: Vec<BurnRecord>,
}

impl View for FactoryStore {
    type V = StoreView;

    closed spec fn view(&self) -> StoreView {
        StoreView {
            admin: self.admin,
            treasury: self.treasury,
            base_fee: self.base_fee,
            metadata_fee: self.metadata_fee,
            tokens: self.tokens@,
            burns: self.burns@,
        }
    }
}

impl FactoryStore {
    pub open spec fn wf(&self) -> bool {
        self@.wf()
    }

    /// An empty store: nothing configured, no tokens, no burns.
    pub fn new() -> (r: FactoryStore)
        ensures
            r.wf(),
            r@.admin is None,
            r@.treasury is None,
            r@.base_fee is None,
            r@.metadata_fee is None,
            r@.tokens.len() == 0,
            r@.burns.len() == 0,
    {
        FactoryStore {
            admin: None,
            treasury: None,
            base_fee: None,
            metadata_fee: None,
            tokens: Vec::new(),
            burns: Vec::new(),
        }
    }
}

/// The administrator; the store must have one.
pub fn get_admin(store: &FactoryStore) -> (r: Address)
    requires
        store@.admin is Some,
    ensures
        store@.admin == Some(r),
{
    store.admin.as_ref().unwrap().duplicate()
}

/// Sets the administrator.
pub fn set_admin(store: &mut FactoryStore, admin: &Address)
    ensures
        final(store)@ == old(store)@.with_config(
            Some(*admin),
            old(store)@.treasury,
            old(store)@.base_fee,
            old(store)@.metadata_fee,
        ),
{
    store.admin = Some(admin.duplicate());
}

/// Whether an administrator has been set.
pub fn has_admin(store: &FactoryStore) -> (r: bool)
    ensures
        r == store@.admin is Some,
{
    store.admin.is_some()
}

/// The treasury; the store must have one.
pub fn get_treasury(store: &FactoryStore) -> (r: Address)
    requires
        store@.treasury is Some,
    ensures
        store@.treasury == Some(r),
{
    store.treasury.as_ref().unwrap().duplicate()
}

/// Sets the treasury.
pub fn set_treasury(store: &mut FactoryStore, treasury: &Address)
    ensures
        final(store)@ == old(store)@.with_config(
            old(store)@.admin,
            Some(*treasury),
            old(store)@.base_fee,
            old(store)@.metadata_fee,
        ),
{
    store.treasury = Some(treasury.duplicate());
}

/// The base fee; the store must have one.
pub fn get_base_fee(store: &FactoryStore) -> (r: i128)
    requires
        store@.base_fee is Some,
    ensures
        store@.base_fee == Some(r),
{
    store.base_fee.unwrap()
}

/// Sets the base fee.
pub fn set_base_fee(store: &mut FactoryStore, fee: i128)
    ensures
        final(store)@ == old(store)@.with_config(
            old(store)@.admin,
            old(store)@.treasury,
            Some(fee),
            old(store)@.metadata_fee,
        ),
{
    store.base_fee = Some(fee);
}

/// The metadata fee; the store must have one.
pub fn get_metadata_fee(store: &FactoryStore) -> (r: i128)
    requires
        store@.metadata_fee is Some,
    ensures
        store@.metadata_fee == Some(r),
{
    store.metadata_fee.unwrap()
}

/// Sets the metadata fee.
pub fn set_metadata_fee(store: &mut FactoryStore, fee: i128)
    ensures
        final(store)@ == old(store)@.with_config(
            old(store)@.admin,
            old(store)@.treasury,
            old(store)@.base_fee,
            Some(fee),
        ),
{
    store.metadata_fee = Some(fee);
}

/// The whole configuration; every part of it must be set.
pub fn get_factory_state(store: &FactoryStore) -> (r: FactoryState)
    requires
        store@.admin is Some,
        store@.treasury is Some,
        store@.base_fee is Some,
        store@.metadata_fee is Some,
    ensures
        store@.admin == Some(r.admin),
        store@.treasury == Some(r.treasury),
        store@.base_fee == Some(r.base_fee),
        store@.metadata_fee == Some(r.metadata_fee),
{
    FactoryState {
        admin: get_admin(store),
        treasury: get_treasury(store),
        base_fee: get_base_fee(store),
        metadata_fee: get_metadata_fee(store),
    }
}

/// The slot that holds `token_address`, found by scanning the slots in order.
pub fn get_token_index(store: &FactoryStore, token_address: &Address) -> (r: Option<u32>)
    requires
        store.wf(),
    ensures
        r is Some <==> store@.has_token(token_address@),
        r matches Some(i) ==> i == store@.slot_of(token_address@),
{
    let n = store.tokens.len();
    let mut i: usize = 0;
    while i < n
        invariant
            store.wf(),
            n == store.tokens@.len(),
            i <= n,
            forall|j: int| 0 <= j < i ==> (#[trigger] store.tokens@[j]).address@ != token_address@,
        decreases n - i,
    {
        if store.tokens[i].address.same_as(token_address) {
            proof {
                let v = store@;
                assert(v.tokens[i as int].address@ == token_address@);
                let k = v.slot_of(token_address@);
                assert(v.tokens[k].address@ == token_address@);
                assert(k == i as int);
            }
            return Some(i as u32);
        }
        i += 1;
    }
    None
}

/// The token registered under `token_address`, found by scanning the slots in order.
pub fn get_token_info_by_address(store: &FactoryStore, token_address: &Address) -> (r: Option<TokenInfo>)
    requires
        store.wf(),
    ensures
        r == store@.token_of(token_address@),
{
    match get_token_index(store, token_address) {
        Some(i) => Some(store.tokens[i as usize].duplicate()),
        None => None,
    }
}

/// The number of registered tokens.
pub fn get_token_count(store: &FactoryStore) -> (r: u32)
    requires
        store.wf(),
    ensures
        r == store@.tokens.len(),
{
    store.tokens.len() as u32
}

/// The token at slot `index`, if that slot has been written.
pub fn get_token_info(store: &FactoryStore, index: u32) -> (r: Option<TokenInfo>)
    requires
        store.wf(),
    ensures
        r == (if index < store@.tokens.len() { Some(store@.tokens[index as int]) } else { None }),
{
    if (index as usize) < store.tokens.len() {
        Some(store.tokens[index as usize].duplicate())
    } else {
        None
    }
}

/// Appends `info` at the next free slot and returns that slot.
///
/// Fails with `DuplicateToken` where its address is already registered, and
/// with `Overflow` where every slot that a `u32` numbers is taken.
pub fn register_token(store: &mut FactoryStore, info: TokenInfo) -> (r: Result<u32, Error>)
    requires
        old(store).wf(),
    ensures
        final(store).wf(),
        r matches Err(e) ==> old(store)@.register_failure(info) == Some(e) && final(store)@ == old(store)@,
        r matches Ok(i) ==> old(store)@.register_failure(info) is None && i == old(store)@.tokens.len()
            && final(store)@ == old(store)@.with_new_token(info),
{
    if get_token_index(store, &info.address).is_some() {
        return Err(Error::DuplicateToken);
    }
    if store.tokens.len() as u64 >= SLOT_LIMIT {
        return Err(Error::Overflow);
    }
    let slot = store.tokens.len() as u32;
    proof {
        let v = store@;
        assert forall|j: int| 0 <= j < v.tokens.len() implies (#[trigger] v.tokens[j]).address@ != info.address@ by {
            if v.tokens[j].address@ == info.address@ {
                assert(v.has_token(info.address@));
            }
        }
    }
    store.tokens.push(info);
    proof {
        let w = store@;
        assert forall|i: int, j: int|
            0 <= i < w.tokens.len() && 0 <= j < w.tokens.len() && i != j
            implies (#[trigger] w.tokens[i]).address@ != (#[trigger] w.tokens[j]).address@ by {
            let v = old(store)@;
            if i < v.tokens.len() && j < v.tokens.len() {
                assert(v.tokens[i] == w.tokens[i] && v.tokens[j] == w.tokens[j]);
            } else if i < v.tokens.len() {
                assert(v.tokens[i] == w.tokens[i]);
            } else {
                assert(v.tokens[j] == w.tokens[j]);
            }
        }
    }
    Ok(slot)
}

/// Overwrites the token at slot `index` with `info`, which must keep its address.
///
/// Fails with `TokenNotFound` where the slot was never written, and with
/// `InvalidParameters` where `info` names another address.
pub fn set_token_info(store: &mut FactoryStore, index: u32, info: TokenInfo) -> (r: Result<(), Error>)
    requires
        old(store).wf(),
    ensures
        final(store).wf(),
        r matches Err(e) ==> old(store)@.write_failure(index as int, info) == Some(e) && final(store)@ == old(store)@,
        r is Ok ==> old(store)@.write_failure(index as int, info) is None
            && final(store)@ == old(store)@.with_token(index as int, info),
{
    let i = index as usize;
    if i >= store.tokens.len() {
        return Err(Error::TokenNotFound);
    }
    if !store.tokens[i].address.same_as(&info.address) {
        return Err(Error::InvalidParameters);
    }
    store.tokens.set(i, info);
    proof {
        lemma_same_addresses(old(store)@, store@);
    }
    Ok(())
}

/// The amount burned of `token_address`; 0 where no such token is registered.
pub fn get_total_burned(store: &FactoryStore, token_address: &Address) -> (r: i128)
    requires
        store.wf(),
    ensures
        r == store@.burned_of(token_address@),
{
    match get_token_info_by_address(store, token_address) {
        Some(token_info) => token_info.total_burned,
        None => 0,
    }
}

/// The number of burns of `token_address`; 0 where no such token is registered.
pub fn get_burn_count(store: &FactoryStore, token_address: &Address) -> (r: u32)
    requires
        store.wf(),
    ensures
        r == store@.burns_of(token_address@),
{
    match get_token_info_by_address(store, token_address) {
        Some(token_info) => token_info.burn_count,
        None => 0,
    }
}

/// The number of burns recorded over all tokens.
pub fn get_global_burn_count(store: &FactoryStore) -> (r: u32)
    requires
        store.wf(),
    ensures
        r == store@.global_count(),
{
    store.burns.len() as u32
}

/// Adds one burn of `amount` to the counters of the token `token_address`.
///
/// The ledger is left alone: the global count is the ledger's length, and
/// [`record_burn`] is the operation that both counts and logs a burn.
pub fn increment_burn_count(store: &mut FactoryStore, token_address: &Address, amount: i128) -> (r: Result<(), Error>)
    requires
        old(store).wf(),
    ensures
        final(store).wf(),
        r matches Err(e) ==> old(store)@.count_failure(token_address@, amount) == Some(e)
            && final(store)@ == old(store)@,
        r is Ok ==> old(store)@.count_failure(token_address@, amount) is None
            && final(store)@ == old(store)@.counted(token_address@, amount),
{
    let index = match get_token_index(store, token_address) {
        Some(idx) => idx as usize,
        None => {
            return Err(Error::TokenNotFound);
        },
    };
    if amount <= 0 {
        return Err(Error::InvalidParameters);
    }
    let mut token_info = store.tokens[index].duplicate();
    if token_info.burn_count == u32::MAX {
        return Err(Error::Overflow);
    }
    match token_info.total_burned.checked_add(amount) {
        Some(total) => {
            token_info.total_burned = total;
        },
        None => {
            return Err(Error::Overflow);
        },
    }
    token_info.burn_count = token_info.burn_count + 1;
    store.tokens.set(index, token_info);
    proof {
        lemma_same_addresses(old(store)@, store@);
        assert(store@ =~= old(store)@.counted(token_address@, amount));
    }
    Ok(())
}

/// Appends `record` to the ledger, at the index that the global count gives.
///
/// Fails with `Overflow`, and changes nothing, where the ledger is full.
pub fn add_burn_record(store: &mut FactoryStore, record: &BurnRecord) -> (r: Result<(), Error>)
    requires
        old(store).wf(),
    ensures
        final(store).wf(),
        r is Err <==> old(store)@.burns.len() >= SLOT_LIMIT,
        r is Err ==> r == Err::<(), Error>(Error::Overflow) && final(store)@ == old(store)@,
        r is Ok ==> final(store)@ == old(store)@.with_record(*record),
{
    if store.burns.len() as u64 >= SLOT_LIMIT {
        return Err(Error::Overflow);
    }
    store.burns.push(record.duplicate());
    proof {
        assert(store@ =~= old(store)@.with_record(*record));
    }
    Ok(())
}

/// The burn record at `index`, if one was appended there.
pub fn get_burn_record(store: &FactoryStore, index: u32) -> (r: Option<BurnRecord>)
    requires
        store.wf(),
    ensures
        r == (if index < store@.burns.len() { Some(store@.burns[index as int]) } else { None }),
{
    if (index as usize) < store.burns.len() {
        Some(store.burns[index as usize].duplicate())
    } else {
        None
    }
}

/// The number of records in the ledger, which is the global burn count.
pub fn get_burn_record_count(store: &FactoryStore) -> (r: u32)
    requires
        store.wf(),
    ensures
        r == store@.burns.len(),
        r == store@.global_count(),
{
    get_global_burn_count(store)
}

/// Records one burn as a single unit: the token's counters take it and the
/// ledger gains its record, or nothing changes.
///
/// Fails with `Overflow` where the ledger is full, `TokenNotFound` where no
/// token has that address, `InvalidParameters` where `amount` is not positive,
/// and `Overflow` where the token's counters would leave their range.
pub fn record_burn(
    store: &mut FactoryStore,
    token_address: &Address,
    amount: i128,
    burned_by: &Address,
    from: &Address,
    is_admin_burn: bool,
    timestamp: u64,
) -> (r: Result<(), Error>)
    requires
        old(store).wf(),
    ensures
        final(store).wf(),
        r matches Err(e) ==> old(store)@.burn_failure(token_address@, amount) == Some(e)
            && final(store)@ == old(store)@,
        r is Ok ==> old(store)@.burn_failure(token_address@, amount) is None
            && final(store)@ == after_burn(
            old(store)@,
            *token_address,
            amount,
            *burned_by,
            *from,
            is_admin_burn,
            timestamp,
        ),
{
    if store.burns.len() as u64 >= SLOT_LIMIT {
        return Err(Error::Overflow);
    }
    match increment_burn_count(store, token_address, amount) {
        Ok(()) => {},
        Err(e) => {
            return Err(e);
        },
    }
    let record = BurnRecord {
        token_address: token_address.duplicate(),
        from: from.duplicate(),
        amount,
        burned_by: burned_by.duplicate(),
        timestamp,
        is_admin_burn,
    };
    let appended = add_burn_record(store, &record);
    assert(appended is Ok);
    Ok(())
}

/// Takes `delta` from the supply of the token `token_address`.
///
/// Fails, changing nothing, with `TokenNotFound` where no token has that
/// address, `SupplyUnderflow` where `delta` exceeds the supply, and
/// `Overflow` where the new supply would pass the largest `i128`.
pub fn update_token_supply(store: &mut FactoryStore, token_address: &Address, delta: i128) -> (r: Result<(), Error>)
    requires
        old(store).wf(),
    ensures
        final(store).wf(),
        r matches Err(e) ==> old(store)@.supply_failure(token_address@, delta) == Some(e)
            && final(store)@ == old(store)@,
        r is Ok ==> old(store)@.supply_failure(token_address@, delta) is None
            && final(store)@ == old(store)@.supplied(token_address@, delta),
{
    let index = match get_token_index(store, token_address) {
        Some(idx) => idx as usize,
        None => {
            return Err(Error::TokenNotFound);
        },
    };
    let mut token_info = store.tokens[index].duplicate();
    if delta > token_info.total_supply {
        return Err(Error::SupplyUnderflow);
    }
    match token_info.total_supply.checked_sub(delta) {
        Some(supply) => {
            token_info.total_supply = supply;
        },
        None => {
            return Err(Error::Overflow);
        },
    }
    store.tokens.set(index, token_info);
    proof {
        lemma_same_addresses(old(store)@, store@);
        assert(store@ =~= old(store)@.supplied(token_address@, delta));
    }
    Ok(())
}

} // verus!
