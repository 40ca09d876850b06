//! Properties that relate several operations of the store, proved over the
//! model that the operations' contracts are stated in.

use vstd::prelude::*;
use crate::types::{Address, BurnRecord, Error, TokenInfo};
use crate::storage::{after_burn, burn_entry, lemma_same_addresses, same_addresses, StoreView};

verus! {

/// The sum of the amounts of the ledger records of address `a`.
pub open spec fn amount_logged(burns: Seq<BurnRecord>, a: Seq<char>) -> int
    decreases burns.len(),
{
    if burns.len() == 0 {
        0
    } else {
        amount_logged(burns.drop_last(), a) + if burns.last().token_address@ == a {
            burns.last().amount as int
        } else {
            0
        }
    }
}

/// The number of ledger records of address `a`.
pub open spec fn records_logged(burns: Seq<BurnRecord>, a: Seq<char>) -> int
    decreases burns.len(),
{
    if burns.len() == 0 {
        0
    } else {
        records_logged(burns.drop_last(), a) + if burns.last().token_address@ == a {
            1int
        } else {
            0
        }
    }
}

/// Every token's burn counters agree with the ledger.
pub open spec fn reconciled(v: StoreView) -> bool {
    forall|i: int|
        0 <= i < v.tokens.len() ==> {
            &&& (#[trigger] v.tokens[i]).total_burned == amount_logged(v.burns, v.tokens[i].address@)
            &&& v.tokens[i].burn_count == records_logged(v.burns, v.tokens[i].address@)
        }
}

/// Every token's supply is its initial supply less what was burned of it.
pub open spec fn supply_reconciled(v: StoreView) -> bool {
    forall|i: int|
        0 <= i < v.tokens.len() ==> (#[trigger] v.tokens[i]).total_supply == v.tokens[i].initial_supply
            - v.tokens[i].total_burned
}

/// The store after the records `recs` were appended to its ledger, in order.
pub open spec fn appended_all(v: StoreView, recs: Seq<BurnRecord>) -> StoreView
    decreases recs.len(),
{
    if recs.len() == 0 {
        v
    } else {
        appended_all(v, recs.drop_last()).with_record(recs.last())
    }
}

/// An accepted burn leaves the registry's addresses where they were.
proof fn lemma_burn_keeps_slots(v: StoreView, a: Seq<char>, amount: i128, r: BurnRecord)
    requires
        v.wf(),
        v.burn_failure(a, amount) is None,
    ensures
        ({
            let w = v.counted(a, amount).with_record(r);
            &&& w.wf()
            &&& w.has_token(a)
            &&& w.slot_of(a) == v.slot_of(a)
            &&& forall|b: Seq<char>| #[trigger] w.has_token(b) == v.has_token(b)
            &&& forall|b: Seq<char>| v.has_token(b) ==> #[trigger] w.slot_of(b) == v.slot_of(b)
        }),
{
    let w = v.counted(a, amount).with_record(r);
    assert(same_addresses(v.tokens, w.tokens));
    lemma_same_addresses(v, w);
}

/// Each accepted burn adds its amount to its token's total burned and one to
/// its token's burn count, and leaves every other token's counters alone.
pub proof fn lemma_burn_totals(
    v: StoreView,
    token_address: Address,
    amount: i128,
    burned_by: Address,
    from: Address,
    is_admin_burn: bool,
    timestamp: u64,
)
    requires
        v.wf(),
        v.burn_failure(token_address@, amount) is None,
    ensures
        ({
            let w = after_burn(v, token_address, amount, burned_by, from, is_admin_burn, timestamp);
            &&& w.burned_of(token_address@) == v.burned_of(token_address@) + amount
            &&& w.burns_of(token_address@) == v.burns_of(token_address@) + 1
            &&& forall|b: Seq<char>|
                b != token_address@ ==> #[trigger] w.burned_of(b) == v.burned_of(b)
                    && w.burns_of(b) == v.burns_of(b)
        }),
{
    let a = token_address@;
    let r = burn_entry(token_address, amount, burned_by, from, is_admin_burn, timestamp);
    let w = after_burn(v, token_address, amount, burned_by, from, is_admin_burn, timestamp);
    lemma_burn_keeps_slots(v, a, amount, r);
    assert forall|b: Seq<char>| b != a implies #[trigger] w.burned_of(b) == v.burned_of(b)
        && w.burns_of(b) == v.burns_of(b) by {
        if v.has_token(b) {
            let k = v.slot_of(b);
            assert(v.tokens[k].address@ == b);
            assert(k != v.slot_of(a));
        }
    }
}

/// Where every token's counters agree with the ledger, they still agree after
/// an accepted burn: a token's total burned is the sum of the amounts of its
/// burns, and its burn count the number of them.
pub proof fn lemma_record_burn_reconciles(
    v: StoreView,
    token_address: Address,
    amount: i128,
    burned_by: Address,
    from: Address,
    is_admin_burn: bool,
    timestamp: u64,
)
    requires
        v.wf(),
        reconciled(v),
        v.burn_failure(token_address@, amount) is None,
    ensures
        reconciled(after_burn(v, token_address, amount, burned_by, from, is_admin_burn, timestamp)),
{
    let a = token_address@;
    let r = burn_entry(token_address, amount, burned_by, from, is_admin_burn, timestamp);
    let w = after_burn(v, token_address, amount, burned_by, from, is_admin_burn, timestamp);
    lemma_burn_keeps_slots(v, a, amount, r);
    assert(w.burns.drop_last() =~= v.burns);
    let s = v.slot_of(a);
    assert forall|i: int| 0 <= i < w.tokens.len() implies {
        &&& (#[trigger] w.tokens[i]).total_burned == amount_logged(w.burns, w.tokens[i].address@)
        &&& w.tokens[i].burn_count == records_logged(w.burns, w.tokens[i].address@)
    } by {
        let b = w.tokens[i].address@;
        assert(b == v.tokens[i].address@);
        assert(amount_logged(w.burns, b) == amount_logged(v.burns, b) + if b == a { amount as int } else { 0 });
        assert(records_logged(w.burns, b) == records_logged(v.burns, b) + if b == a { 1int } else { 0 });
        if i != s {
            assert(v.tokens[s].address@ == a);
        }
    }
}

/// Where every token's supply is its initial supply less its burns, that
/// still holds after an accepted burn followed by taking the same amount from
/// the token's supply.
pub proof fn lemma_burn_and_supply_reconcile(
    v: StoreView,
    token_address: Address,
    amount: i128,
    burned_by: Address,
    from: Address,
    is_admin_burn: bool,
    timestamp: u64,
)
    requires
        v.wf(),
        supply_reconciled(v),
        v.burn_failure(token_address@, amount) is None,
        after_burn(v, token_address, amount, burned_by, from, is_admin_burn, timestamp).supply_failure(
            token_address@,
            amount,
        ) is None,
    ensures
        supply_reconciled(
            after_burn(v, token_address, amount, burned_by, from, is_admin_burn, timestamp).supplied(
                token_address@,
                amount,
            ),
        ),
{
    let a = token_address@;
    let r = burn_entry(token_address, amount, burned_by, from, is_admin_burn, timestamp);
    let w = after_burn(v, token_address, amount, burned_by, from, is_admin_burn, timestamp);
    lemma_burn_keeps_slots(v, a, amount, r);
    let x = w.supplied(a, amount);
    let s = v.slot_of(a);
    assert forall|i: int| 0 <= i < x.tokens.len() implies (#[trigger] x.tokens[i]).total_supply
        == x.tokens[i].initial_supply - x.tokens[i].total_burned by {
        if i != s {
            assert(x.tokens[i] == v.tokens[i]);
        }
    }
}

/// Taking more than a token's supply fails with `SupplyUnderflow`.
pub proof fn lemma_supply_underflow(v: StoreView, token_address: Address, delta: i128)
    requires
        v.has_token(token_address@),
        delta > v.tokens[v.slot_of(token_address@)].total_supply,
    ensures
        v.supply_failure(token_address@, delta) == Some(Error::SupplyUnderflow),
{
}

/// The global burn count grows by exactly the number of appended records, and
/// the ledger ends with them, in order.
pub proof fn lemma_appends_counted(v: StoreView, recs: Seq<BurnRecord>)
    ensures
        appended_all(v, recs).global_count() == v.global_count() + recs.len(),
        appended_all(v, recs).burns == v.burns + recs,
        appended_all(v, recs).tokens == v.tokens,
    decreases recs.len(),
{
    if recs.len() > 0 {
        lemma_appends_counted(v, recs.drop_last());
        assert(v.burns + recs =~= (v.burns + recs.drop_last()).push(recs.last()));
    } else {
        assert(v.burns + recs =~= v.burns);
    }
}

/// A token written back at a slot is the token then read at that slot.
pub proof fn lemma_token_round_trip(v: StoreView, index: u32, t: TokenInfo)
    requires
        v.write_failure(index as int, t) is None,
    ensures
        index < v.with_token(index as int, t).tokens.len(),
        v.with_token(index as int, t).tokens[index as int] == t,
{
}

/// A registered token is the token then read at the slot it was given.
pub proof fn lemma_register_round_trip(v: StoreView, t: TokenInfo)
    ensures
        v.tokens.len() < v.with_new_token(t).tokens.len(),
        v.with_new_token(t).tokens[v.tokens.len() as int] == t,
{
}

/// An appended burn record is the record then read at the index that the
/// global count gave before the append.
pub proof fn lemma_record_round_trip(v: StoreView, r: BurnRecord)
    ensures
        v.global_count() < v.with_record(r).burns.len(),
        v.with_record(r).burns[v.global_count() as int] == r,
{
}

} // verus!
