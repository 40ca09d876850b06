use token_factory::storage::{
    add_burn_record, get_admin, get_base_fee, get_burn_count, get_burn_record,
    get_burn_record_count, get_factory_state, get_global_burn_count, get_metadata_fee,
    get_token_count, get_token_index, get_token_info, get_token_info_by_address, get_total_burned,
    get_treasury, has_admin, increment_burn_count, record_burn, register_token, set_admin,
    set_base_fee, set_metadata_fee, set_token_info, set_treasury, update_token_supply,
    FactoryStore,
};
use token_factory::types::{Address, BurnRecord, Error, TokenInfo};

fn addr(key: &str) -> Address {
    Address::new(String::from(key))
}

fn token(key: &str, supply: i128) -> TokenInfo {
    TokenInfo {
        address: addr(key),
        creator: addr("GCREATOR"),
        name: String::from("Token ") + key,
        symbol: String::from(key),
        decimals: 7,
        total_supply: supply,
        initial_supply: supply,
        total_burned: 0,
        burn_count: 0,
        metadata_uri: None,
        created_at: 1_700_000_000,
    }
}

fn burn(store: &mut FactoryStore, key: &str, amount: i128) -> Result<(), Error> {
    record_burn(store, &addr(key), amount, &addr("GBURNER"), &addr("GHOLDER"), false, 42)
}

fn three_tokens() -> FactoryStore {
    let mut store = FactoryStore::new();
    assert_eq!(register_token(&mut store, token("CA", 1000)), Ok(0));
    assert_eq!(register_token(&mut store, token("CB", 500)), Ok(1));
    assert_eq!(register_token(&mut store, token("CC", 200)), Ok(2));
    store
}

#[test]
fn burns_across_three_tokens() {
    let mut store = three_tokens();
    assert_eq!(burn(&mut store, "CA", 30), Ok(()));
    assert_eq!(burn(&mut store, "CB", 10), Ok(()));
    assert_eq!(burn(&mut store, "CA", 20), Ok(()));
    assert_eq!(get_total_burned(&store, &addr("CA")), 50);
    assert_eq!(get_burn_count(&store, &addr("CA")), 2);
    assert_eq!(get_total_burned(&store, &addr("CB")), 10);
    assert_eq!(get_burn_count(&store, &addr("CB")), 1);
    assert_eq!(get_total_burned(&store, &addr("CC")), 0);
    assert_eq!(get_global_burn_count(&store), 3);
    assert_eq!(get_burn_record(&store, 0).unwrap().token_address, addr("CA"));
    assert_eq!(get_burn_record(&store, 2).unwrap().amount, 20);
    assert_eq!(get_burn_record(&store, 1).unwrap().token_address, addr("CB"));
    assert_eq!(get_burn_record(&store, 3), None);
}

#[test]
fn burn_of_unknown_token_changes_nothing() {
    let mut store = three_tokens();
    assert_eq!(burn(&mut store, "CA", 30), Ok(()));
    assert_eq!(burn(&mut store, "CD", 30), Err(Error::TokenNotFound));
    assert_eq!(get_global_burn_count(&store), 1);
    assert_eq!(get_burn_record_count(&store), 1);
    assert_eq!(get_burn_record(&store, 1), None);
    assert_eq!(get_total_burned(&store, &addr("CD")), 0);
    assert_eq!(get_burn_count(&store, &addr("CD")), 0);
}

#[test]
fn supply_update_past_supply_fails() {
    let mut store = three_tokens();
    let supply = get_token_info_by_address(&store, &addr("CA")).unwrap().total_supply;
    assert_eq!(update_token_supply(&mut store, &addr("CA"), supply + 1), Err(Error::SupplyUnderflow));
    assert_eq!(get_token_info_by_address(&store, &addr("CA")).unwrap().total_supply, 1000);
}

#[test]
fn supply_update_to_zero_succeeds() {
    let mut store = three_tokens();
    assert_eq!(update_token_supply(&mut store, &addr("CB"), 500), Ok(()));
    assert_eq!(get_token_info(&store, 1).unwrap().total_supply, 0);
    assert_eq!(get_token_info(&store, 0).unwrap().total_supply, 1000);
}

#[test]
fn supply_update_of_unknown_token_fails() {
    let mut store = three_tokens();
    assert_eq!(update_token_supply(&mut store, &addr("CD"), 1), Err(Error::TokenNotFound));
}

#[test]
fn supply_update_past_largest_value_fails() {
    let mut store = FactoryStore::new();
    assert_eq!(register_token(&mut store, token("CA", i128::MAX)), Ok(0));
    assert_eq!(update_token_supply(&mut store, &addr("CA"), -1), Err(Error::Overflow));
    assert_eq!(get_token_info(&store, 0).unwrap().total_supply, i128::MAX);
}

#[test]
fn burn_with_supply_update_keeps_supply_reconciled() {
    let mut store = three_tokens();
    for (key, amount) in [("CA", 30), ("CB", 10), ("CA", 20)] {
        assert_eq!(burn(&mut store, key, amount), Ok(()));
        assert_eq!(update_token_supply(&mut store, &addr(key), amount), Ok(()));
    }
    for i in 0..3 {
        let t = get_token_info(&store, i).unwrap();
        assert_eq!(t.total_supply, t.initial_supply - t.total_burned);
    }
    assert_eq!(get_token_info(&store, 0).unwrap().total_supply, 950);
}

#[test]
fn counters_match_ledger_after_burns() {
    let mut store = three_tokens();
    let burns = [("CA", 5), ("CC", 7), ("CA", 11), ("CB", 13), ("CC", 17), ("CA", 19)];
    for (key, amount) in burns {
        assert_eq!(burn(&mut store, key, amount), Ok(()));
    }
    for key in ["CA", "CB", "CC"] {
        let mut sum: i128 = 0;
        let mut n: u32 = 0;
        for i in 0..get_burn_record_count(&store) {
            let r = get_burn_record(&store, i).unwrap();
            if r.token_address == addr(key) {
                sum += r.amount;
                n += 1;
            }
        }
        assert_eq!(get_total_burned(&store, &addr(key)), sum);
        assert_eq!(get_burn_count(&store, &addr(key)), n);
    }
    assert_eq!(get_total_burned(&store, &addr("CA")), 35);
    assert_eq!(get_burn_count(&store, &addr("CC")), 2);
}

#[test]
fn rejected_burn_amounts() {
    let mut store = three_tokens();
    assert_eq!(burn(&mut store, "CA", 0), Err(Error::InvalidParameters));
    assert_eq!(burn(&mut store, "CA", -5), Err(Error::InvalidParameters));
    assert_eq!(get_global_burn_count(&store), 0);
    assert_eq!(get_total_burned(&store, &addr("CA")), 0);
}

#[test]
fn burn_total_overflow_is_reported() {
    let mut store = FactoryStore::new();
    let mut t = token("CA", 10);
    t.total_burned = i128::MAX - 1;
    assert_eq!(register_token(&mut store, t), Ok(0));
    assert_eq!(burn(&mut store, "CA", 2), Err(Error::Overflow));
    assert_eq!(get_global_burn_count(&store), 0);
    assert_eq!(burn(&mut store, "CA", 1), Ok(()));
    assert_eq!(get_total_burned(&store, &addr("CA")), i128::MAX);
}

#[test]
fn burn_count_overflow_is_reported() {
    let mut store = FactoryStore::new();
    let mut t = token("CA", 10);
    t.burn_count = u32::MAX;
    assert_eq!(register_token(&mut store, t), Ok(0));
    assert_eq!(increment_burn_count(&mut store, &addr("CA"), 1), Err(Error::Overflow));
    assert_eq!(get_burn_count(&store, &addr("CA")), u32::MAX);
}

#[test]
fn increment_touches_counters_only() {
    let mut store = three_tokens();
    assert_eq!(increment_burn_count(&mut store, &addr("CB"), 8), Ok(()));
    assert_eq!(get_total_burned(&store, &addr("CB")), 8);
    assert_eq!(get_burn_count(&store, &addr("CB")), 1);
    assert_eq!(get_global_burn_count(&store), 0);
    assert_eq!(increment_burn_count(&mut store, &addr("CD"), 8), Err(Error::TokenNotFound));
}

#[test]
fn record_burn_writes_full_record() {
    let mut store = three_tokens();
    assert_eq!(record_burn(&mut store, &addr("CC"), 9, &addr("GADMIN"), &addr("GHOLDER"), true, 77), Ok(()));
    let expected = BurnRecord {
        token_address: addr("CC"),
        from: addr("GHOLDER"),
        amount: 9,
        burned_by: addr("GADMIN"),
        timestamp: 77,
        is_admin_burn: true,
    };
    assert_eq!(get_burn_record(&store, 0), Some(expected));
}

#[test]
fn appended_records_are_counted() {
    let mut store = FactoryStore::new();
    assert_eq!(get_global_burn_count(&store), 0);
    assert_eq!(get_burn_record_count(&store), 0);
    for i in 0..5u64 {
        let r = BurnRecord {
            token_address: addr("CA"),
            from: addr("GHOLDER"),
            amount: 1,
            burned_by: addr("GHOLDER"),
            timestamp: i,
            is_admin_burn: false,
        };
        assert_eq!(add_burn_record(&mut store, &r), Ok(()));
        assert_eq!(get_global_burn_count(&store), (i + 1) as u32);
        assert_eq!(get_burn_record_count(&store), (i + 1) as u32);
    }
    assert_eq!(get_burn_record(&store, 3).unwrap().timestamp, 3);
}

#[test]
fn token_write_back_round_trip() {
    let mut store = three_tokens();
    let mut t = get_token_info(&store, 1).unwrap();
    t.total_supply = 123;
    t.burn_count = 4;
    t.metadata_uri = Some(String::from("ipfs://meta"));
    assert_eq!(set_token_info(&mut store, 1, t.clone()), Ok(()));
    assert_eq!(get_token_info(&store, 1), Some(t));
    assert_eq!(get_token_info(&store, 0), Some(token("CA", 1000)));
}

#[test]
fn token_write_back_errors() {
    let mut store = three_tokens();
    assert_eq!(set_token_info(&mut store, 3, token("CD", 1)), Err(Error::TokenNotFound));
    assert_eq!(set_token_info(&mut store, 1, token("CA", 1)), Err(Error::InvalidParameters));
    assert_eq!(get_token_info(&store, 1), Some(token("CB", 500)));
}

#[test]
fn burn_record_round_trip() {
    let mut store = FactoryStore::new();
    let r = BurnRecord {
        token_address: addr("CA"),
        from: addr("GFROM"),
        amount: 64,
        burned_by: addr("GBY"),
        timestamp: 9,
        is_admin_burn: true,
    };
    assert_eq!(add_burn_record(&mut store, &r), Ok(()));
    assert_eq!(get_burn_record(&store, 0), Some(r));
}

#[test]
fn registry_lookups() {
    let store = three_tokens();
    assert_eq!(get_token_count(&store), 3);
    assert_eq!(get_token_index(&store, &addr("CC")), Some(2));
    assert_eq!(get_token_index(&store, &addr("CD")), None);
    assert_eq!(get_token_info_by_address(&store, &addr("CB")), Some(token("CB", 500)));
    assert_eq!(get_token_info_by_address(&store, &addr("CD")), None);
    assert_eq!(get_token_info(&store, 2), Some(token("CC", 200)));
    assert_eq!(get_token_info(&store, 3), None);
    assert_eq!(get_token_count(&FactoryStore::new()), 0);
}

#[test]
fn duplicate_registration_is_refused() {
    let mut store = three_tokens();
    assert_eq!(register_token(&mut store, token("CB", 9)), Err(Error::DuplicateToken));
    assert_eq!(get_token_count(&store), 3);
}

#[test]
fn configuration_round_trip() {
    let mut store = FactoryStore::new();
    assert!(!has_admin(&store));
    set_admin(&mut store, &addr("GADMIN"));
    set_treasury(&mut store, &addr("GTREASURY"));
    set_base_fee(&mut store, 70_000_000);
    set_metadata_fee(&mut store, 30_000_000);
    assert!(has_admin(&store));
    assert_eq!(get_admin(&store), addr("GADMIN"));
    assert_eq!(get_treasury(&store), addr("GTREASURY"));
    assert_eq!(get_base_fee(&store), 70_000_000);
    assert_eq!(get_metadata_fee(&store), 30_000_000);
    let state = get_factory_state(&store);
    assert_eq!(state.admin, addr("GADMIN"));
    assert_eq!(state.treasury, addr("GTREASURY"));
    assert_eq!(state.base_fee, 70_000_000);
    assert_eq!(state.metadata_fee, 30_000_000);
    set_admin(&mut store, &addr("GOTHER"));
    assert_eq!(get_admin(&store), addr("GOTHER"));
    assert_eq!(get_treasury(&store), addr("GTREASURY"));
}

#[test]
fn address_equality_follows_strkey() {
    let a = addr("CA");
    assert!(a.same_as(&addr("CA")));
    assert!(!a.same_as(&addr("CB")));
    assert_eq!(a.as_str(), "CA");
    assert_eq!(a.duplicate(), a);
}
