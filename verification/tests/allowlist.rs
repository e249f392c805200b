use launchpad::allowlist::{AllowlistRegistry, QuotaEntry, QuotaTable};
use launchpad::{AccountId, GatedPhase, Shiden34Error};

fn account(tag: u8) -> AccountId {
    AccountId { bytes: [tag; 32] }
}

/// An account that differs from `account(tag)` in its last byte alone.
fn neighbour(tag: u8) -> AccountId {
    let mut bytes = [tag; 32];
    bytes[31] = tag.wrapping_add(1);
    AccountId { bytes }
}

#[test]
fn accounts_are_equal_byte_for_byte() {
    assert!(account(1) == account(1));
    assert!(account(1) != account(2));
    assert!(account(1) != neighbour(1));
    let mut first = [7u8; 32];
    first[0] = 8;
    assert!(account(7) != AccountId { bytes: first });
    assert!(account(3).occupies(&Some(account(3))));
    assert!(!account(3).occupies(&Some(account(4))));
    assert!(!account(3).occupies(&None));
}

#[test]
fn a_table_sets_and_overwrites() {
    let mut table = QuotaTable::new();
    assert_eq!(table.get(&account(1)), None);
    table.set(account(1), 3);
    table.set(account(2), 0);
    assert_eq!(table.get(&account(1)), Some(3));
    assert_eq!(table.get(&account(2)), Some(0));
    assert_eq!(table.get(&account(3)), None);
    assert_eq!(table.get(&neighbour(1)), None);
    // Setting again replaces the quota and does not add to it.
    table.set(account(1), 2);
    assert_eq!(table.get(&account(1)), Some(2));
    assert_eq!(table.get(&account(2)), Some(0));
    assert_eq!(table.entries.len(), 2);
    assert!(table.is_well_formed());
}

#[test]
fn consume_takes_off_exactly_what_is_minted() {
    let mut table = QuotaTable::new();
    table.set(account(1), 5);
    table.set(account(2), 1);
    assert_eq!(table.consume(&account(1), 2), Ok(()));
    assert_eq!(table.get(&account(1)), Some(3));
    assert_eq!(table.get(&account(2)), Some(1));
    assert_eq!(table.consume(&account(1), 3), Ok(()));
    assert_eq!(table.get(&account(1)), Some(0));
    assert_eq!(table.consume(&account(1), 0), Ok(()));
    assert_eq!(table.get(&account(1)), Some(0));
}

#[test]
fn consume_refuses_to_overdraw() {
    let mut table = QuotaTable::new();
    table.set(account(1), 5);
    let before = table.clone();
    assert_eq!(table.consume(&account(1), 6), Err(Shiden34Error::Unauthorized));
    assert_eq!(table.consume(&account(1), u64::MAX), Err(Shiden34Error::Unauthorized));
    assert_eq!(table.consume(&account(2), 1), Err(Shiden34Error::Unauthorized));
    assert_eq!(table.consume(&account(2), 0), Err(Shiden34Error::Unauthorized));
    assert_eq!(table, before);
    assert_eq!(table.get(&account(1)), Some(5));
}

#[test]
fn the_two_stages_keep_apart() {
    let mut registry = AllowlistRegistry::new();
    assert_eq!(registry.add(true, GatedPhase::Prepresale, account(1), 4), Ok(()));
    assert_eq!(registry.remaining(GatedPhase::Prepresale, &account(1)), Some(4));
    assert_eq!(registry.remaining(GatedPhase::Presale, &account(1)), None);
    assert_eq!(registry.add(true, GatedPhase::Presale, account(1), 9), Ok(()));
    assert_eq!(registry.consume(GatedPhase::Presale, &account(1), 9), Ok(()));
    assert_eq!(registry.remaining(GatedPhase::Prepresale, &account(1)), Some(4));
    assert_eq!(registry.remaining(GatedPhase::Presale, &account(1)), Some(0));
    assert_eq!(
        registry.consume(GatedPhase::Presale, &account(1), 1),
        Err(Shiden34Error::Unauthorized)
    );
    assert!(registry.is_well_formed());
}

#[test]
fn only_the_administrator_adds() {
    let mut registry = AllowlistRegistry::new();
    let before = registry.clone();
    assert_eq!(
        registry.add(false, GatedPhase::Prepresale, account(1), 4),
        Err(Shiden34Error::Unauthorized)
    );
    assert_eq!(
        registry.add_batch(false, GatedPhase::Presale, &vec![(account(1), 4), (account(2), 1)]),
        Err(Shiden34Error::Unauthorized)
    );
    assert_eq!(registry, before);
}

#[test]
fn a_batch_is_set_first_to_last() {
    let mut registry = AllowlistRegistry::new();
    assert_eq!(registry.add(true, GatedPhase::Presale, account(3), 30), Ok(()));
    let list = vec![(account(1), 4), (account(2), 1), (account(1), 7), (account(3), 2)];
    assert_eq!(registry.add_batch(true, GatedPhase::Presale, &list), Ok(()));
    assert_eq!(registry.remaining(GatedPhase::Presale, &account(1)), Some(7));
    assert_eq!(registry.remaining(GatedPhase::Presale, &account(2)), Some(1));
    assert_eq!(registry.remaining(GatedPhase::Presale, &account(3)), Some(2));
    assert_eq!(registry.remaining(GatedPhase::Presale, &account(4)), None);
    assert_eq!(registry.remaining(GatedPhase::Prepresale, &account(1)), None);
    assert_eq!(registry.add_batch(true, GatedPhase::Presale, &vec![]), Ok(()));
    assert_eq!(registry.remaining(GatedPhase::Presale, &account(1)), Some(7));
    assert!(registry.is_well_formed());
}

#[test]
fn is_well_formed_finds_a_double_entry() {
    let twice = QuotaTable {
        entries: vec![
            QuotaEntry { account: account(1), quota: 1 },
            QuotaEntry { account: account(2), quota: 1 },
            QuotaEntry { account: account(1), quota: 5 },
        ],
    };
    assert!(!twice.is_well_formed());
    let once = QuotaTable {
        entries: vec![
            QuotaEntry { account: account(1), quota: 1 },
            QuotaEntry { account: neighbour(1), quota: 1 },
        ],
    };
    assert!(once.is_well_formed());
    assert!(!AllowlistRegistry { prepresale: once.clone(), presale: twice.clone() }.is_well_formed());
    assert!(!AllowlistRegistry { prepresale: twice, presale: once }.is_well_formed());
}
