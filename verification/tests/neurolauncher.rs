use launchpad::{AccountId, Balance, CallContext, MintingStatus, Neurolauncher, Shiden34Error, Transfer};

const PRICE: Balance = 100_000_000_000_000_000;
const PREPRESALE_PRICE: Balance = 10_000_000_000_000_000;
const PRESALE_PRICE: Balance = 20_000_000_000_000_000;
const BASE_URI: &str = "ipfs://myIpfsUri/";
const MAX_SUPPLY: u64 = 1000;
const SUPPLY_MINTED_TO_OWNER: u64 = 100;
const NAME: &str = "Neurolauncher";
const SYMBOL: &str = "NRL";
const PUBLIC_SALE_END_AT: u64 = 1682899200000;

fn alice() -> AccountId {
    AccountId { bytes: [1u8; 32] }
}

fn bob() -> AccountId {
    AccountId { bytes: [2u8; 32] }
}

fn charlie() -> AccountId {
    AccountId { bytes: [3u8; 32] }
}

fn django() -> AccountId {
    AccountId { bytes: [4u8; 32] }
}

/// Alice set the collection up and is its administrator.
fn call(caller: AccountId, value: Balance, now: u64) -> CallContext {
    CallContext {
        caller,
        caller_is_admin: caller == alice(),
        transferred_value: value,
        block_timestamp: now,
    }
}

fn init() -> Neurolauncher {
    Neurolauncher::new(String::from(BASE_URI), PRESALE_PRICE, PRICE, 0, 0, 0, charlie())
}

#[test]
fn lib_init_works() {
    let sh34 = init();
    assert_eq!(sh34.name, String::from(NAME));
    assert_eq!(sh34.symbol, String::from(SYMBOL));
    assert_eq!(sh34.base_uri, String::from(BASE_URI));
    assert_eq!(sh34.launchpad.max_supply(), MAX_SUPPLY);
    assert_eq!(sh34.launchpad.price(), PRICE);
}

#[test]
fn neurolauncher_starts_with_a_reserve() {
    let sh34 = init();
    assert!(sh34.launchpad.is_well_formed());
    assert_eq!(sh34.launchpad.total_supply(), SUPPLY_MINTED_TO_OWNER);
    assert_eq!(sh34.reserved.len(), 100);
    for (i, notice) in sh34.reserved.iter().enumerate() {
        assert_eq!(*notice, Transfer { from: None, to: Some(charlie()), id: i as u64 + 1 });
    }
    let expected: Vec<u64> = (101..=1000).collect();
    assert_eq!(sh34.launchpad.pool.unused, expected);
    assert_eq!(sh34.launchpad.pool.salt, 0);
    assert_eq!(sh34.launchpad.prepresale_price(), None);
    assert_eq!(sh34.launchpad.presale_price(), Some(PRESALE_PRICE));
    assert_eq!(sh34.launchpad.get_max_mint_amount(), 3);
    assert_eq!(sh34.launchpad.get_launchpad_fee(), 0);
    assert_eq!(sh34.launchpad.get_public_sale_end_at(), None);
    assert_eq!(sh34.launchpad.get_project_treasury_address(), charlie());
    assert_eq!(sh34.launchpad.get_launchpad_treasury_address(), None);
    assert_eq!(sh34.launchpad.sale.phase, MintingStatus::Unset);
}

#[test]
fn lib_mint_single_works() {
    let mut sh34 = init().launchpad;

    assert!(sh34.set_minting_status(&call(alice(), 0, 0), Some(3)).is_ok());

    assert_eq!(sh34.total_supply(), SUPPLY_MINTED_TO_OWNER);
    let minted = sh34.mint_next(&call(bob(), PRICE, 0));
    assert!(minted.is_ok());
    assert_eq!(sh34.total_supply(), SUPPLY_MINTED_TO_OWNER + 1);

    let notices = minted.unwrap();
    assert_eq!(notices.len(), 1);
    assert_eq!(notices[0].to, Some(bob()));
    assert_eq!(notices[0].id, 472);
}

#[test]
fn lib_set_minting_status_works() {
    let mut sh34 = init().launchpad;
    assert!(sh34.set_minting_status(&call(alice(), 0, 0), Some(1)).is_ok());
}

#[test]
fn lib_set_minting_status_auth_error() {
    let mut sh34 = init().launchpad;
    assert!(sh34.set_minting_status(&call(bob(), 0, 0), Some(1)).is_err());
}

#[test]
fn lib_add_to_presale_and_prepresale_works() {
    let mut sh34 = init().launchpad;
    let admin = call(alice(), 0, 0);
    assert!(sh34.add_account_to_prepresale(&admin, bob(), 1).is_ok());
    assert_eq!(sh34.get_account_prepresale_minting_amount(bob()).unwrap(), 1);

    assert!(sh34.add_account_to_presale(&admin, bob(), 1).is_ok());
    assert_eq!(sh34.get_account_presale_minting_amount(bob()).unwrap(), 1);
}

#[test]
fn lib_add_to_presale_and_prepresale_auth_error() {
    let mut sh34 = init().launchpad;
    assert!(sh34.add_account_to_prepresale(&call(bob(), 0, 0), bob(), 1).is_err());
    assert!(sh34.add_account_to_presale(&call(bob(), 0, 0), bob(), 1).is_err());
}

#[test]
fn neurolauncher_prepresale_is_closed() {
    let mut sh34 = init().launchpad;
    let admin = call(alice(), 0, 0);
    assert!(sh34.set_minting_status(&admin, Some(1)).is_ok());
    assert!(sh34.add_account_to_prepresale(&admin, bob(), 1).is_ok());
    let before = sh34.clone();

    // The stage has no price, so nobody can order in it, listed or not.
    assert_eq!(sh34.mint_next(&call(bob(), PREPRESALE_PRICE, 0)), Err(Shiden34Error::Unauthorized));
    assert_eq!(sh34.mint_next(&call(bob(), 0, 0)), Err(Shiden34Error::Unauthorized));
    assert_eq!(sh34, before);
    assert_eq!(sh34.get_account_prepresale_minting_amount(bob()), Some(1));
}

#[test]
fn lib_mint_presale_works() {
    let mut sh34 = init().launchpad;
    let admin = call(alice(), 0, 0);

    assert!(sh34.set_minting_status(&admin, Some(2)).is_ok());
    assert!(sh34.add_account_to_presale(&admin, bob(), 1).is_ok());

    assert_eq!(sh34.total_supply(), SUPPLY_MINTED_TO_OWNER);
    let minted = sh34.mint_next(&call(bob(), PRESALE_PRICE, 0));
    assert!(minted.is_ok());
    assert_eq!(sh34.total_supply(), SUPPLY_MINTED_TO_OWNER + 1);
    assert_eq!(sh34.get_account_presale_minting_amount(bob()).unwrap(), 0);

    let notices = minted.unwrap();
    assert_eq!(notices.len(), 1);
    assert_eq!(notices[0].to, Some(bob()));
}

#[test]
fn lib_withdraw_launchpad_works() {
    let mut sh34 = init().launchpad;
    let admin = call(alice(), 0, 0);

    assert!(sh34.set_minting_status(&admin, Some(2)).is_ok());
    assert!(sh34.add_account_to_presale(&admin, bob(), 1).is_ok());

    assert!(sh34.mint_next(&call(bob(), PRESALE_PRICE, 0)).is_ok());

    assert!(sh34.set_minting_status(&admin, Some(4)).is_ok());

    // No launchpad treasury is registered, so nobody is paid its share.
    assert!(sh34.withdraw_launchpad(&call(django(), 0, PUBLIC_SALE_END_AT + 1)).is_err());
    assert_eq!(
        sh34.withdraw_launchpad(&call(django(), 0, PUBLIC_SALE_END_AT + 1)),
        Err(Shiden34Error::Unauthorized)
    );
}

#[test]
fn lib_withdraw_project_works() {
    let mut sh34 = init().launchpad;
    let admin = call(alice(), 0, 0);

    assert!(sh34.set_minting_status(&admin, Some(2)).is_ok());
    assert!(sh34.add_account_to_presale(&admin, bob(), 1).is_ok());

    assert!(sh34.mint_next(&call(bob(), PRESALE_PRICE, 0)).is_ok());

    assert!(sh34.set_minting_status(&admin, Some(4)).is_ok());

    let paid = sh34.withdraw_project(&call(charlie(), 0, PUBLIC_SALE_END_AT + 1));
    assert!(paid.is_ok());
    assert_eq!(paid.unwrap(), (PRESALE_PRICE * 100) / 100);
}

#[test]
fn lib_mint_multiple_works() {
    let mut sh34 = init().launchpad;

    let num_of_mints: u64 = 5;
    assert!(sh34.set_max_mint_amount(&call(alice(), 0, 0), num_of_mints).is_ok());
    assert!(sh34.set_minting_status(&call(alice(), 0, 0), Some(3)).is_ok());

    assert_eq!(
        sh34.mint(&call(alice(), 0, 0), bob(), num_of_mints + 1),
        Err(Shiden34Error::TooManyTokensToMint)
    );

    assert_eq!(sh34.total_supply(), SUPPLY_MINTED_TO_OWNER);
    let minted = sh34.mint(&call(alice(), PRICE * num_of_mints as u128, 0), bob(), num_of_mints);
    assert!(minted.is_ok());
    assert_eq!(sh34.total_supply(), SUPPLY_MINTED_TO_OWNER + num_of_mints);
    let notices = minted.unwrap();
    assert_eq!(notices.len(), 5);
    assert!(notices.iter().all(|n| n.to == Some(bob())));
    let ids: Vec<u64> = notices.iter().map(|n| n.id).collect();
    assert_eq!(ids, vec![220, 192, 285, 122, 394]);
}

#[test]
fn lib_mint_above_limit_fails() {
    let mut sh34 = init().launchpad;
    let num_of_mints: u64 = MAX_SUPPLY + 1;

    assert_eq!(sh34.total_supply(), SUPPLY_MINTED_TO_OWNER);
    assert!(sh34.set_max_mint_amount(&call(alice(), 0, 0), num_of_mints).is_ok());
    assert_eq!(
        sh34.mint(&call(alice(), PRICE * num_of_mints as u128, 0), bob(), num_of_mints),
        Err(Shiden34Error::CollectionIsFull)
    );
}

#[test]
fn lib_mint_low_value_fails() {
    let mut sh34 = init().launchpad;
    assert!(sh34.set_minting_status(&call(alice(), 0, 0), Some(3)).is_ok());

    let num_of_mints: u64 = 1;

    assert_eq!(sh34.total_supply(), SUPPLY_MINTED_TO_OWNER);
    let low = call(bob(), PRICE * num_of_mints as u128 - 1, 0);
    assert_eq!(sh34.mint(&low, bob(), num_of_mints), Err(Shiden34Error::BadMintValue));
    assert_eq!(sh34.mint_next(&low), Err(Shiden34Error::BadMintValue));
    assert_eq!(sh34.total_supply(), SUPPLY_MINTED_TO_OWNER);
}

#[test]
fn lib_check_value_overflow_ok() {
    let price = u128::MAX as u128;
    let sh34 =
        Neurolauncher::new(String::from(BASE_URI), PRESALE_PRICE, price, 0, 0, 0, charlie()).launchpad;
    let transferred_value = u128::MAX;
    let mint_amount = u64::MAX;
    assert_eq!(
        sh34.check_value(transferred_value, mint_amount, &MintingStatus::Public),
        Err(Shiden34Error::BadMintValue)
    );
}

#[test]
fn neurolauncher_pays_the_project_at_any_time() {
    let mut sh34 = init().launchpad;
    assert!(sh34.set_minting_status(&call(alice(), 0, 0), Some(3)).is_ok());
    assert!(sh34.mint_next(&call(bob(), PRICE, 7)).is_ok());
    // The sale has no end, and the launchpad takes no fee.
    assert_eq!(sh34.get_available_to_withdraw_launchpad(), 0);
    assert_eq!(sh34.get_available_to_withdraw_project(), PRICE);
    assert_eq!(sh34.withdraw_project(&call(charlie(), 0, 0)), Ok(PRICE));
    assert_eq!(sh34.withdraw_project(&call(charlie(), 0, 0)), Err(Shiden34Error::NothingToWithdraw));
}

#[test]
fn lib_check_supply_overflow_ok() {
    let sh34 =
        Neurolauncher::new(String::from(BASE_URI), PRESALE_PRICE, PRICE, 0, 0, 0, charlie()).launchpad;
    assert!(sh34.is_well_formed());
    // The request for no token is refused before the supply is looked at.
    assert_eq!(sh34.check_amount(0), Err(Shiden34Error::CannotMintZeroTokens));
    assert_eq!(sh34.check_amount(3), Ok(()));
    assert_eq!(sh34.check_amount(4), Err(Shiden34Error::TooManyTokensToMint));
}
