use launchpad::token_pool::TokenPool;
use launchpad::{AccountId, Shiden34Error};

fn alice() -> AccountId {
    AccountId { bytes: [1u8; 32] }
}

fn bob() -> AccountId {
    AccountId { bytes: [2u8; 32] }
}

fn django() -> AccountId {
    AccountId { bytes: [4u8; 32] }
}

#[test]
fn with_range_lists_the_identifiers_in_order() {
    let pool = TokenPool::with_range(0, 5);
    assert_eq!(pool.unused, vec![1, 2, 3, 4, 5]);
    assert_eq!(pool.salt, 0);
    assert_eq!(pool.remaining_count(), 5);
    assert!(pool.is_well_formed());

    let pool = TokenPool::with_range(100, 103);
    assert_eq!(pool.unused, vec![101, 102, 103]);

    assert!(TokenPool::with_range(7, 7).unused.is_empty());
    assert!(TokenPool::with_range(9, 3).unused.is_empty());
    assert_eq!(TokenPool::with_range(u64::MAX - 2, u64::MAX).unused, vec![u64::MAX - 1, u64::MAX]);
}

#[test]
fn take_by_digest_moves_the_last_into_the_gap() {
    let mut pool = TokenPool::with_range(0, 10);
    let mut digest = [0u8; 32];
    digest[31] = 13;
    // 13 mod 10 selects the fourth identifier.
    assert_eq!(pool.take_by_digest(&digest), Ok(4));
    assert_eq!(pool.unused, vec![1, 2, 3, 10, 5, 6, 7, 8, 9]);
    assert_eq!(pool.salt, 1);
    // 13 mod 9 selects the fifth.
    assert_eq!(pool.take_by_digest(&digest), Ok(5));
    assert_eq!(pool.unused, vec![1, 2, 3, 10, 9, 6, 7, 8]);
    assert_eq!(pool.salt, 2);
    // The last identifier leaves no gap.
    digest[31] = 7;
    assert_eq!(pool.take_by_digest(&digest), Ok(8));
    assert_eq!(pool.unused, vec![1, 2, 3, 10, 9, 6, 7]);
    assert!(pool.is_well_formed());
}

#[test]
fn draw_one_follows_the_hash() {
    let mut pool = TokenPool::with_range(0, 10);
    assert_eq!(pool.draw_one(&bob(), 0), Ok(2));
    assert_eq!(pool.unused, vec![1, 10, 3, 4, 5, 6, 7, 8, 9]);
    assert_eq!(pool.salt, 1);

    let mut pool = TokenPool::with_range(0, 10);
    assert_eq!(pool.draw_one(&alice(), 0), Ok(10));
    assert_eq!(pool.unused, vec![1, 2, 3, 4, 5, 6, 7, 8, 9]);

    let mut pool = TokenPool::with_range(100, 1000);
    assert_eq!(pool.draw_one(&bob(), 0), Ok(472));
}

#[test]
fn draw_depends_on_salt_caller_and_time() {
    let mut pool = TokenPool::with_range(0, 10);
    assert_eq!(pool.draw(&bob(), 0, 5), Ok(vec![2, 4, 5, 6, 7]));
    assert_eq!(pool.unused, vec![1, 10, 3, 9, 8]);
    assert_eq!(pool.salt, 5);

    let mut pool = TokenPool::with_range(0, 10);
    pool.salt = 7;
    assert_eq!(pool.draw(&django(), 1682899200001, 2), Ok(vec![8, 5]));
    assert_eq!(pool.unused, vec![1, 2, 3, 4, 9, 6, 7, 10]);
    assert_eq!(pool.salt, 9);

    let mut pool = TokenPool::with_range(100, 1000);
    assert_eq!(pool.draw(&alice(), 7, 3), Ok(vec![165, 338, 862]));
}

#[test]
fn draw_empties_the_pool_without_a_repeat() {
    let mut pool = TokenPool::with_range(0, 10);
    let drawn = pool.draw(&bob(), 5, 10).unwrap();
    assert_eq!(drawn, vec![10, 2, 4, 9, 8, 7, 3, 6, 5, 1]);
    let mut sorted = drawn.clone();
    sorted.sort();
    assert_eq!(sorted, vec![1, 2, 3, 4, 5, 6, 7, 8, 9, 10]);
    assert!(pool.unused.is_empty());
    assert_eq!(pool.remaining_count(), 0);
    assert_eq!(pool.salt, 10);
}

#[test]
fn an_empty_pool_gives_nothing() {
    let mut pool = TokenPool::with_range(0, 0);
    assert_eq!(pool.draw_one(&bob(), 0), Err(Shiden34Error::CollectionIsFull));
    assert_eq!(pool.take_by_digest(&[9u8; 32]), Err(Shiden34Error::CollectionIsFull));
    assert_eq!(pool.salt, 0);
    assert_eq!(pool.draw(&bob(), 0, 0), Ok(vec![]));
}

#[test]
fn draw_is_all_or_nothing() {
    let mut pool = TokenPool::with_range(0, 3);
    let before = pool.clone();
    assert_eq!(pool.draw(&bob(), 1, 4), Err(Shiden34Error::CollectionIsFull));
    assert_eq!(pool, before);
    assert_eq!(pool.draw(&bob(), 1, 3), Ok(vec![2, 1, 3]));
    assert_eq!(pool.draw(&bob(), 1, 1), Err(Shiden34Error::CollectionIsFull));
}

#[test]
fn is_well_formed_finds_a_repeat() {
    let ok = TokenPool { unused: vec![5, 1, 9], salt: 3 };
    assert!(ok.is_well_formed());
    assert!(!TokenPool { unused: vec![5, 1, 5], salt: 0 }.is_well_formed());
    assert!(!TokenPool { unused: vec![1, 2, 3, 3], salt: 0 }.is_well_formed());
    assert!(!TokenPool { unused: vec![1], salt: u64::MAX }.is_well_formed());
    assert!(TokenPool { unused: vec![1], salt: u64::MAX - 1 }.is_well_formed());
    assert!(TokenPool { unused: vec![], salt: u64::MAX }.is_well_formed());
}
