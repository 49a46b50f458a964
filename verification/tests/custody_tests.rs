use nft_sale::custody::FungibleBucket;
use nft_sale::custody::FungibleVault;
use nft_sale::custody::NonFungibleBucket;
use nft_sale::custody::NonFungibleVault;
use nft_sale::decimal::Decimal;
use nft_sale::error::SaleError;
use nft_sale::resource::ResourceKind;

fn token() -> ResourceKind {
    ResourceKind::new(1, true)
}

fn collectible() -> ResourceKind {
    ResourceKind::new(2, false)
}

#[test]
fn fungible_vault_deposit_and_withdraw() {
    let mut vault = FungibleVault::new(token());
    assert!(vault.is_empty());
    vault.deposit(FungibleBucket::new(token(), Decimal::from_units(5)));
    assert!(!vault.is_empty());
    assert_eq!(vault.balance(), Decimal::from_units(5));

    let taken = vault.withdraw(Decimal::from_units(3)).expect("5 covers 3");
    assert_eq!(taken.balance(), Decimal::from_units(3));
    assert_eq!(taken.resource_kind(), token());
    assert_eq!(vault.balance(), Decimal::from_units(2));

    assert!(matches!(
        vault.withdraw(Decimal::from_units(3)),
        Err(SaleError::InsufficientBalanceError)
    ));
    assert_eq!(vault.balance(), Decimal::from_units(2));
}

#[test]
fn fungible_vault_withdraw_all_drains() {
    let mut vault = FungibleVault::new(token());
    vault.deposit(FungibleBucket::new(token(), Decimal::from_units(7)));
    let drained = vault.withdraw_all();
    assert_eq!(drained.balance(), Decimal::from_units(7));
    assert!(vault.is_empty());
}

#[test]
fn nonfungible_vault_hands_out_newest_first() {
    let mut vault = NonFungibleVault::new(collectible());
    vault.deposit(NonFungibleBucket::new(collectible(), vec![10, 11, 12]));
    assert_eq!(vault.balance(), 3);

    let taken = vault.withdraw(2).expect("3 covers 2");
    assert_eq!(taken.item_ids(), &vec![11, 12]);
    assert_eq!(vault.balance(), 1);

    assert!(matches!(vault.withdraw(2), Err(SaleError::InsufficientBalanceError)));
    let last = vault.withdraw(1).expect("one item is left");
    assert_eq!(last.item_ids(), &vec![10]);
    assert!(vault.is_empty());
}

#[test]
fn bucket_split_keeps_the_remainder() {
    let mut bucket = FungibleBucket::new(token(), Decimal::from_units(12));
    let part = bucket.split(Decimal::from_units(10));
    assert_eq!(part.balance(), Decimal::from_units(10));
    assert_eq!(part.resource_kind(), token());
    assert_eq!(bucket.balance(), Decimal::from_units(2));
}
