use nft_sale::decimal::Decimal;
use nft_sale::decimal::ATTOS_PER_UNIT;

#[test]
fn units_scale_to_attos_exactly() {
    assert_eq!(Decimal::from_units(0).to_attos(), 0);
    assert_eq!(Decimal::from_units(3).to_attos(), 3 * ATTOS_PER_UNIT);
    assert_eq!(Decimal::from_units(3), Decimal::from_attos(3_000_000_000_000_000_000));
}

#[test]
fn zero_and_sign() {
    assert_eq!(Decimal::zero(), Decimal::from_units(0));
    assert!(!Decimal::zero().is_negative());
    assert!(Decimal::from_attos(-1).is_negative());
    assert!(!Decimal::from_attos(1).is_negative());
}

#[test]
fn comparison_is_exact() {
    let one_atto_over = Decimal::from_attos(ATTOS_PER_UNIT + 1);
    assert!(one_atto_over.ge(&Decimal::from_units(1)));
    assert!(!Decimal::from_units(1).ge(&one_atto_over));
    assert!(Decimal::from_units(1).ge(&Decimal::from_units(1)));
}

#[test]
fn arithmetic_is_exact() {
    let price = Decimal::from_units(10);
    assert_eq!(price.times_u16(3), Decimal::from_units(30));
    assert_eq!(price.times_u16(0), Decimal::zero());
    assert_eq!(Decimal::from_units(12).minus(&price), Decimal::from_units(2));
    assert_eq!(price.plus(&Decimal::from_units(2)), Decimal::from_units(12));
    // A sub-unit price is multiplied without truncation.
    let tenth = Decimal::from_attos(ATTOS_PER_UNIT / 10);
    assert_eq!(tenth.times_u16(10), Decimal::from_units(1));
}
