use rust_abm::agents::{BankData, HouseholdData};
use rust_abm::fixed::Fixed;

#[test]
fn bank_approves_and_extends_loan() {
    let mut bank = BankData::new(Fixed::from_int(1000), Fixed::from_int(100));
    let approved = bank.evaluate_loan(
        Fixed::from_int(100),
        Fixed::from_int(60),
        Fixed::from_int(50),
        Fixed::from_micros(100_000),
        Fixed::from_micros(20_000),
        Fixed::from_int(1),
        Fixed::from_micros(300_000),
    );
    assert!(approved);
    let rate = bank.extend_loan(Fixed::from_int(100));
    assert_eq!(bank.loans, Fixed::from_int(100));
    assert_eq!(bank.deposits, Fixed::from_int(100));
    assert_eq!(rate, Fixed::from_micros(50_000));
}

#[test]
fn household_consumes_and_saves() {
    let mut household = HouseholdData::new(
        Fixed::from_int(1000),
        Fixed::zero(),
        Fixed::from_micros(800_000),
    );
    household.consume(Fixed::from_micros(700_000));
    household.save();
    assert_eq!(household.consumption, Fixed::from_int(800));
    assert_eq!(household.savings, Fixed::from_int(200));
    assert_eq!(household.wealth, Fixed::from_int(200));
}
