use rust_abm::agents::{
    BankData, CentralBankData, FirmData, GovernmentData, HouseholdData,
};
use rust_abm::fixed::Fixed;

fn sample_firm() -> FirmData {
    FirmData::new(
        "retail_trade".to_string(),
        10,
        Fixed::from_int(100),
        Fixed::from_int(2000),
        Fixed::from_int(5000),
        Fixed::from_int(500),
        Fixed::from_micros(150_000),
    )
}

#[test]
fn new_firm_starts_from_its_samples() {
    let firm = sample_firm();
    assert_eq!(firm.sector, "retail_trade");
    assert_eq!(firm.employees, 10);
    assert_eq!(firm.wage_bill, Fixed::from_int(1000));
    assert_eq!(firm.turnover, Fixed::from_int(2000));
    assert_eq!(firm.debt, Fixed::zero());
    assert_eq!(firm.equity, Fixed::from_int(5500));
    assert_eq!(firm.price, Fixed::one());
    assert_eq!(firm.output, Fixed::from_int(2000));
    assert_eq!(firm.inventory, Fixed::zero());
    assert_eq!(firm.profit, Fixed::zero());
    assert_eq!(firm.vacancies, 0);
    assert_eq!(firm.desired_production, Fixed::from_int(2000));
    assert!(!firm.bankrupt);
    assert!(!firm.default_settled);
}

#[test]
fn firm_plans_prices_and_produces() {
    let mut firm = sample_firm();
    firm.plan_production(Fixed::from_micros(200_000));
    assert_eq!(firm.desired_production, Fixed::from_int(2400));
    firm.set_price();
    assert_eq!(firm.price, Fixed::from_micros(575_000));
    firm.determine_labour_demand();
    assert_eq!(firm.vacancies, 2);
    firm.produce(Fixed::from_micros(850_000));
    assert_eq!(firm.output, Fixed::from_int(2000));
    assert_eq!(firm.inventory, Fixed::from_int(2000));
    firm.update_financials(Fixed::from_micros(850_000));
    assert_eq!(firm.inventory, Fixed::zero());
    assert_eq!(firm.turnover, Fixed::from_int(1150));
    assert_eq!(firm.wage_bill, Fixed::from_int(1000));
    assert_eq!(firm.profit, Fixed::from_int(150));
    assert_eq!(firm.cash, Fixed::from_int(650));
    assert_eq!(firm.equity, Fixed::from_int(5650));
    assert!(!firm.bankrupt);
}

#[test]
fn firm_step_is_the_sequence_of_its_parts() {
    let mut stepped = sample_firm();
    stepped.step(Fixed::from_micros(200_000), Fixed::from_micros(850_000));
    let mut by_hand = sample_firm();
    by_hand.plan_production(Fixed::from_micros(200_000));
    by_hand.set_price();
    by_hand.determine_labour_demand();
    by_hand.produce(Fixed::from_micros(850_000));
    by_hand.update_financials(Fixed::from_micros(850_000));
    assert_eq!(stepped, by_hand);
}

#[test]
fn bankrupt_firm_skips_its_step() {
    let mut firm = sample_firm();
    firm.bankrupt = true;
    let before = firm.clone();
    firm.step(Fixed::from_micros(200_000), Fixed::from_micros(850_000));
    assert_eq!(firm, before);
}

#[test]
fn planned_production_is_never_negative() {
    let mut firm = sample_firm();
    firm.inventory = Fixed::from_int(10_000);
    firm.plan_production(Fixed::from_micros(200_000));
    assert_eq!(firm.desired_production, Fixed::zero());
}

#[test]
fn price_stays_without_output() {
    let mut firm = sample_firm();
    firm.output = Fixed::zero();
    firm.price = Fixed::from_int(3);
    firm.set_price();
    assert_eq!(firm.price, Fixed::from_int(3));
}

#[test]
fn labour_demand_without_employees_uses_unit_productivity() {
    let mut firm = sample_firm();
    firm.employees = 0;
    firm.desired_production = Fixed::from_micros(7_900_000);
    firm.determine_labour_demand();
    assert_eq!(firm.vacancies, 7);
}

#[test]
fn production_is_limited_by_capacity() {
    let mut firm = sample_firm();
    firm.capital = Fixed::from_int(1000);
    firm.desired_production = Fixed::from_int(2400);
    firm.produce(Fixed::from_micros(850_000));
    assert_eq!(firm.output, Fixed::from_int(850));
    assert_eq!(firm.inventory, Fixed::from_int(850));
}

#[test]
fn firm_fails_when_equity_falls_far_below_zero() {
    let mut firm = sample_firm();
    firm.employees = 0;
    firm.turnover = Fixed::zero();
    firm.capital = Fixed::from_int(1000);
    firm.equity = Fixed::from_int(-900);
    firm.update_financials(Fixed::from_micros(850_000));
    assert!(firm.bankrupt);

    let mut survivor = sample_firm();
    survivor.employees = 0;
    survivor.turnover = Fixed::zero();
    survivor.capital = Fixed::from_int(1000);
    survivor.equity = Fixed::from_int(-850);
    survivor.update_financials(Fixed::from_micros(850_000));
    assert!(!survivor.bankrupt);
}

#[test]
fn firm_without_capital_does_not_fail() {
    let mut firm = sample_firm();
    firm.employees = 0;
    firm.turnover = Fixed::zero();
    firm.capital = Fixed::zero();
    firm.equity = Fixed::from_int(-900);
    firm.update_financials(Fixed::from_micros(850_000));
    assert!(!firm.bankrupt);
}

#[test]
fn markup_rises_with_excess_demand_and_has_a_floor() {
    let mut firm = sample_firm();
    firm.adapt_markup(Fixed::from_micros(500_000), Fixed::from_micros(100_000));
    assert_eq!(firm.markup, Fixed::from_micros(200_000));
    firm.adapt_markup(Fixed::from_int(-5), Fixed::from_micros(100_000));
    assert_eq!(firm.markup, Fixed::from_micros(10_000));
    firm.markup = Fixed::from_micros(150_000);
    firm.adapt_markup(Fixed::from_micros(-250_000), Fixed::from_micros(100_000));
    assert_eq!(firm.markup, Fixed::from_micros(125_000));
    firm.adapt_markup(Fixed::zero(), Fixed::from_micros(100_000));
    assert_eq!(firm.markup, Fixed::from_micros(125_000));
}

#[test]
fn hiring_and_firing_keep_the_wage_bill() {
    let mut firm = sample_firm();
    firm.vacancies = 3;
    firm.hire(2, Fixed::from_int(120));
    assert_eq!(firm.employees, 12);
    assert_eq!(firm.wage_rate, Fixed::from_int(120));
    assert_eq!(firm.wage_bill, Fixed::from_int(1440));
    assert_eq!(firm.vacancies, 1);
    firm.hire(5, Fixed::from_int(120));
    assert_eq!(firm.vacancies, 0);
    assert_eq!(firm.employees, 17);
    firm.fire(20);
    assert_eq!(firm.employees, 0);
    assert_eq!(firm.wage_bill, Fixed::zero());
}

#[test]
fn hiring_saturates_the_head_count() {
    let mut firm = sample_firm();
    firm.employees = u32::MAX - 1;
    firm.hire(5, Fixed::from_int(1));
    assert_eq!(firm.employees, u32::MAX);
}

#[test]
fn new_household_is_unemployed() {
    let household = HouseholdData::new(
        Fixed::from_int(10),
        Fixed::from_int(20),
        Fixed::from_micros(800_000),
    );
    assert_eq!(household.income, Fixed::from_int(10));
    assert_eq!(household.wealth, Fixed::from_int(20));
    assert_eq!(household.consumption, Fixed::zero());
    assert_eq!(household.savings, Fixed::zero());
    assert!(!household.employed);
    assert_eq!(household.employer_id, None);
    assert_eq!(household.wage, Fixed::zero());
    assert_eq!(household.transfer_income, Fixed::zero());
}

#[test]
fn household_step_receives_consumes_saves() {
    let mut household = HouseholdData::new(
        Fixed::zero(),
        Fixed::zero(),
        Fixed::from_micros(800_000),
    );
    household.become_employed(3, Fixed::from_int(900));
    household.transfer_income = Fixed::from_int(100);
    household.step(Fixed::from_micros(700_000));
    assert_eq!(household.income, Fixed::from_int(1000));
    assert_eq!(household.consumption, Fixed::from_int(800));
    assert_eq!(household.savings, Fixed::from_int(200));
    assert_eq!(household.wealth, Fixed::from_int(200));
    assert_eq!(household.transfer_income, Fixed::zero());
    assert!(household.employed);
    assert_eq!(household.employer_id, Some(3));
}

#[test]
fn unemployed_household_lives_on_transfers_and_wealth() {
    let mut household = HouseholdData::new(
        Fixed::zero(),
        Fixed::from_int(1000),
        Fixed::from_micros(800_000),
    );
    household.wage = Fixed::from_int(500);
    household.transfer_income = Fixed::from_int(100);
    household.step(Fixed::from_micros(700_000));
    assert_eq!(household.income, Fixed::from_int(100));
    assert_eq!(household.consumption, Fixed::from_int(92));
    assert_eq!(household.savings, Fixed::from_int(8));
    assert_eq!(household.wealth, Fixed::from_int(1008));
}

#[test]
fn consumption_is_within_means_and_not_negative() {
    let mut spender = HouseholdData::new(
        Fixed::from_int(100),
        Fixed::from_int(-50),
        Fixed::from_micros(990_000),
    );
    spender.consume(Fixed::from_micros(700_000));
    assert_eq!(spender.consumption, Fixed::from_int(50));

    let mut debtor = HouseholdData::new(
        Fixed::from_int(100),
        Fixed::from_int(20_000),
        Fixed::from_micros(-3_000_000),
    );
    debtor.consume(Fixed::from_micros(700_000));
    assert_eq!(debtor.consumption, Fixed::zero());
}

#[test]
fn employment_changes() {
    let mut household = HouseholdData::new(
        Fixed::zero(),
        Fixed::zero(),
        Fixed::from_micros(800_000),
    );
    household.become_employed(7, Fixed::from_int(42));
    assert!(household.employed);
    assert_eq!(household.employer_id, Some(7));
    assert_eq!(household.wage, Fixed::from_int(42));
    household.become_unemployed();
    assert!(!household.employed);
    assert_eq!(household.employer_id, None);
    assert_eq!(household.wage, Fixed::zero());
}

#[test]
fn only_the_unemployed_search() {
    let mut household = HouseholdData::new(
        Fixed::zero(),
        Fixed::zero(),
        Fixed::from_micros(800_000),
    );
    let intensity = Fixed::from_micros(300_000);
    assert!(household.is_searching(0, intensity));
    assert!(!household.is_searching(rust_abm::fixed::DRAW_RANGE - 1, intensity));
    household.become_employed(0, Fixed::one());
    assert!(!household.is_searching(0, intensity));
}

#[test]
fn new_bank_has_an_empty_book() {
    let bank = BankData::new(Fixed::from_int(1000), Fixed::from_int(100));
    assert_eq!(bank.capital, Fixed::from_int(1000));
    assert_eq!(bank.reserves, Fixed::from_int(100));
    assert_eq!(bank.loans, Fixed::zero());
    assert_eq!(bank.deposits, Fixed::zero());
    assert_eq!(bank.non_performing_loans, Fixed::zero());
    assert_eq!(bank.interest_rate, Fixed::from_micros(50_000));
    assert_eq!(bank.profit, Fixed::zero());
}

#[test]
fn capital_ratio_is_one_without_loans() {
    let mut bank = BankData::new(Fixed::from_int(100), Fixed::zero());
    assert_eq!(bank.capital_ratio(Fixed::one()), Fixed::one());
    bank.loans = Fixed::from_int(1000);
    assert_eq!(bank.capital_ratio(Fixed::one()), Fixed::from_micros(100_000));
    assert_eq!(bank.capital_ratio(Fixed::zero()), Fixed::one());
    assert!(!bank.meets_capital_requirement(
        Fixed::from_micros(100_000),
        Fixed::from_micros(20_000),
        Fixed::one()
    ));
    assert!(bank.meets_capital_requirement(
        Fixed::from_micros(80_000),
        Fixed::from_micros(20_000),
        Fixed::one()
    ));
}

#[test]
fn bank_step_sets_rate_income_and_capital() {
    let mut bank = BankData::new(Fixed::from_int(100), Fixed::zero());
    bank.loans = Fixed::from_int(1000);
    bank.deposits = Fixed::from_int(400);
    bank.non_performing_loans = Fixed::from_int(50);
    bank.set_lending_rate(
        Fixed::from_micros(20_000),
        Fixed::from_micros(20_000),
        Fixed::from_micros(50_000),
    );
    assert_eq!(bank.interest_rate, Fixed::from_micros(42_500));
    bank.calculate_income();
    assert_eq!(bank.interest_income, Fixed::from_micros(42_500_000));
    assert_eq!(bank.interest_expense, Fixed::from_int(9));
    bank.update_capital();
    assert_eq!(bank.profit, Fixed::from_micros(8_500_000));
    assert_eq!(bank.capital, Fixed::from_micros(108_500_000));

    let mut stepped = BankData::new(Fixed::from_int(100), Fixed::zero());
    stepped.loans = Fixed::from_int(1000);
    stepped.deposits = Fixed::from_int(400);
    stepped.non_performing_loans = Fixed::from_int(50);
    stepped.step(
        Fixed::from_micros(20_000),
        Fixed::from_micros(20_000),
        Fixed::from_micros(50_000),
    );
    assert_eq!(stepped, bank);
}

#[test]
fn deposit_rate_is_never_negative() {
    let mut bank = BankData::new(Fixed::from_int(100), Fixed::zero());
    bank.deposits = Fixed::from_int(400);
    bank.interest_rate = Fixed::from_micros(10_000);
    bank.calculate_income();
    assert_eq!(bank.interest_expense, Fixed::zero());
}

#[test]
fn loan_is_refused_for_each_reason() {
    let bank = BankData::new(Fixed::from_int(1000), Fixed::from_int(100));
    let requirement = Fixed::from_micros(100_000);
    let buffer = Fixed::from_micros(20_000);
    let weight = Fixed::one();
    let threshold = Fixed::from_micros(300_000);
    let amount = Fixed::from_int(100);
    assert!(bank.evaluate_loan(
        amount,
        Fixed::from_int(50),
        Fixed::from_int(50),
        requirement,
        buffer,
        weight,
        threshold,
    ));
    assert!(!bank.evaluate_loan(
        amount,
        Fixed::from_nanos(49_999_999_999),
        Fixed::from_int(50),
        requirement,
        buffer,
        weight,
        threshold,
    ));
    assert!(!bank.evaluate_loan(
        amount,
        Fixed::from_int(60),
        Fixed::zero(),
        requirement,
        buffer,
        weight,
        threshold,
    ));
    assert!(!bank.evaluate_loan(
        amount,
        Fixed::from_int(60),
        Fixed::from_int(1),
        requirement,
        buffer,
        weight,
        threshold,
    ));
    assert!(bank.evaluate_loan(
        amount,
        Fixed::from_int(60),
        Fixed::from_micros(1_500_000),
        requirement,
        buffer,
        weight,
        threshold,
    ));

    let mut stretched = bank;
    stretched.loans = Fixed::from_int(10_000);
    assert!(!stretched.evaluate_loan(
        amount,
        Fixed::from_int(60),
        Fixed::from_int(50),
        requirement,
        buffer,
        weight,
        threshold,
    ));
}

#[test]
fn loan_creates_deposit() {
    let mut bank = BankData::new(Fixed::from_int(1000), Fixed::from_int(100));
    bank.loans = Fixed::from_int(70);
    bank.deposits = Fixed::from_int(30);
    bank.interest_rate = Fixed::from_micros(61_000);
    let rate = bank.extend_loan(Fixed::from_micros(12_345_678));
    assert_eq!(bank.loans, Fixed::from_micros(82_345_678));
    assert_eq!(bank.deposits, Fixed::from_micros(42_345_678));
    assert_eq!(rate, Fixed::from_micros(61_000));
}

#[test]
fn defaults_and_repayments() {
    let mut bank = BankData::new(Fixed::from_int(1000), Fixed::from_int(100));
    bank.loans = Fixed::from_int(70);
    bank.record_default(Fixed::from_int(5));
    bank.record_default(Fixed::from_int(2));
    assert_eq!(bank.non_performing_loans, Fixed::from_int(7));
    bank.record_repayment(Fixed::from_int(20));
    assert_eq!(bank.loans, Fixed::from_int(50));
    bank.record_repayment(Fixed::from_int(80));
    assert_eq!(bank.loans, Fixed::zero());
}

#[test]
fn central_bank_follows_its_rule() {
    let target = Fixed::from_micros(20_000);
    let mut central_bank = CentralBankData::new(target);
    assert_eq!(central_bank.policy_rate, target);
    assert_eq!(central_bank.current_inflation, target);
    assert_eq!(central_bank.previous_rate, target);
    assert_eq!(central_bank.output_gap, Fixed::zero());
    let pi = Fixed::from_micros(1_500_000);
    let y = Fixed::from_micros(500_000);
    let smoothing = Fixed::from_micros(800_000);
    let lower = Fixed::from_micros(1_000);
    central_bank.step(pi, y, smoothing, lower);
    assert_eq!(central_bank.policy_rate, target);
    central_bank.update_observations(Fixed::from_micros(50_000), Fixed::zero());
    assert_eq!(central_bank.current_inflation, Fixed::from_micros(50_000));
    central_bank.step(pi, y, smoothing, lower);
    assert_eq!(central_bank.policy_rate, Fixed::from_micros(29_000));
    assert_eq!(central_bank.previous_rate, target);
    central_bank.update_observations(Fixed::from_micros(20_000), Fixed::from_micros(40_000));
    central_bank.step(pi, y, smoothing, lower);
    assert_eq!(central_bank.policy_rate, Fixed::from_micros(24_000));
    assert_eq!(central_bank.previous_rate, Fixed::from_micros(29_000));
}

#[test]
fn policy_rate_respects_lower_bound() {
    let mut central_bank = CentralBankData::new(Fixed::from_micros(20_000));
    central_bank.update_observations(Fixed::from_int(-1), Fixed::zero());
    central_bank.step(
        Fixed::from_micros(1_500_000),
        Fixed::from_micros(500_000),
        Fixed::from_micros(800_000),
        Fixed::from_micros(1_000),
    );
    assert_eq!(central_bank.policy_rate, Fixed::from_micros(1_000));
}

#[test]
fn government_collects_spends_and_closes() {
    let mut government = GovernmentData::new();
    assert_eq!(government.debt, Fixed::zero());
    let tax = government.collect_corporate_tax(Fixed::from_int(1000), Fixed::from_micros(190_000));
    assert_eq!(tax, Fixed::from_int(190));
    let none = government.collect_corporate_tax(
        Fixed::from_int(-1000),
        Fixed::from_micros(190_000),
    );
    assert_eq!(none, Fixed::zero());
    let income_tax = government.collect_income_tax(
        Fixed::from_int(550),
        Fixed::from_micros(200_000),
    );
    assert_eq!(income_tax, Fixed::from_int(110));
    assert_eq!(government.tax_revenue, Fixed::from_int(300));

    government.gdp_estimate = Fixed::from_int(1000);
    let spending = government.calculate_spending(Fixed::from_micros(400_000));
    assert_eq!(spending, Fixed::from_int(400));
    assert_eq!(government.expenditure, Fixed::from_int(400));

    let benefit = government.pay_unemployment_benefit(
        Fixed::from_int(100),
        5,
        Fixed::from_micros(400_000),
    );
    assert_eq!(benefit, Fixed::from_int(200));
    assert_eq!(government.transfer_spending, Fixed::from_int(200));

    government.deficit = Fixed::from_int(-100);
    government.apply_fiscal_rule(Fixed::from_micros(30_000), Fixed::from_micros(100_000));
    assert_eq!(government.expenditure, Fixed::from_int(393));

    government.end_period();
    assert_eq!(government.deficit, Fixed::from_int(-293));
    assert_eq!(government.debt, Fixed::from_int(293));

    government.begin_period();
    assert_eq!(government.tax_revenue, Fixed::zero());
    assert_eq!(government.expenditure, Fixed::zero());
    assert_eq!(government.transfer_spending, Fixed::zero());
    assert_eq!(government.debt, Fixed::from_int(293));
    assert_eq!(government.deficit, Fixed::from_int(-293));
}

#[test]
fn surplus_reduces_debt() {
    let mut government = GovernmentData::new();
    government.debt = Fixed::from_int(500);
    government.tax_revenue = Fixed::from_int(300);
    government.expenditure = Fixed::from_int(100);
    government.transfer_spending = Fixed::from_int(50);
    government.end_period();
    assert_eq!(government.deficit, Fixed::from_int(150));
    assert_eq!(government.debt, Fixed::from_int(350));
}

#[test]
fn spending_ignores_negative_gdp() {
    let mut government = GovernmentData::new();
    government.gdp_estimate = Fixed::from_int(-1000);
    assert_eq!(government.calculate_spending(Fixed::from_micros(400_000)), Fixed::zero());
}

#[test]
fn fiscal_rule_needs_positive_gdp_and_floors_expenditure() {
    let mut idle = GovernmentData::new();
    idle.expenditure = Fixed::from_int(400);
    idle.deficit = Fixed::from_int(-100);
    idle.apply_fiscal_rule(Fixed::from_micros(30_000), Fixed::from_micros(100_000));
    assert_eq!(idle.expenditure, Fixed::from_int(400));

    let mut strained = GovernmentData::new();
    strained.gdp_estimate = Fixed::from_int(1000);
    strained.expenditure = Fixed::from_int(5);
    strained.deficit = Fixed::from_int(1000);
    strained.apply_fiscal_rule(Fixed::from_micros(30_000), Fixed::from_micros(100_000));
    assert_eq!(strained.expenditure, Fixed::zero());

    let mut easy = GovernmentData::new();
    easy.gdp_estimate = Fixed::from_int(1000);
    easy.expenditure = Fixed::from_int(400);
    easy.deficit = Fixed::zero();
    easy.apply_fiscal_rule(Fixed::from_micros(30_000), Fixed::from_micros(100_000));
    assert_eq!(easy.expenditure, Fixed::from_int(400));

    let mut at_target = GovernmentData::new();
    at_target.gdp_estimate = Fixed::from_int(1000);
    at_target.expenditure = Fixed::from_int(400);
    at_target.deficit = Fixed::from_int(-30);
    at_target.apply_fiscal_rule(Fixed::from_micros(30_000), Fixed::from_micros(100_000));
    assert_eq!(at_target.expenditure, Fixed::from_int(400));

    let mut just_above = GovernmentData::new();
    just_above.gdp_estimate = Fixed::from_int(1000);
    just_above.expenditure = Fixed::from_int(400);
    just_above.deficit = Fixed::from_int(40);
    just_above.apply_fiscal_rule(Fixed::from_micros(30_000), Fixed::from_micros(100_000));
    assert_eq!(just_above.expenditure, Fixed::from_int(399));

    let mut small = GovernmentData::new();
    small.gdp_estimate = Fixed::from_int(100);
    small.expenditure = Fixed::from_int(10);
    small.apply_fiscal_rule(Fixed::from_micros(30_000), Fixed::from_micros(100_000));
    assert_eq!(small.expenditure, Fixed::from_int(10));
    assert_eq!(small.tax_revenue, Fixed::zero());
    assert_eq!(small.debt, Fixed::zero());
}
