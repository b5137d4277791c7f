use rust_abm::agents::{BankData, FirmData, HouseholdData};
use rust_abm::config::Config;
use rust_abm::fixed::{Fixed, SCALE};
use rust_abm::markets::{
    clear_credit_market, clear_goods_market, clear_labor_market, CreditOutcome, GoodsOutcome,
    LaborMarketAgent, LaborOutcome,
};
use rust_abm::random::RandomStream;
use rust_abm::state::EconomyState;

fn idle_firm() -> FirmData {
    FirmData::new(
        "manufacturing".to_string(),
        0,
        Fixed::zero(),
        Fixed::zero(),
        Fixed::zero(),
        Fixed::zero(),
        Fixed::from_micros(150_000),
    )
}

fn borrower(cash: i64, equity: i64, turnover: i64) -> FirmData {
    let mut firm = idle_firm();
    firm.cash = Fixed::from_int(cash);
    firm.equity = Fixed::from_int(equity);
    firm.turnover = Fixed::from_int(turnover);
    firm
}

fn seller(price: i64, inventory: i64) -> FirmData {
    let mut firm = idle_firm();
    firm.price = Fixed::from_int(price);
    firm.inventory = Fixed::from_int(inventory);
    firm
}

fn consumer(consumption: i64) -> HouseholdData {
    let mut household = HouseholdData::new(
        Fixed::zero(),
        Fixed::zero(),
        Fixed::from_micros(800_000),
    );
    household.consumption = Fixed::from_int(consumption);
    household
}

fn idle_household() -> HouseholdData {
    HouseholdData::new(Fixed::zero(), Fixed::zero(), Fixed::from_micros(800_000))
}

fn economy(
    firms: Vec<FirmData>,
    households: Vec<HouseholdData>,
    banks: Vec<BankData>,
    config: Config,
) -> EconomyState {
    EconomyState::new(firms, households, banks, RandomStream::seeded(7), config)
}

fn certain_labor_config() -> Config {
    let mut config = Config::default();
    config.separation_rate = Fixed::zero();
    config.job_search_intensity = Fixed::one();
    config.matching_efficiency = Fixed::one();
    config
}

#[test]
fn empty_outcomes_are_zero() {
    let credit = CreditOutcome::default();
    assert_eq!(credit.total_lending, Fixed::zero());
    assert_eq!(credit.total_applications, 0);
    assert_eq!(credit.total_approvals, 0);
    assert_eq!(credit.total_rejections, 0);
    assert_eq!(credit.average_rate, Fixed::zero());
    assert_eq!(credit.total_defaults, 0);
    let goods = GoodsOutcome::default();
    assert_eq!(goods.total_sales, Fixed::zero());
    assert_eq!(goods.average_price, Fixed::zero());
    assert_eq!(goods.excess_demand, Fixed::zero());
    assert_eq!(goods.inflation, Fixed::zero());
    let labor = LaborOutcome::default();
    assert_eq!(labor.total_employed, 0);
    assert_eq!(labor.total_unemployed, 0);
    assert_eq!(labor.unemployment_rate, Fixed::zero());
    assert_eq!(labor.average_wage, Fixed::zero());
    assert_eq!(labor.total_matches, 0);
    assert_eq!(labor.total_separations, 0);
}

#[test]
fn credit_market_extends_an_approved_loan() {
    let bank = BankData::new(Fixed::from_int(1000), Fixed::from_int(100));
    let mut state = economy(vec![borrower(-100, 60, 50)], vec![], vec![bank], Config::default());
    clear_credit_market(&mut state);
    assert_eq!(state.credit_last.total_lending, Fixed::from_int(100));
    assert_eq!(state.credit_last.total_applications, 1);
    assert_eq!(state.credit_last.total_approvals, 1);
    assert_eq!(state.credit_last.total_rejections, 0);
    assert_eq!(state.credit_last.average_rate, Fixed::from_micros(50_000));
    assert_eq!(state.credit_last.total_defaults, 0);
    assert_eq!(state.firms[0].cash, Fixed::zero());
    assert_eq!(state.firms[0].debt, Fixed::from_int(100));
    assert_eq!(state.banks[0].loans, Fixed::from_int(100));
    assert_eq!(state.banks[0].deposits, Fixed::from_int(100));
}

#[test]
fn credit_market_rejects_under_rationing_only() {
    let bank = BankData::new(Fixed::from_int(1000), Fixed::from_int(100));
    let mut rationed = economy(vec![borrower(-100, 10, 50)], vec![], vec![bank], Config::default());
    clear_credit_market(&mut rationed);
    assert_eq!(rationed.credit_last.total_applications, 1);
    assert_eq!(rationed.credit_last.total_approvals, 0);
    assert_eq!(rationed.credit_last.total_rejections, 1);
    assert_eq!(rationed.credit_last.total_lending, Fixed::zero());
    assert_eq!(rationed.credit_last.average_rate, Fixed::zero());
    assert_eq!(rationed.firms[0].cash, Fixed::from_int(-100));
    assert_eq!(rationed.firms[0].debt, Fixed::zero());
    assert_eq!(rationed.banks[0].loans, Fixed::zero());

    let mut config = Config::default();
    config.rationing = false;
    let mut open = economy(vec![borrower(-100, 10, 50)], vec![], vec![bank], config);
    clear_credit_market(&mut open);
    assert_eq!(open.credit_last.total_approvals, 1);
    assert_eq!(open.credit_last.total_rejections, 0);
    assert_eq!(open.firms[0].cash, Fixed::zero());
    assert_eq!(open.firms[0].debt, Fixed::from_int(100));
    assert_eq!(open.banks[0].loans, Fixed::from_int(100));
}

#[test]
fn credit_market_skips_firms_with_cash_and_failed_firms() {
    let bank = BankData::new(Fixed::from_int(1000), Fixed::from_int(100));
    let mut failed = borrower(-100, 60, 50);
    failed.bankrupt = true;
    let mut state = economy(
        vec![borrower(0, 60, 50), borrower(25, 60, 50), failed],
        vec![],
        vec![bank],
        Config::default(),
    );
    let before = state.firms.clone();
    clear_credit_market(&mut state);
    assert_eq!(state.credit_last, CreditOutcome::default());
    assert_eq!(state.firms, before);
}

#[test]
fn banks_take_turns() {
    let bank = BankData::new(Fixed::from_int(1000), Fixed::from_int(100));
    let mut dearer = bank;
    dearer.interest_rate = Fixed::from_micros(80_000);
    let mut state = economy(
        vec![borrower(-100, 60, 50), borrower(-40, 60, 50), borrower(-10, 60, 50)],
        vec![],
        vec![bank, dearer],
        Config::default(),
    );
    clear_credit_market(&mut state);
    assert_eq!(state.banks[0].loans, Fixed::from_int(110));
    assert_eq!(state.banks[1].loans, Fixed::from_int(40));
    assert_eq!(state.credit_last.total_applications, 3);
    assert_eq!(state.credit_last.total_approvals, 3);
    assert_eq!(state.credit_last.total_lending, Fixed::from_int(150));
    assert_eq!(state.credit_last.average_rate, Fixed::from_micros(60_000));
}

#[test]
fn banks_absorb_defaults_of_failed_firms() {
    let mut lender = BankData::new(Fixed::from_int(1000), Fixed::from_int(100));
    lender.loans = Fixed::from_int(200);
    let mut large = BankData::new(Fixed::from_int(1000), Fixed::from_int(100));
    large.loans = Fixed::from_int(900);
    let idle = BankData::new(Fixed::from_int(1000), Fixed::from_int(100));
    let mut failed = idle_firm();
    failed.bankrupt = true;
    failed.debt = Fixed::from_int(500);
    let mut settled = idle_firm();
    settled.bankrupt = true;
    let mut state = economy(
        vec![failed, settled],
        vec![],
        vec![lender, idle, large],
        Config::default(),
    );
    clear_credit_market(&mut state);
    assert_eq!(state.banks[0].non_performing_loans, Fixed::from_int(2));
    assert_eq!(state.banks[1].non_performing_loans, Fixed::zero());
    assert_eq!(state.banks[2].non_performing_loans, Fixed::from_int(5));
    assert_eq!(state.credit_last.total_defaults, 2);
    assert_eq!(state.credit_last.total_applications, 0);
    assert_eq!(state.banks[0].loans, Fixed::from_int(200));
    assert!(state.firms[0].default_settled);
    assert!(!state.firms[1].default_settled);
    assert_eq!(state.firms[0].debt, Fixed::from_int(500));
}

#[test]
fn a_default_is_booked_in_one_clearing_only() {
    let mut lender = BankData::new(Fixed::from_int(1000), Fixed::from_int(100));
    lender.loans = Fixed::from_int(100);
    let mut failed = idle_firm();
    failed.bankrupt = true;
    failed.debt = Fixed::from_int(50);
    let mut state = economy(vec![failed], vec![], vec![lender], Config::default());
    clear_credit_market(&mut state);
    assert_eq!(state.banks[0].non_performing_loans, Fixed::from_micros(500_000));
    assert_eq!(state.credit_last.total_defaults, 1);
    assert!(state.firms[0].default_settled);
    clear_credit_market(&mut state);
    assert_eq!(state.banks[0].non_performing_loans, Fixed::from_micros(500_000));
    assert_eq!(state.credit_last.total_defaults, 0);
    assert_eq!(state.firms[0].debt, Fixed::from_int(50));
    clear_credit_market(&mut state);
    assert_eq!(state.banks[0].non_performing_loans, Fixed::from_micros(500_000));
}

#[test]
fn a_default_waits_for_a_clearing_with_banks() {
    let mut failed = idle_firm();
    failed.bankrupt = true;
    failed.debt = Fixed::from_int(50);
    let mut state = economy(vec![failed], vec![], vec![], Config::default());
    clear_credit_market(&mut state);
    assert!(!state.firms[0].default_settled);
    let mut lender = BankData::new(Fixed::from_int(1000), Fixed::from_int(100));
    lender.loans = Fixed::from_int(100);
    state.banks.push(lender);
    clear_credit_market(&mut state);
    assert!(state.firms[0].default_settled);
    assert_eq!(state.banks[0].non_performing_loans, Fixed::from_micros(500_000));
}

#[test]
fn lending_never_shrinks_the_books() {
    let mut bank = BankData::new(Fixed::from_int(1000), Fixed::from_int(100));
    bank.loans = Fixed::from_int(70);
    bank.deposits = Fixed::from_int(30);
    let mut state = economy(
        vec![borrower(-100, 60, 50), borrower(-40, 1, 50), borrower(5, 60, 50)],
        vec![],
        vec![bank],
        Config::default(),
    );
    clear_credit_market(&mut state);
    assert_eq!(state.banks[0].loans, Fixed::from_int(170));
    assert_eq!(state.banks[0].deposits, Fixed::from_int(130));
    assert_eq!(state.credit_last.total_rejections, 1);
}

#[test]
fn certain_search_and_match_hire_at_the_blended_wage() {
    let mut config = certain_labor_config();
    config.wage_stickiness = Fixed::from_micros(750_000);
    let mut hiring = idle_firm();
    hiring.employees = 1;
    hiring.wage_rate = Fixed::from_int(100);
    let mut state = economy(vec![hiring], vec![idle_household(), idle_household()], vec![], config);
    state.firms[0].vacancies = 1;
    state.households[0].become_employed(0, Fixed::from_int(200));
    clear_labor_market(&mut state);
    let hired = state.households[1];
    assert!(hired.employed);
    assert_eq!(hired.employer_id, Some(0));
    assert_eq!(hired.wage, Fixed::from_int(175));
    assert_eq!(state.firms[0].employees, 2);
    assert_eq!(state.firms[0].wage_rate, Fixed::from_int(175));
    assert_eq!(state.firms[0].wage_bill, Fixed::from_int(350));
    assert_eq!(state.firms[0].vacancies, 0);
    assert_eq!(state.labor_last.total_matches, 1);
    assert_eq!(state.labor_last.total_separations, 0);
    assert_eq!(state.labor_last.average_wage, Fixed::from_micros(187_500_000));
    assert_eq!(state.labor_last.unemployment_rate, Fixed::zero());
}

#[test]
fn credit_market_without_banks_does_nothing() {
    let mut state = economy(vec![borrower(-100, 60, 50)], vec![], vec![], Config::default());
    state.credit_last.total_lending = Fixed::from_int(9);
    state.credit_last.total_applications = 4;
    clear_credit_market(&mut state);
    assert_eq!(state.credit_last, CreditOutcome::default());
    assert_eq!(state.firms[0].cash, Fixed::from_int(-100));
    assert_eq!(state.firms[0].debt, Fixed::zero());
}

#[test]
fn goods_market_single_firm() {
    let mut state = economy(vec![seller(2, 10)], vec![consumer(15)], vec![], Config::default());
    state.goods_average_price = Fixed::from_int(2);
    clear_goods_market(&mut state);
    assert_eq!(state.firms[0].inventory, Fixed::from_micros(2_500_000));
    assert_eq!(state.firms[0].turnover, Fixed::from_int(15));
    assert_eq!(state.firms[0].markup, Fixed::from_micros(125_000));
    assert_eq!(state.goods_last.total_sales, Fixed::from_int(15));
    assert_eq!(state.goods_last.average_price, Fixed::from_int(2));
    assert_eq!(state.goods_last.inflation, Fixed::zero());
    assert_eq!(state.goods_last.excess_demand, Fixed::from_int(-5));
    assert_eq!(state.goods_average_price, Fixed::from_int(2));
}

#[test]
fn goods_market_sells_no_more_than_is_on_offer() {
    let mut state = economy(vec![seller(2, 10)], vec![consumer(15)], vec![], Config::default());
    state.government.expenditure = Fixed::from_int(10);
    clear_goods_market(&mut state);
    assert_eq!(state.firms[0].inventory, Fixed::zero());
    assert_eq!(state.firms[0].turnover, Fixed::from_int(20));
    assert_eq!(state.firms[0].markup, Fixed::from_micros(175_000));
    assert_eq!(state.goods_last.total_sales, Fixed::from_int(20));
    assert_eq!(state.goods_last.excess_demand, Fixed::from_int(5));
    assert_eq!(state.goods_last.inflation, Fixed::one());
}

#[test]
fn goods_market_favours_the_cheaper_firm() {
    let mut state = economy(
        vec![seller(2, 10), seller(3, 10)],
        vec![consumer(4), consumer(6)],
        vec![],
        Config::default(),
    );
    clear_goods_market(&mut state);
    assert_eq!(state.firms[0].turnover, Fixed::from_nanos(9_999_999_990));
    assert_eq!(state.firms[0].inventory, Fixed::from_nanos(5_000_000_005));
    assert_eq!(state.firms[0].markup, Fixed::from_micros(100_000));
    assert_eq!(state.firms[1].turnover, Fixed::zero());
    assert_eq!(state.firms[1].inventory, Fixed::from_int(10));
    assert_eq!(state.firms[1].markup, Fixed::from_micros(50_000));
    assert_eq!(state.goods_last.total_sales, Fixed::from_nanos(9_999_999_990));
    assert_eq!(state.goods_last.average_price, Fixed::from_micros(2_500_000));
    assert_eq!(state.goods_last.inflation, Fixed::from_micros(1_500_000));
    assert_eq!(state.goods_last.excess_demand, Fixed::from_int(-40));
    assert_eq!(state.goods_average_price, Fixed::from_micros(2_500_000));
}

#[test]
fn goods_market_without_active_firms_carries_the_price() {
    let mut failed = seller(2, 10);
    failed.bankrupt = true;
    failed.turnover = Fixed::from_int(3);
    let mut state = economy(vec![failed], vec![consumer(15)], vec![], Config::default());
    state.goods_average_price = Fixed::from_micros(1_700_000);
    clear_goods_market(&mut state);
    assert_eq!(state.goods_last.total_sales, Fixed::zero());
    assert_eq!(state.goods_last.average_price, Fixed::from_micros(1_700_000));
    assert_eq!(state.goods_last.inflation, Fixed::zero());
    assert_eq!(state.goods_last.excess_demand, Fixed::from_int(15));
    assert_eq!(state.goods_average_price, Fixed::from_micros(1_700_000));
    assert_eq!(state.firms[0].inventory, Fixed::from_int(10));
    assert_eq!(state.firms[0].turnover, Fixed::from_int(3));
}

#[test]
fn goods_market_has_no_inflation_without_a_previous_price() {
    let mut state = economy(vec![seller(2, 10)], vec![consumer(15)], vec![], Config::default());
    state.goods_average_price = Fixed::zero();
    clear_goods_market(&mut state);
    assert_eq!(state.goods_last.inflation, Fixed::zero());
    assert_eq!(state.goods_average_price, Fixed::from_int(2));
}

#[test]
fn labor_market_matches_seekers_to_vacancies() {
    let mut hiring = idle_firm();
    hiring.vacancies = 2;
    hiring.wage_rate = Fixed::from_int(100);
    let mut state = economy(
        vec![hiring],
        vec![idle_household(), idle_household(), idle_household()],
        vec![],
        certain_labor_config(),
    );
    clear_labor_market(&mut state);
    assert_eq!(state.labor_last.total_matches, 2);
    assert_eq!(state.labor_last.total_separations, 0);
    assert_eq!(state.labor_last.total_employed, 2);
    assert_eq!(state.labor_last.total_unemployed, 1);
    assert_eq!(state.labor_last.unemployment_rate, Fixed::from_nanos(333_333_333));
    assert_eq!(state.labor_last.average_wage, Fixed::from_int(100));
    assert_eq!(state.firms[0].employees, 2);
    assert_eq!(state.firms[0].vacancies, 0);
    assert_eq!(state.firms[0].wage_bill, Fixed::from_int(200));
    assert!(state.households[0].employed);
    assert_eq!(state.households[0].employer_id, Some(0));
    assert_eq!(state.households[0].wage, Fixed::from_int(100));
    assert!(state.households[1].employed);
    assert!(!state.households[2].employed);
    assert_eq!(state.households[2].transfer_income, Fixed::from_int(40));
    assert_eq!(state.households[0].transfer_income, Fixed::zero());
    assert_eq!(state.government.transfer_spending, Fixed::from_int(40));
}

#[test]
fn labor_market_separates_with_certainty() {
    let mut employer = idle_firm();
    employer.employees = 2;
    employer.wage_rate = Fixed::from_int(100);
    let mut config = Config::default();
    config.separation_rate = Fixed::one();
    config.job_search_intensity = Fixed::zero();
    let mut state = economy(
        vec![employer],
        vec![idle_household(), idle_household(), idle_household()],
        vec![],
        config,
    );
    assert!(state.households[0].employed);
    assert!(state.households[1].employed);
    assert!(!state.households[2].employed);
    clear_labor_market(&mut state);
    assert_eq!(state.labor_last.total_separations, 2);
    assert_eq!(state.labor_last.total_matches, 0);
    assert_eq!(state.labor_last.total_employed, 0);
    assert_eq!(state.labor_last.total_unemployed, 3);
    assert_eq!(state.labor_last.unemployment_rate, Fixed::one());
    assert_eq!(state.labor_last.average_wage, Fixed::zero());
    assert_eq!(state.firms[0].employees, 0);
    assert_eq!(state.firms[0].wage_bill, Fixed::zero());
    assert_eq!(state.households[0].employer_id, None);
    assert_eq!(state.households[0].wage, Fixed::zero());
    assert_eq!(state.households[2].transfer_income, Fixed::zero());
    assert_eq!(state.government.transfer_spending, Fixed::zero());
}

#[test]
fn matched_wage_leans_on_the_average() {
    let mut employer = idle_firm();
    employer.employees = 1;
    employer.wage_rate = Fixed::from_int(200);
    let mut hiring = idle_firm();
    hiring.vacancies = 1;
    hiring.wage_rate = Fixed::from_int(100);
    let mut state = economy(
        vec![employer, hiring],
        vec![idle_household(), idle_household()],
        vec![],
        certain_labor_config(),
    );
    clear_labor_market(&mut state);
    assert_eq!(state.labor_last.total_matches, 1);
    assert_eq!(state.households[1].employer_id, Some(1));
    assert_eq!(state.households[1].wage, Fixed::from_int(180));
    assert_eq!(state.firms[1].wage_rate, Fixed::from_int(180));
    assert_eq!(state.firms[1].employees, 1);
    assert_eq!(state.labor_last.average_wage, Fixed::from_int(190));
    assert_eq!(state.labor_last.total_unemployed, 0);
    assert_eq!(state.labor_last.unemployment_rate, Fixed::zero());
}

#[test]
fn failed_firms_do_not_hire() {
    let mut failed = idle_firm();
    failed.vacancies = 5;
    failed.bankrupt = true;
    let mut state = economy(vec![failed], vec![idle_household()], vec![], certain_labor_config());
    clear_labor_market(&mut state);
    assert_eq!(state.labor_last.total_matches, 0);
    assert_eq!(state.firms[0].employees, 0);
    assert_eq!(state.firms[0].vacancies, 5);
    assert!(!state.households[0].employed);
}

#[test]
fn matching_may_fail_with_certainty() {
    let mut hiring = idle_firm();
    hiring.vacancies = 2;
    let mut config = certain_labor_config();
    config.matching_efficiency = Fixed::from_int(-1);
    let mut state = economy(vec![hiring], vec![idle_household(), idle_household()], vec![], config);
    clear_labor_market(&mut state);
    assert_eq!(state.labor_last.total_matches, 0);
    assert_eq!(state.firms[0].vacancies, 2);
    assert_eq!(state.labor_last.total_unemployed, 2);
}

#[test]
fn labor_market_without_households() {
    let mut hiring = idle_firm();
    hiring.vacancies = 2;
    let mut state = economy(vec![hiring], vec![], vec![], certain_labor_config());
    clear_labor_market(&mut state);
    assert_eq!(state.labor_last, LaborOutcome::default());
}

#[test]
fn labor_market_counts_add_up() {
    let mut firms = Vec::new();
    for i in 0..4u32 {
        let mut firm = idle_firm();
        firm.employees = 2 + i;
        firm.vacancies = 3;
        firm.wage_rate = Fixed::from_int(100 + i as i64);
        firms.push(firm);
    }
    let mut households = Vec::new();
    for _ in 0..30 {
        households.push(idle_household());
    }
    let mut state = economy(firms, households, vec![], Config::default());
    for _ in 0..20 {
        clear_labor_market(&mut state);
        let outcome = state.labor_last;
        assert_eq!(outcome.total_employed + outcome.total_unemployed, 30);
        assert!(outcome.unemployment_rate.raw >= 0);
        assert!(outcome.unemployment_rate.raw <= SCALE);
        let employed = state.households.iter().filter(|h| h.employed).count();
        assert_eq!(outcome.total_employed, employed);
        for household in state.households.iter() {
            if let Some(employer) = household.employer_id {
                assert!(employer < state.firms.len());
                assert!(household.employed);
            }
        }
        for firm in state.firms.iter_mut() {
            firm.vacancies = 2;
        }
    }
}

#[test]
fn labor_market_agent_clears_the_market() {
    let mut hiring = idle_firm();
    hiring.vacancies = 1;
    hiring.wage_rate = Fixed::from_int(100);
    let mut state = economy(vec![hiring], vec![idle_household()], vec![], certain_labor_config());
    let agent = LaborMarketAgent;
    agent.step(&mut state);
    assert_eq!(state.labor_last.total_matches, 1);
    assert!(state.households[0].employed);
}

#[test]
fn no_matches_without_seekers_or_vacancies() {
    let mut employer = idle_firm();
    employer.employees = 2;
    employer.wage_rate = Fixed::from_int(100);
    let mut without_seekers = economy(
        vec![employer],
        vec![idle_household(), idle_household()],
        vec![],
        certain_labor_config(),
    );
    without_seekers.firms[0].vacancies = 3;
    clear_labor_market(&mut without_seekers);
    assert_eq!(without_seekers.labor_last.total_matches, 0);
    assert_eq!(without_seekers.labor_last.total_employed, 2);
    assert_eq!(without_seekers.firms[0].vacancies, 3);
    assert_eq!(without_seekers.firms[0].employees, 2);

    let mut without_vacancies = economy(
        vec![idle_firm()],
        vec![idle_household(), idle_household()],
        vec![],
        certain_labor_config(),
    );
    clear_labor_market(&mut without_vacancies);
    assert_eq!(without_vacancies.labor_last.total_matches, 0);
    assert_eq!(without_vacancies.labor_last.total_unemployed, 2);
    assert_eq!(without_vacancies.firms[0].employees, 0);
}
