//! The initial population: how sampled values become firms, households and
//! banks, and the shapes of the distributions they are sampled from.
//!
//! Sampling itself is left to the caller, who draws each value from the
//! distribution named here, firms first, then households, then banks.

use crate::agents::{BankData, FirmData, HouseholdData};
use crate::config::Config;
use crate::fixed::Fixed;
use crate::state::EconomyState;
use vstd::prelude::*;

verus! {

/// The number of firms of a run that names none.
pub const DEFAULT_FIRMS: usize = 100;

/// The number of households of a run that names none.
pub const DEFAULT_HOUSEHOLDS: usize = 500;

/// The number of banks of a run that names none.
pub const DEFAULT_BANKS: usize = 10;

/// The number of periods of a run that names none.
pub const DEFAULT_PERIODS: usize = 50;

/// The seed of a run that names none.
pub const DEFAULT_SEED: u64 = 42;

/// The least head count a new firm can have.
pub const EMPLOYEES_MIN: u32 = 1;

/// The bound that the head count of a new firm stays below.
pub const EMPLOYEES_BOUND: u32 = 50;

/// A log-normal distribution, by its median and by the standard deviation
/// of its logarithm.
#[derive(Clone, Copy, Debug, PartialEq)]
pub struct LogNormalShape {
    pub median: Fixed,
    pub sigma: Fixed,
}

/// The distribution of the wage rate of a new firm.
pub fn firm_wage_shape() -> (shape: LogNormalShape)
    ensures
        shape == (LogNormalShape {
            median: Fixed::from_int(8_750),
            sigma: Fixed::from_micros(300_000),
        }),
{
    LogNormalShape { median: Fixed::from_int(8_750), sigma: Fixed::from_micros(300_000) }
}

/// The distribution of the turnover of a new firm.
pub fn firm_turnover_shape() -> (shape: LogNormalShape)
    ensures
        shape == (LogNormalShape {
            median: Fixed::from_int(100_000),
            sigma: Fixed::one(),
        }),
{
    LogNormalShape { median: Fixed::from_int(100_000), sigma: Fixed::one() }
}

/// The distribution of the capital of a new firm.
pub fn firm_capital_shape() -> (shape: LogNormalShape)
    ensures
        shape == (LogNormalShape {
            median: Fixed::from_int(50_000),
            sigma: Fixed::one(),
        }),
{
    LogNormalShape { median: Fixed::from_int(50_000), sigma: Fixed::one() }
}

/// The distribution of the cash of a new firm.
pub fn firm_cash_shape() -> (shape: LogNormalShape)
    ensures
        shape == (LogNormalShape {
            median: Fixed::from_int(10_000),
            sigma: Fixed::from_micros(800_000),
        }),
{
    LogNormalShape {
        median: Fixed::from_int(10_000),
        sigma: Fixed::from_micros(800_000),
    }
}

/// The distribution of the capital of a new bank.
pub fn bank_capital_shape() -> (shape: LogNormalShape)
    ensures
        shape == (LogNormalShape {
            median: Fixed::from_int(1_000_000_000),
            sigma: Fixed::from_micros(500_000),
        }),
{
    LogNormalShape {
        median: Fixed::from_int(1_000_000_000),
        sigma: Fixed::from_micros(500_000),
    }
}

/// The distribution of the yearly income of a new household: its median is
/// the configured mean income, its spread the configured deviation relative
/// to that mean.
pub fn household_income_shape(config: &Config) -> (shape: LogNormalShape)
    requires
        config.income_mean.raw != 0,
    ensures
        shape == (LogNormalShape {
            median: config.income_mean,
            sigma: config.income_std.over(config.income_mean),
        }),
{
    LogNormalShape {
        median: config.income_mean,
        sigma: config.income_std.over(config.income_mean),
    }
}

/// The values sampled for one firm.
#[derive(Clone, Copy, Debug, PartialEq)]
pub struct FirmSample {
    pub employees: u32,
    pub wage_rate: Fixed,
    pub turnover: Fixed,
    pub capital: Fixed,
    pub cash: Fixed,
}

/// The values sampled for one household: its yearly income, a Pareto
/// variate of scale one for its wealth, and its propensity to consume.
#[derive(Clone, Copy, Debug, PartialEq)]
pub struct HouseholdSample {
    pub yearly_income: Fixed,
    pub wealth_variate: Fixed,
    pub mpc: Fixed,
}

/// The least propensity to consume of a new household.
pub open spec fn mpc_floor() -> Fixed {
    Fixed::from_micros(100_000)
}

/// The greatest propensity to consume of a new household.
pub open spec fn mpc_ceiling() -> Fixed {
    Fixed::from_micros(990_000)
}

/// The share of its capital that a new bank holds as reserves.
pub open spec fn reserve_share() -> Fixed {
    Fixed::from_micros(100_000)
}

/// The household that a sample stands for: its income is a quarter of the
/// yearly income; its wealth is that income times the excess of the variate
/// over one, and not negative; its propensity to consume is kept within
/// its floor and ceiling.
pub open spec fn household_from(sample: HouseholdSample) -> HouseholdData {
    let income = sample.yearly_income.over_count(4);
    HouseholdData {
        income,
        wealth: sample.wealth_variate.minus(Fixed::one()).times(income).max(Fixed::zero()),
        consumption: Fixed::zero(),
        savings: Fixed::zero(),
        mpc: sample.mpc.max(mpc_floor()).min(mpc_ceiling()),
        employed: false,
        employer_id: None,
        wage: Fixed::zero(),
        transfer_income: Fixed::zero(),
    }
}

/// The bank that a sampled capital stands for: a tenth of it is reserves.
pub open spec fn bank_from(capital: Fixed) -> BankData {
    BankData {
        capital,
        reserves: capital.times(reserve_share()),
        loans: Fixed::zero(),
        deposits: Fixed::zero(),
        non_performing_loans: Fixed::zero(),
        interest_rate: crate::agents::bank::initial_lending_rate(),
        profit: Fixed::zero(),
        interest_income: Fixed::zero(),
        interest_expense: Fixed::zero(),
    }
}

/// Whether `firm` is the new firm that `sample` stands for, in the sector
/// labelled `sector` and with the markup `markup`.
pub open spec fn is_firm_from(
    firm: FirmData,
    sample: FirmSample,
    sector: Seq<char>,
    markup: Fixed,
) -> bool {
    &&& firm.sector@ == sector
    &&& firm.employees == sample.employees
    &&& firm.wage_rate == sample.wage_rate
    &&& firm.wage_bill == sample.wage_rate.times_count(sample.employees as u64)
    &&& firm.turnover == sample.turnover
    &&& firm.capital == sample.capital
    &&& firm.cash == sample.cash
    &&& firm.debt == Fixed::zero()
    &&& firm.equity == sample.capital.plus(sample.cash)
    &&& firm.price == Fixed::one()
    &&& firm.output == sample.turnover
    &&& firm.inventory == Fixed::zero()
    &&& firm.profit == Fixed::zero()
    &&& firm.markup == markup
    &&& firm.vacancies == 0
    &&& firm.desired_production == sample.turnover
    &&& !firm.bankrupt
    &&& !firm.default_settled
}

impl EconomyState {
    /// One firm for each sample, in order. The sector labels are handed out
    /// in turn, starting over when they run out; every firm starts with the
    /// configured markup.
    pub fn create_firms(samples: &Vec<FirmSample>, config: &Config) -> (firms: Vec<FirmData>)
        requires
            samples@.len() > 0 ==> config.sectors@.len() > 0,
        ensures
            firms@.len() == samples@.len(),
            forall|i: int|
                0 <= i < samples@.len() ==> is_firm_from(
                    #[trigger] firms@[i],
                    samples@[i],
                    config.sectors@[i % config.sectors@.len() as int]@,
                    config.price_markup,
                ),
    {
        let n: usize = samples.len();
        let mut firms: Vec<FirmData> = Vec::with_capacity(n);
        let mut i: usize = 0;
        while i < n
            invariant
                i <= n,
                n == samples@.len(),
                n > 0 ==> config.sectors@.len() > 0,
                firms@.len() == i,
                forall|t: int|
                    0 <= t < i ==> is_firm_from(
                        #[trigger] firms@[t],
                        samples@[t],
                        config.sectors@[t % config.sectors@.len() as int]@,
                        config.price_markup,
                    ),
            decreases n - i,
        {
            let sector = config.sectors[i % config.sectors.len()].clone();
            let sample = samples[i];
            firms.push(
                FirmData::new(
                    sector,
                    sample.employees,
                    sample.wage_rate,
                    sample.turnover,
                    sample.capital,
                    sample.cash,
                    config.price_markup,
                ),
            );
            i = i + 1;
        }
        firms
    }

    /// One household for each sample, in order.
    pub fn create_households(samples: &Vec<HouseholdSample>) -> (households: Vec<HouseholdData>)
        ensures
            households@.len() == samples@.len(),
            forall|h: int|
                0 <= h < samples@.len() ==> #[trigger] households@[h] == household_from(
                    samples@[h],
                ),
    {
        let n: usize = samples.len();
        let mut households: Vec<HouseholdData> = Vec::with_capacity(n);
        let mut h: usize = 0;
        while h < n
            invariant
                h <= n,
                n == samples@.len(),
                households@.len() == h,
                forall|t: int|
                    0 <= t < h ==> #[trigger] households@[t] == household_from(samples@[t]),
            decreases n - h,
        {
            let sample = samples[h];
            let income = sample.yearly_income.over_count(4);
            let wealth = sample.wealth_variate.minus(Fixed::one()).times(income);
            let mpc = sample.mpc.max(Fixed::from_micros(100_000)).min(Fixed::from_micros(990_000));
            households.push(HouseholdData::new(income, wealth.max(Fixed::zero()), mpc));
            h = h + 1;
        }
        households
    }

    /// One bank for each sampled capital, in order.
    pub fn create_banks(capitals: &Vec<Fixed>) -> (banks: Vec<BankData>)
        ensures
            banks@.len() == capitals@.len(),
            forall|j: int|
                0 <= j < capitals@.len() ==> #[trigger] banks@[j] == bank_from(capitals@[j]),
    {
        let n: usize = capitals.len();
        let mut banks: Vec<BankData> = Vec::with_capacity(n);
        let mut j: usize = 0;
        while j < n
            invariant
                j <= n,
                n == capitals@.len(),
                banks@.len() == j,
                forall|t: int| 0 <= t < j ==> #[trigger] banks@[t] == bank_from(capitals@[t]),
            decreases n - j,
        {
            let capital = capitals[j];
            let reserves = capital.times(Fixed::from_micros(100_000));
            banks.push(BankData::new(capital, reserves));
            j = j + 1;
        }
        banks
    }
}

} // verus!
