//! The shared state of the economy and the sequence of phases that moves it
//! forward by one period.

use crate::agents::{
    BankData, CentralBankData, FirmAgent, FirmData, GovernmentData, HouseholdAgent, HouseholdData,
};
use crate::config::Config;
use crate::fixed::Fixed;
use crate::markets::credit::credit_cleared;
use crate::markets::goods::goods_cleared;
use crate::markets::labor::{
    labor_cleared, labor_draws, labor_settled, lemma_labor_ignores_history,
    lemma_labor_reads_own_draws, unemployment_rate,
};
use crate::markets::{
    clear_credit_market, clear_goods_market, clear_labor_market, CreditOutcome, GoodsOutcome,
    LaborOutcome,
};
use crate::random::{in_draw_range, RandomStream};
use vstd::prelude::*;

verus! {

/// The aggregate statistics of one completed period.
#[derive(Clone, Copy, Debug, PartialEq)]
pub struct PeriodRecord {
    pub period: u64,
    pub gdp: Fixed,
    pub inflation: Fixed,
    pub unemployment_rate: Fixed,
    pub average_wage: Fixed,
    pub policy_rate: Fixed,
    pub government_deficit: Fixed,
    pub government_debt: Fixed,
    pub total_lending: Fixed,
    pub firm_bankruptcies: usize,
    pub total_employment: usize,
}

impl PeriodRecord {
    /// The record in which every figure is zero.
    pub open spec fn empty() -> PeriodRecord {
        PeriodRecord {
            period: 0,
            gdp: Fixed::zero(),
            inflation: Fixed::zero(),
            unemployment_rate: Fixed::zero(),
            average_wage: Fixed::zero(),
            policy_rate: Fixed::zero(),
            government_deficit: Fixed::zero(),
            government_debt: Fixed::zero(),
            total_lending: Fixed::zero(),
            firm_bankruptcies: 0,
            total_employment: 0,
        }
    }
}

impl Default for PeriodRecord {
    fn default() -> (record: PeriodRecord)
        ensures
            record == PeriodRecord::empty(),
    {
        PeriodRecord {
            period: 0,
            gdp: Fixed::zero(),
            inflation: Fixed::zero(),
            unemployment_rate: Fixed::zero(),
            average_wage: Fixed::zero(),
            policy_rate: Fixed::zero(),
            government_deficit: Fixed::zero(),
            government_debt: Fixed::zero(),
            total_lending: Fixed::zero(),
            firm_bankruptcies: 0,
            total_employment: 0,
        }
    }
}

/// Everything the economy consists of. The state owns every agent; agents
/// refer to one another by position only.
pub struct EconomyState {
    pub firms: Vec<FirmData>,
    pub households: Vec<HouseholdData>,
    pub banks: Vec<BankData>,
    pub central_bank: CentralBankData,
    pub government: GovernmentData,
    /// The average price the goods market found last.
    pub goods_average_price: Fixed,
    pub goods_last: GoodsOutcome,
    pub labor_last: LaborOutcome,
    pub credit_last: CreditOutcome,
    pub config: Config,
    pub rng: RandomStream,
    pub records: Vec<PeriodRecord>,
    pub current_period: u64,
}

/// The economy as a mathematical value: the state without its generator,
/// of which only the draws handed out so far remain.
pub struct EconomyView {
    pub firms: Seq<FirmData>,
    pub households: Seq<HouseholdData>,
    pub banks: Seq<BankData>,
    pub central_bank: CentralBankData,
    pub government: GovernmentData,
    pub goods_average_price: Fixed,
    pub goods_last: GoodsOutcome,
    pub labor_last: LaborOutcome,
    pub credit_last: CreditOutcome,
    pub config: Config,
    pub drawn: Seq<u64>,
    pub records: Seq<PeriodRecord>,
    pub current_period: u64,
}

impl View for EconomyState {
    type V = EconomyView;

    open spec fn view(&self) -> EconomyView {
        EconomyView {
            firms: self.firms@,
            households: self.households@,
            banks: self.banks@,
            central_bank: self.central_bank,
            government: self.government,
            goods_average_price: self.goods_average_price,
            goods_last: self.goods_last,
            labor_last: self.labor_last,
            credit_last: self.credit_last,
            config: self.config,
            drawn: self.rng.history(),
            records: self.records@,
            current_period: self.current_period,
        }
    }
}

impl EconomyView {
    /// Whether every employer reference points at a firm.
    pub open spec fn references_valid(&self) -> bool {
        forall|h: int|
            0 <= h < self.households.len() ==> (#[trigger] self.households[h]).employer_within(
                self.firms.len(),
            )
    }

    /// Whether no bank has a negative loan book and no firm a negative
    /// inventory.
    pub open spec fn non_negative(&self) -> bool {
        &&& forall|j: int| 0 <= j < self.banks.len() ==> (#[trigger] self.banks[j]).loans.raw >= 0
        &&& forall|i: int|
            0 <= i < self.firms.len() ==> (#[trigger] self.firms[i]).inventory.raw >= 0
    }

    /// Whether every firm owes in `later` what it owes here.
    pub open spec fn debts_kept_by(&self, later: EconomyView) -> bool {
        &&& later.firms.len() == self.firms.len()
        &&& forall|i: int|
            0 <= i < self.firms.len() ==> (#[trigger] later.firms[i]).debt == self.firms[i].debt
    }

    /// Whether `later` has as many firms, households and banks, and every
    /// firm that has failed here is still failed there, with the same
    /// turnover and output.
    pub open spec fn failures_kept_by(&self, later: EconomyView) -> bool {
        &&& later.firms.len() == self.firms.len()
        &&& later.households.len() == self.households.len()
        &&& later.banks.len() == self.banks.len()
        &&& forall|i: int|
            0 <= i < self.firms.len() && self.firms[i].bankrupt ==> {
                &&& (#[trigger] later.firms[i]).bankrupt
                &&& later.firms[i].turnover == self.firms[i].turnover
                &&& later.firms[i].output == self.firms[i].output
            }
    }
}

/// The banks after each has set its lending rate.
pub open spec fn banks_repriced(
    banks: Seq<BankData>,
    policy_rate: Fixed,
    markup: Fixed,
    risk: Fixed,
) -> Seq<BankData> {
    Seq::new(banks.len(), |j: int| banks[j].spec_set_lending_rate(policy_rate, markup, risk))
}

/// The economy after the phases that come before the agents: the
/// government opens its books, the central bank sets the policy rate, the
/// banks set their lending rates on the new policy rate, and the credit
/// market clears.
#[verifier::opaque]
pub open spec fn pre_step(v: EconomyView) -> EconomyView {
    let central_bank = v.central_bank.spec_step(
        v.config.inflation_coefficient,
        v.config.output_gap_coefficient,
        v.config.interest_rate_smoothing,
        v.config.lower_bound,
    );
    credit_cleared(
        EconomyView {
            government: v.government.spec_begin_period(),
            central_bank,
            banks: banks_repriced(
                v.banks,
                central_bank.policy_rate,
                v.config.base_interest_markup,
                v.config.risk_premium_sensitivity,
            ),
            ..v
        },
    )
}

/// The economy after every firm has taken its step.
#[verifier::opaque]
pub open spec fn firms_stepped(v: EconomyView) -> EconomyView {
    EconomyView {
        firms: Seq::new(
            v.firms.len(),
            |i: int|
                v.firms[i].spec_step(
                    v.config.inventory_target_ratio,
                    v.config.capacity_utilization_target,
                ),
        ),
        ..v
    }
}

/// The economy after every household has taken its step.
#[verifier::opaque]
pub open spec fn households_stepped(v: EconomyView) -> EconomyView {
    EconomyView {
        households: Seq::new(
            v.households.len(),
            |h: int| v.households[h].spec_step(v.config.consumption_smoothing),
        ),
        ..v
    }
}

/// The turnover of the firms in business among the first `k`, summed in
/// order.
pub open spec fn gdp_of(firms: Seq<FirmData>, k: nat) -> Fixed
    decreases k,
{
    if k == 0 {
        Fixed::zero()
    } else if firms[k - 1].bankrupt {
        gdp_of(firms, (k - 1) as nat)
    } else {
        gdp_of(firms, (k - 1) as nat).plus(firms[k - 1].turnover)
    }
}

/// Whether a firm owes corporate tax: it is in business and made a profit.
pub open spec fn owes_corporate_tax(firm: FirmData) -> bool {
    firm.profit.raw > 0 && !firm.bankrupt
}

/// A firm after paying its corporate tax out of cash.
pub open spec fn firm_after_tax(firm: FirmData, rate: Fixed) -> FirmData {
    if owes_corporate_tax(firm) {
        FirmData { cash: firm.cash.minus(GovernmentData::tax_due(firm.profit, rate)), ..firm }
    } else {
        firm
    }
}

/// A household after paying its income tax out of wealth.
pub open spec fn household_after_tax(household: HouseholdData, rate: Fixed) -> HouseholdData {
    if household.income.raw > 0 {
        HouseholdData {
            wealth: household.wealth.minus(GovernmentData::tax_due(household.income, rate)),
            ..household
        }
    } else {
        household
    }
}

/// The government after collecting corporate tax from the first `k` firms,
/// in order.
pub open spec fn government_after_corporate_tax(
    government: GovernmentData,
    firms: Seq<FirmData>,
    k: nat,
    rate: Fixed,
) -> GovernmentData
    decreases k,
{
    if k == 0 {
        government
    } else {
        let before = government_after_corporate_tax(government, firms, (k - 1) as nat, rate);
        if owes_corporate_tax(firms[k - 1]) {
            before.spec_collect(firms[k - 1].profit, rate)
        } else {
            before
        }
    }
}

/// The government after collecting income tax from the first `k`
/// households, in order.
pub open spec fn government_after_income_tax(
    government: GovernmentData,
    households: Seq<HouseholdData>,
    k: nat,
    rate: Fixed,
) -> GovernmentData
    decreases k,
{
    if k == 0 {
        government
    } else {
        let before = government_after_income_tax(government, households, (k - 1) as nat, rate);
        if households[k - 1].income.raw > 0 {
            before.spec_collect(households[k - 1].income, rate)
        } else {
            before
        }
    }
}

/// The economy after the phases that come after the agents: turnover of
/// the firms in business is the GDP estimate, the government plans its
/// spending, the goods market clears, taxes are collected from firms and
/// then from households, the government applies its fiscal rule and closes
/// its books, the central bank takes note of inflation, and every bank
/// takes its full period step.
#[verifier::opaque]
pub open spec fn post_step(v: EconomyView) -> EconomyView {
    let sold = goods_cleared(
        EconomyView {
            government: (GovernmentData {
                gdp_estimate: gdp_of(v.firms, v.firms.len()),
                ..v.government
            }).spec_calculate_spending(v.config.spending_gdp_ratio),
            ..v
        },
    );
    EconomyView {
        firms: Seq::new(
            sold.firms.len(),
            |i: int| firm_after_tax(sold.firms[i], v.config.tax_rate_corporate),
        ),
        households: Seq::new(
            sold.households.len(),
            |h: int| household_after_tax(sold.households[h], v.config.tax_rate_income),
        ),
        government: government_after_income_tax(
            government_after_corporate_tax(
                sold.government,
                sold.firms,
                sold.firms.len(),
                v.config.tax_rate_corporate,
            ),
            sold.households,
            sold.households.len(),
            v.config.tax_rate_income,
        ).spec_apply_fiscal_rule(
            v.config.deficit_target,
            v.config.deficit_adjustment_speed,
        ).spec_end_period(),
        central_bank: sold.central_bank.spec_update_observations(
            sold.goods_last.inflation,
            Fixed::zero(),
        ),
        banks: Seq::new(
            sold.banks.len(),
            |j: int|
                sold.banks[j].spec_step(
                    sold.central_bank.policy_rate,
                    v.config.base_interest_markup,
                    v.config.risk_premium_sensitivity,
                ),
        ),
        ..sold
    }
}

/// The number of failed firms among the first `k`.
pub open spec fn bankrupt_count(firms: Seq<FirmData>, k: nat) -> nat
    decreases k,
{
    if k == 0 {
        0
    } else {
        bankrupt_count(firms, (k - 1) as nat) + if firms[k - 1].bankrupt {
            1nat
        } else {
            0nat
        }
    }
}

/// The record of the period that is about to be closed.
pub open spec fn period_record(v: EconomyView) -> PeriodRecord {
    PeriodRecord {
        period: (v.current_period + 1) as u64,
        gdp: v.government.gdp_estimate,
        inflation: v.goods_last.inflation,
        unemployment_rate: v.labor_last.unemployment_rate,
        average_wage: v.labor_last.average_wage,
        policy_rate: v.central_bank.policy_rate,
        government_deficit: v.government.deficit,
        government_debt: v.government.debt,
        total_lending: v.credit_last.total_lending,
        firm_bankruptcies: bankrupt_count(v.firms, v.firms.len()) as usize,
        total_employment: v.labor_last.total_employed,
    }
}

/// The economy after the period has been closed: the period counter moves
/// on and the record of the period is appended.
pub open spec fn recorded(v: EconomyView) -> EconomyView {
    EconomyView {
        current_period: (v.current_period + 1) as u64,
        records: v.records.push(period_record(v)),
        ..v
    }
}

/// The head count of the first `k` firms.
pub open spec fn headcount(firms: Seq<FirmData>, k: nat) -> nat
    decreases k,
{
    if k == 0 {
        0
    } else {
        headcount(firms, (k - 1) as nat) + firms[k - 1].employees as nat
    }
}

/// The firm, among the first `k`, that household `h` works for at the
/// start: firms are staffed in order, each with as many households as it
/// has employees, from the front of the collection of households.
pub open spec fn initial_employer(firms: Seq<FirmData>, k: nat, h: nat) -> Option<usize>
    decreases k,
{
    if k == 0 {
        None
    } else if headcount(firms, (k - 1) as nat) <= h < headcount(firms, k) {
        Some((k - 1) as usize)
    } else {
        initial_employer(firms, (k - 1) as nat, h)
    }
}

/// The households at the start: those that a firm is staffed with are
/// employed there at the firm's wage rate; the others are as they came.
pub open spec fn initially_employed(
    firms: Seq<FirmData>,
    households: Seq<HouseholdData>,
) -> Seq<HouseholdData> {
    Seq::new(
        households.len(),
        |h: int|
            match initial_employer(firms, firms.len(), h as nat) {
                Some(f) => households[h].spec_become_employed(f, firms[f as int].wage_rate),
                None => households[h],
            },
    )
}

/// The economy before its first period.
pub open spec fn initial_economy(
    firms: Seq<FirmData>,
    households: Seq<HouseholdData>,
    banks: Seq<BankData>,
    drawn: Seq<u64>,
    config: Config,
) -> EconomyView {
    EconomyView {
        firms,
        households: initially_employed(firms, households),
        banks,
        central_bank: CentralBankData::new(config.inflation_target),
        government: GovernmentData::new(),
        goods_average_price: Fixed::one(),
        goods_last: GoodsOutcome::empty(),
        labor_last: LaborOutcome::empty(),
        credit_last: CreditOutcome::empty(),
        config,
        drawn,
        records: Seq::empty(),
        current_period: 0,
    }
}

/// The economy one period on, given the draws that the labour market took.
/// The phases follow one another in a fixed order: the phases before the
/// agents, every firm, the labour market, every household, the phases after
/// the agents, and the record.
#[verifier::opaque]
pub open spec fn advanced(v: EconomyView, draws: Seq<u64>) -> EconomyView {
    recorded(post_step(households_stepped(labor_cleared(firms_stepped(pre_step(v)), draws))))
}

/// The economy as the labour market finds it in the period that starts
/// from `v`.
pub open spec fn before_labor(v: EconomyView) -> EconomyView {
    firms_stepped(pre_step(v))
}

/// The number of draws that the period starting from `v` takes from the
/// front of `draws`.
pub open spec fn period_draws(v: EconomyView, draws: Seq<u64>) -> nat {
    labor_draws(before_labor(v), draws)
}

/// Whether `draws` are the draws of the period starting from `v`, no more
/// and no fewer.
pub open spec fn period_settled(v: EconomyView, draws: Seq<u64>) -> bool {
    labor_settled(before_labor(v), draws)
}

/// The economy `periods` periods on, each period taking its draws from the
/// front of what the periods before it left of `draws`.
pub open spec fn run_spec(v: EconomyView, draws: Seq<u64>, periods: nat) -> EconomyView
    decreases periods,
{
    if periods == 0 {
        v
    } else {
        let taken = period_draws(v, draws) as int;
        run_spec(advanced(v, draws.take(taken)), draws.skip(taken), (periods - 1) as nat)
    }
}

/// The number of draws that `periods` periods from `v` take from the front
/// of `draws`.
pub open spec fn run_draws(v: EconomyView, draws: Seq<u64>, periods: nat) -> nat
    decreases periods,
{
    if periods == 0 {
        0
    } else {
        let taken = period_draws(v, draws) as int;
        taken as nat + run_draws(
            advanced(v, draws.take(taken)),
            draws.skip(taken),
            (periods - 1) as nat,
        )
    }
}

/// The economy after one period for each part of `parts`, each period
/// taking the draws of its part.
spec fn run_of(v: EconomyView, parts: Seq<Seq<u64>>) -> EconomyView
    decreases parts.len(),
{
    if parts.len() == 0 {
        v
    } else {
        advanced(run_of(v, parts.drop_last()), parts.last())
    }
}

/// The parts of `parts`, one after the other.
spec fn joined(parts: Seq<Seq<u64>>) -> Seq<u64>
    decreases parts.len(),
{
    if parts.len() == 0 {
        Seq::empty()
    } else {
        joined(parts.drop_last()) + parts.last()
    }
}

/// Whether each part of `parts` holds the draws of its period, no more and
/// no fewer.
spec fn parts_settled(v: EconomyView, parts: Seq<Seq<u64>>) -> bool {
    forall|k: int|
        0 <= k < parts.len() ==> period_settled(run_of(v, parts.take(k)), #[trigger] parts[k])
}

/// A period reads nothing beyond its own draws: what follows them in the
/// stream changes neither how many it takes nor what it does.
proof fn lemma_period_reads_own_draws(v: EconomyView, part: Seq<u64>, rest: Seq<u64>)
    requires
        period_settled(v, part),
    ensures
        period_draws(v, part + rest) == part.len(),
        (part + rest).take(part.len() as int) == part,
        (part + rest).skip(part.len() as int) == rest,
{
    lemma_labor_reads_own_draws(before_labor(v), part, rest);
}

/// All but the last of settled parts are settled.
proof fn lemma_parts_settled_front(v: EconomyView, parts: Seq<Seq<u64>>)
    requires
        parts.len() > 0,
        parts_settled(v, parts),
    ensures
        parts_settled(v, parts.drop_last()),
        period_settled(run_of(v, parts.drop_last()), parts.last()),
{
    let front = parts.drop_last();
    assert forall|k: int| 0 <= k < front.len() implies period_settled(
        run_of(v, front.take(k)),
        #[trigger] front[k],
    ) by {
        assert(front.take(k) =~= parts.take(k));
        assert(front[k] == parts[k]);
    }
    assert(parts.take(front.len() as int) =~= front);
    assert(period_settled(run_of(v, parts.take(front.len() as int)), parts[front.len() as int]));
}

/// Periods whose draws are given part by part are the periods that take
/// their draws from the front of the parts joined.
proof fn lemma_run_by_parts(v: EconomyView, parts: Seq<Seq<u64>>, rest: Seq<u64>, more: nat)
    requires
        parts_settled(v, parts),
    ensures
        run_spec(v, joined(parts) + rest, parts.len() + more) == run_spec(
            run_of(v, parts),
            rest,
            more,
        ),
        run_draws(v, joined(parts) + rest, parts.len() + more) == joined(parts).len() + run_draws(
            run_of(v, parts),
            rest,
            more,
        ),
    decreases parts.len(),
{
    if parts.len() == 0 {
        assert(joined(parts) + rest =~= rest);
    } else {
        let front = parts.drop_last();
        let part = parts.last();
        let before = run_of(v, front);
        lemma_parts_settled_front(v, parts);
        lemma_run_by_parts(v, front, part + rest, more + 1);
        lemma_period_reads_own_draws(before, part, rest);
        assert(joined(parts) + rest =~= joined(front) + (part + rest));
        assert(run_spec(before, part + rest, more + 1) == run_spec(
            advanced(before, part),
            rest,
            more,
        ));
        assert(run_draws(before, part + rest, more + 1) == part.len() + run_draws(
            advanced(before, part),
            rest,
            more,
        ));
    }
}

/// Whether the records of `v` are those of `start` followed by one sound
/// record for each period since: numbered in order, with an unemployment
/// rate between zero and one, no more people in work than there are
/// households, and no lending where there is no bank.
pub open spec fn records_extend(start: EconomyView, v: EconomyView) -> bool {
    let base = start.records.len() as int;
    &&& base <= v.records.len()
    &&& v.records.take(base) == start.records
    &&& forall|k: int|
        base <= k < v.records.len() ==> {
            let record = #[trigger] v.records[k];
            &&& record.period == start.current_period + (k - base) + 1
            &&& 0 <= record.unemployment_rate.raw <= crate::fixed::SCALE
            &&& record.total_employment <= start.households.len()
            &&& record.unemployment_rate == unemployment_rate(
                (start.households.len() - record.total_employment) as nat,
                start.households.len(),
            )
            &&& record.firm_bankruptcies <= start.firms.len()
            &&& start.banks.len() == 0 ==> record.total_lending == Fixed::zero()
        }
    &&& failures_never_fall(start, v)
}

/// Whether, among the records of `v` that came after those of `start`, no
/// record counts fewer failed firms than a record before it.
pub open spec fn failures_never_fall(start: EconomyView, v: EconomyView) -> bool {
    forall|i: int, j: int|
        start.records.len() <= i <= j < v.records.len() ==> (
        #[trigger] v.records[i]).firm_bankruptcies <= (#[trigger] v.records[j]).firm_bankruptcies
}

/// Whether `after` is the economy one period after `before`, having taken
/// the draws that separate their streams.
spec fn period_passed(before: EconomyView, after: EconomyView) -> bool {
    let part = after.drawn.skip(before.drawn.len() as int);
    &&& after == advanced(before, part)
    &&& period_settled(before, part)
    &&& in_draw_range(part)
    &&& before.drawn.is_prefix_of(after.drawn)
    &&& after.references_valid()
    &&& before.failures_kept_by(after)
    &&& (before.non_negative() ==> after.non_negative())
    &&& after.current_period == before.current_period + 1
    &&& after.records.len() == before.records.len() + 1
    &&& after.records.drop_last() == before.records
    &&& after.records.last().period == after.current_period
    &&& after.records.last().total_employment == after.labor_last.total_employed
    &&& after.records.last().unemployment_rate == after.labor_last.unemployment_rate
    &&& after.records.last().total_lending == after.credit_last.total_lending
    &&& after.labor_last.total_employed + after.labor_last.total_unemployed
        == after.households.len()
    &&& 0 <= after.labor_last.unemployment_rate.raw <= crate::fixed::SCALE
    &&& after.labor_last.unemployment_rate == unemployment_rate(
        after.labor_last.total_unemployed as nat,
        after.households.len(),
    )
    &&& after.records.last().firm_bankruptcies == bankrupt_count(after.firms, after.firms.len())
    &&& bankrupt_count(before.firms, before.firms.len()) <= bankrupt_count(
        after.firms,
        after.firms.len(),
    ) <= after.firms.len()
    &&& (before.banks.len() == 0 ==> {
        &&& after.credit_last == CreditOutcome::empty()
        &&& before.debts_kept_by(after)
    })
}

/// What holds of the economy `v` that a run from `start` has reached after
/// one period for each part of `parts`.
#[verifier::opaque]
spec fn run_reached(start: EconomyView, parts: Seq<Seq<u64>>, v: EconomyView) -> bool {
    &&& start.drawn.is_prefix_of(v.drawn)
    &&& joined(parts) == v.drawn.skip(start.drawn.len() as int)
    &&& in_draw_range(v.drawn.skip(start.drawn.len() as int))
    &&& v == run_of(start, parts)
    &&& parts_settled(start, parts)
    &&& v.references_valid()
    &&& start.failures_kept_by(v)
    &&& (start.non_negative() ==> v.non_negative())
    &&& v.current_period == start.current_period + parts.len()
    &&& v.records.len() == start.records.len() + parts.len()
    &&& records_extend(start, v)
    &&& (parts.len() > 0 ==> v.labor_last.total_employed + v.labor_last.total_unemployed
        == v.households.len())
    &&& (parts.len() > 0 ==> v.records.last().firm_bankruptcies == bankrupt_count(
        v.firms,
        v.firms.len(),
    ))
    &&& (start.banks.len() == 0 ==> start.debts_kept_by(v))
}

/// A run that has not begun has reached its start.
proof fn lemma_run_begins(start: EconomyView)
    requires
        start.references_valid(),
    ensures
        run_reached(start, Seq::empty(), start),
{
    reveal(run_reached);
    assert(start.drawn.skip(start.drawn.len() as int) =~= Seq::<u64>::empty());
    assert(start.records.take(start.records.len() as int) =~= start.records);
    assert(start.failures_kept_by(start));
    assert(start.debts_kept_by(start));
}

/// The parts of a run stay settled when the draws of one more period join
/// them.
proof fn lemma_parts_settled_push(
    start: EconomyView,
    parts: Seq<Seq<u64>>,
    part: Seq<u64>,
)
    requires
        parts_settled(start, parts),
        period_settled(run_of(start, parts), part),
    ensures
        parts_settled(start, parts.push(part)),
        run_of(start, parts.push(part)) == advanced(run_of(start, parts), part),
        joined(parts.push(part)) == joined(parts) + part,
{
    let longer = parts.push(part);
    assert(longer.drop_last() =~= parts);
    assert forall|k: int| 0 <= k < longer.len() implies period_settled(
        run_of(start, longer.take(k)),
        #[trigger] longer[k],
    ) by {
        if k < parts.len() {
            assert(longer.take(k) =~= parts.take(k));
            assert(longer[k] == parts[k]);
        } else {
            assert(longer.take(k) =~= parts);
        }
    }
}

/// The records of a run stay sound when one more period has passed.
proof fn lemma_records_extend_step(start: EconomyView, before: EconomyView, after: EconomyView)
    requires
        records_extend(start, before),
        before.records.len() - start.records.len() == before.current_period - start.current_period,
        before.households.len() == start.households.len(),
        before.banks.len() == start.banks.len(),
        before.firms.len() == start.firms.len(),
        before.records.len() > start.records.len() ==> before.records.last().firm_bankruptcies
            == bankrupt_count(before.firms, before.firms.len()),
        period_passed(before, after),
    ensures
        records_extend(start, after),
{
    let base = start.records.len() as int;
    let last = after.records.len() - 1;
    assert forall|i: int, j: int| base <= i <= j < after.records.len() implies (
    #[trigger] after.records[i]).firm_bankruptcies <= (
    #[trigger] after.records[j]).firm_bankruptcies by {
        if j < last {
            assert(after.records.drop_last()[i] == before.records[i]);
            assert(after.records.drop_last()[j] == before.records[j]);
        } else if i < last {
            assert(after.records.drop_last()[i] == before.records[i]);
            assert(before.records[i].firm_bankruptcies <= before.records[last
                - 1].firm_bankruptcies);
            assert(before.records[last - 1] == before.records.last());
        }
    }
    assert(after.records.take(base) =~= before.records.take(base)) by {
        assert forall|k: int| 0 <= k < base implies after.records[k] == before.records[k] by {
            assert(after.records.drop_last()[k] == before.records[k]);
        }
    }
    assert forall|k: int| base <= k < after.records.len() implies {
        let record = #[trigger] after.records[k];
        &&& record.period == start.current_period + (k - base) + 1
        &&& 0 <= record.unemployment_rate.raw <= crate::fixed::SCALE
        &&& record.total_employment <= start.households.len()
        &&& record.unemployment_rate == unemployment_rate(
            (start.households.len() - record.total_employment) as nat,
            start.households.len(),
        )
        &&& record.firm_bankruptcies <= start.firms.len()
        &&& start.banks.len() == 0 ==> record.total_lending == Fixed::zero()
    } by {
        if k < before.records.len() {
            assert(after.records.drop_last()[k] == before.records[k]);
        } else {
            assert(after.records[k] == after.records.last());
        }
    }
}

/// What a stream has handed out since an earlier moment is what it had
/// handed out by a moment in between, followed by what came after.
proof fn lemma_stream_grows(early: Seq<u64>, middle: Seq<u64>, late: Seq<u64>)
    requires
        early.is_prefix_of(middle),
        middle.is_prefix_of(late),
    ensures
        early.is_prefix_of(late),
        late.skip(early.len() as int) == middle.skip(early.len() as int) + late.skip(
            middle.len() as int,
        ),
{
    assert(late.skip(early.len() as int) =~= middle.skip(early.len() as int) + late.skip(
        middle.len() as int,
    ));
}

/// A run that has reached `before` and passes one more period has reached
/// what that period leaves.
proof fn lemma_run_continues(
    start: EconomyView,
    parts: Seq<Seq<u64>>,
    before: EconomyView,
    after: EconomyView,
)
    requires
        run_reached(start, parts, before),
        period_passed(before, after),
    ensures
        run_reached(
            start,
            parts.push(after.drawn.skip(before.drawn.len() as int)),
            after,
        ),
{
    reveal(run_reached);
    let part = after.drawn.skip(before.drawn.len() as int);
    lemma_parts_settled_push(start, parts, part);
    lemma_kept_transitive(start, before, after);
    lemma_records_extend_step(start, before, after);
    lemma_stream_grows(start.drawn, before.drawn, after.drawn);
}

/// The economy `v`, but with `drawn` as the draws handed out so far.
pub open spec fn with_history(v: EconomyView, drawn: Seq<u64>) -> EconomyView {
    EconomyView { drawn, ..v }
}

/// A period does not look at the draws handed out before it: with another
/// such history it takes as many draws and leaves the same economy, but for
/// the history.
pub proof fn lemma_period_ignores_history(v: EconomyView, drawn: Seq<u64>, draws: Seq<u64>)
    ensures
        advanced(with_history(v, drawn), draws) == with_history(
            advanced(v, draws),
            drawn + draws,
        ),
        advanced(v, draws).drawn == v.drawn + draws,
        period_draws(with_history(v, drawn), draws) == period_draws(v, draws),
{
    reveal(advanced);
    let w = with_history(v, drawn);
    assert(pre_step(w) == with_history(pre_step(v), drawn)) by {
        reveal(pre_step);
        reveal(credit_cleared);
    }
    assert(before_labor(w) == with_history(before_labor(v), drawn)) by {
        reveal(firms_stepped);
    }
    lemma_labor_ignores_history(before_labor(v), drawn, draws);
    lemma_labor_ignores_history(before_labor(v), before_labor(v).drawn, draws);
    assert(before_labor(v).drawn == v.drawn) by {
        reveal(pre_step);
        reveal(credit_cleared);
        reveal(firms_stepped);
    }
    assert(before_labor(v) == (EconomyView { drawn: before_labor(v).drawn, ..before_labor(v) }));
    let after = labor_cleared(before_labor(v), draws);
    let after_w = labor_cleared(before_labor(w), draws);
    assert(after_w == with_history(after, drawn + draws));
    assert(after.drawn == v.drawn + draws);
    assert(households_stepped(after_w) == with_history(households_stepped(after), drawn + draws))
        by {
        reveal(households_stepped);
    }
    assert(households_stepped(after).drawn == after.drawn) by {
        reveal(households_stepped);
    }
    let fed = households_stepped(after);
    let fed_w = households_stepped(after_w);
    assert(post_step(fed_w) == with_history(post_step(fed), drawn + draws)) by {
        reveal(post_step);
        reveal(goods_cleared);
    }
    assert(post_step(fed).drawn == fed.drawn) by {
        reveal(post_step);
        reveal(goods_cleared);
    }
}

/// A run is decided by the economy it starts from and by the draws it
/// takes. Two runs that start from economies which differ at most in what
/// their streams handed out before, and that read the same draws, take
/// equally many of them and leave the same economy, but for that history.
/// So they leave the same records.
pub proof fn lemma_run_deterministic(a: EconomyView, b: EconomyView, draws: Seq<u64>, periods: nat)
    requires
        b == with_history(a, b.drawn),
    ensures
        run_draws(b, draws, periods) == run_draws(a, draws, periods),
        run_spec(b, draws, periods) == with_history(
            run_spec(a, draws, periods),
            run_spec(b, draws, periods).drawn,
        ),
        run_spec(b, draws, periods).records == run_spec(a, draws, periods).records,
    decreases periods,
{
    if periods > 0 {
        lemma_period_ignores_history(a, b.drawn, draws);
        let taken = period_draws(a, draws) as int;
        let part = draws.take(taken);
        lemma_period_ignores_history(a, b.drawn, part);
        lemma_run_deterministic(
            advanced(a, part),
            advanced(b, part),
            draws.skip(taken),
            (periods - 1) as nat,
        );
    }
}

/// The head count of the firms grows with their number.
proof fn lemma_headcount_monotone(firms: Seq<FirmData>, a: nat, b: nat)
    requires
        a <= b,
    ensures
        headcount(firms, a) <= headcount(firms, b),
    decreases b - a,
{
    if a < b {
        lemma_headcount_monotone(firms, a, (b - 1) as nat);
    }
}

/// A household within the head count of firm `f` works for firm `f`.
proof fn lemma_initial_employer_found(firms: Seq<FirmData>, k: nat, f: nat, h: nat)
    requires
        f < k,
        headcount(firms, f) <= h < headcount(firms, f + 1),
    ensures
        initial_employer(firms, k, h) == Some(f as usize),
    decreases k,
{
    if k > f + 1 {
        lemma_headcount_monotone(firms, f + 1, (k - 1) as nat);
        lemma_initial_employer_found(firms, (k - 1) as nat, f, h);
    }
}

/// A household beyond the head count of all firms works for none.
proof fn lemma_initial_employer_none(firms: Seq<FirmData>, k: nat, h: nat)
    requires
        headcount(firms, k) <= h,
    ensures
        initial_employer(firms, k, h) == None::<usize>,
    decreases k,
{
    if k > 0 {
        lemma_headcount_monotone(firms, (k - 1) as nat, k);
        lemma_initial_employer_none(firms, (k - 1) as nat, h);
    }
}

/// Where failures are kept, no fewer firms have failed later than before,
/// and no more than there are.
pub proof fn lemma_failures_accumulate(a: EconomyView, b: EconomyView, k: nat)
    requires
        a.failures_kept_by(b),
        k <= a.firms.len(),
    ensures
        bankrupt_count(a.firms, k) <= bankrupt_count(b.firms, k) <= k,
    decreases k,
{
    if k > 0 {
        lemma_failures_accumulate(a, b, (k - 1) as nat);
        if a.firms[k - 1].bankrupt {
            assert(b.firms[k - 1].bankrupt);
        }
    }
}

/// What one state keeps of another carries over to a third.
pub proof fn lemma_kept_transitive(a: EconomyView, b: EconomyView, c: EconomyView)
    ensures
        a.failures_kept_by(b) && b.failures_kept_by(c) ==> a.failures_kept_by(c),
        a.debts_kept_by(b) && b.debts_kept_by(c) ==> a.debts_kept_by(c),
{
    if a.failures_kept_by(b) && b.failures_kept_by(c) {
        assert forall|i: int| 0 <= i < a.firms.len() && a.firms[i].bankrupt implies {
            &&& (#[trigger] c.firms[i]).bankrupt
            &&& c.firms[i].turnover == a.firms[i].turnover
            &&& c.firms[i].output == a.firms[i].output
        } by {
            let _ = b.firms[i];
        }
    }
    if a.debts_kept_by(b) && b.debts_kept_by(c) {
        assert forall|i: int| 0 <= i < a.firms.len() implies (#[trigger] c.firms[i]).debt
            == a.firms[i].debt by {
            let _ = b.firms[i];
        }
    }
}

impl EconomyState {
    /// Staffs the firms: in order, each firm takes as many households as it
    /// has employees from the front of the collection, at its wage rate,
    /// until the households run out.
    #[verifier::loop_isolation(false)]
    fn initial_employment(&mut self)
        ensures
            final(self)@ == (EconomyView {
                households: initially_employed(old(self)@.firms, old(self)@.households),
                ..old(self)@
            }),
            old(self)@.references_valid() ==> final(self)@.references_valid(),
    {
        let ghost v0 = self@;
        let n: usize = self.households.len();
        let n_firms: usize = self.firms.len();
        let mut hh_idx: usize = 0;
        let mut firm_idx: usize = 0;
        while firm_idx < n_firms
            invariant
                firm_idx <= n_firms,
                hh_idx <= n,
                hh_idx == headcount(v0.firms, firm_idx as nat),
                self@ == (EconomyView { households: self.households@, ..v0 }),
                self.households@.len() == n,
                forall|t: int| hh_idx <= t < n ==> self.households@[t] == v0.households[t],
                forall|t: int|
                    0 <= t < hh_idx ==> #[trigger] self.households@[t] == initially_employed(
                        v0.firms,
                        v0.households,
                    )[t],
                forall|t: int|
                    0 <= t < hh_idx ==> (#[trigger] self.households@[t]).employer_within(
                        n_firms as nat,
                    ),
            decreases n_firms - firm_idx,
        {
            let n_workers: usize = self.firms[firm_idx].employees as usize;
            let wage_rate = self.firms[firm_idx].wage_rate;
            let mut w: usize = 0;
            while w < n_workers
                invariant
                    firm_idx < n_firms,
                    w <= n_workers,
                    n_workers == v0.firms[firm_idx as int].employees,
                    hh_idx <= n,
                    hh_idx == headcount(v0.firms, firm_idx as nat) + w,
                    self@ == (EconomyView { households: self.households@, ..v0 }),
                    self.households@.len() == n,
                    forall|t: int| hh_idx <= t < n ==> self.households@[t] == v0.households[t],
                    forall|t: int|
                        0 <= t < hh_idx ==> #[trigger] self.households@[t] == initially_employed(
                            v0.firms,
                            v0.households,
                        )[t],
                    forall|t: int|
                        0 <= t < hh_idx ==> (#[trigger] self.households@[t]).employer_within(
                            n_firms as nat,
                        ),
                decreases n_workers - w,
            {
                if hh_idx >= n {
                    assert(self.households@ =~= initially_employed(v0.firms, v0.households));
                    return ;
                }
                proof {
                    lemma_initial_employer_found(
                        v0.firms,
                        n_firms as nat,
                        firm_idx as nat,
                        hh_idx as nat,
                    );
                }
                self.households[hh_idx].become_employed(firm_idx, wage_rate);
                hh_idx = hh_idx + 1;
                w = w + 1;
            }
            firm_idx = firm_idx + 1;
        }
        proof {
            assert forall|t: int| hh_idx <= t < n implies #[trigger] self.households@[t]
                == initially_employed(v0.firms, v0.households)[t] by {
                lemma_initial_employer_none(v0.firms, n_firms as nat, t as nat);
            }
            assert(self.households@ =~= initially_employed(v0.firms, v0.households));
        }
    }

    /// The economy before its first period, with the population given and
    /// the firms staffed.
    pub fn new(
        firms: Vec<FirmData>,
        households: Vec<HouseholdData>,
        banks: Vec<BankData>,
        rng: RandomStream,
        config: Config,
    ) -> (state: EconomyState)
        requires
            forall|h: int|
                0 <= h < households@.len() ==> (#[trigger] households@[h]).employer_within(
                    firms@.len(),
                ),
        ensures
            state@ == initial_economy(firms@, households@, banks@, rng.history(), config),
            state@.references_valid(),
            state@.records.len() == 0,
            state.current_period == 0,
    {
        let central_bank = CentralBankData::new(config.inflation_target);
        let mut state = EconomyState {
            firms,
            households,
            banks,
            central_bank,
            government: GovernmentData::new(),
            goods_average_price: Fixed::one(),
            goods_last: GoodsOutcome::default(),
            labor_last: LaborOutcome::default(),
            credit_last: CreditOutcome::default(),
            config,
            rng,
            records: Vec::new(),
            current_period: 0,
        };
        assert(state@.references_valid());
        state.initial_employment();
        state
    }

    /// Tells whether every employer reference points at a firm.
    pub fn has_valid_references(&self) -> (valid: bool)
        ensures
            valid == self@.references_valid(),
    {
        let n: usize = self.households.len();
        let n_firms: usize = self.firms.len();
        let mut h: usize = 0;
        while h < n
            invariant
                h <= n,
                n == self.households@.len(),
                n_firms == self.firms@.len(),
                forall|t: int|
                    0 <= t < h ==> (#[trigger] self.households@[t]).employer_within(
                        n_firms as nat,
                    ),
            decreases n - h,
        {
            match self.households[h].employer_id {
                Some(e) => {
                    if e >= n_firms {
                        assert(!self@.households[h as int].employer_within(self@.firms.len()));
                        return false;
                    }
                },
                None => {},
            }
            h = h + 1;
        }
        true
    }

    /// Moves the economy forward by one period.
    pub fn advance(&mut self)
        requires
            old(self).current_period < u64::MAX,
            old(self)@.references_valid(),
        ensures
            final(self)@ == advanced(
                old(self)@,
                final(self)@.drawn.skip(old(self)@.drawn.len() as int),
            ),
            period_settled(old(self)@, final(self)@.drawn.skip(old(self)@.drawn.len() as int)),
            in_draw_range(final(self)@.drawn.skip(old(self)@.drawn.len() as int)),
            old(self)@.drawn.is_prefix_of(final(self)@.drawn),
            final(self)@.references_valid(),
            old(self)@.failures_kept_by(final(self)@),
            old(self)@.non_negative() ==> final(self)@.non_negative(),
            final(self).current_period == old(self).current_period + 1,
            final(self)@.records.len() == old(self)@.records.len() + 1,
            final(self)@.records.drop_last() == old(self)@.records,
            final(self)@.records.last().period == final(self).current_period,
            final(self)@.records.last().total_employment == final(self).labor_last.total_employed,
            final(self)@.records.last().unemployment_rate
                == final(self).labor_last.unemployment_rate,
            final(self)@.records.last().total_lending == final(self).credit_last.total_lending,
            final(self).labor_last.total_employed + final(self).labor_last.total_unemployed
                == final(self)@.households.len(),
            0 <= final(self).labor_last.unemployment_rate.raw <= crate::fixed::SCALE,
            final(self).labor_last.unemployment_rate == unemployment_rate(
                final(self).labor_last.total_unemployed as nat,
                final(self)@.households.len(),
            ),
            final(self)@.records.last().firm_bankruptcies == bankrupt_count(
                final(self)@.firms,
                final(self)@.firms.len(),
            ),
            bankrupt_count(old(self)@.firms, old(self)@.firms.len()) <= bankrupt_count(
                final(self)@.firms,
                final(self)@.firms.len(),
            ) <= final(self)@.firms.len(),
            old(self)@.banks.len() == 0 ==> {
                &&& final(self).credit_last == CreditOutcome::empty()
                &&& old(self)@.debts_kept_by(final(self)@)
            },
    {
        let ghost v0 = self@;
        self.run_pre_step();
        let ghost v1 = self@;
        self.step_firms();
        let ghost v2 = self@;
        clear_labor_market(self);
        let ghost v3 = self@;
        self.step_households();
        let ghost v4 = self@;
        self.run_post_step();
        let ghost v5 = self@;
        self.record();
        proof {
            reveal(advanced);
            let v6 = self@;
            assert(v0.debts_kept_by(v0));
            assert(v2.failures_kept_by(v3));
            assert(v2.debts_kept_by(v3));
            assert(v5.failures_kept_by(v6));
            assert(v5.debts_kept_by(v6));
            lemma_kept_transitive(v0, v1, v2);
            lemma_kept_transitive(v0, v2, v3);
            lemma_kept_transitive(v0, v3, v4);
            lemma_kept_transitive(v0, v4, v5);
            lemma_kept_transitive(v0, v5, v6);
            lemma_failures_accumulate(v0, v6, v0.firms.len());
            if v0.banks.len() == 0 {
                assert(v0.debts_kept_by(v1));
            }
            assert(v6.records.drop_last() =~= v0.records);
            assert(v6.drawn.skip(v0.drawn.len() as int) =~= v3.drawn.skip(v2.drawn.len() as int));
        }
    }

    /// Moves the economy forward by `periods` periods, one record each.
    pub fn run(&mut self, periods: usize)
        requires
            old(self).current_period + periods <= u64::MAX,
            old(self)@.references_valid(),
        ensures
            final(self)@ == run_spec(
                old(self)@,
                final(self)@.drawn.skip(old(self)@.drawn.len() as int),
                periods as nat,
            ),
            final(self)@.drawn.len() == old(self)@.drawn.len() + run_draws(
                old(self)@,
                final(self)@.drawn.skip(old(self)@.drawn.len() as int),
                periods as nat,
            ),
            in_draw_range(final(self)@.drawn.skip(old(self)@.drawn.len() as int)),
            old(self)@.drawn.is_prefix_of(final(self)@.drawn),
            final(self)@.references_valid(),
            old(self)@.failures_kept_by(final(self)@),
            old(self)@.non_negative() ==> final(self)@.non_negative(),
            final(self).current_period == old(self).current_period + periods,
            final(self)@.records.len() == old(self)@.records.len() + periods,
            records_extend(old(self)@, final(self)@),
            periods > 0 ==> final(self).labor_last.total_employed
                + final(self).labor_last.total_unemployed == final(self)@.households.len(),
            old(self)@.banks.len() == 0 ==> old(self)@.debts_kept_by(final(self)@),
    {
        let ghost start = self@;
        let ghost mut parts: Seq<Seq<u64>> = Seq::empty();
        let mut done: usize = 0;
        proof {
            lemma_run_begins(start);
        }
        while done < periods
            invariant
                done <= periods,
                start.current_period + periods <= u64::MAX,
                parts.len() == done,
                run_reached(start, parts, self@),
                self@.references_valid(),
                self.current_period == start.current_period + done,
            decreases periods - done,
        {
            let ghost before = self@;
            self.advance();
            proof {
                lemma_run_continues(start, parts, before, self@);
                parts = parts.push(self@.drawn.skip(before.drawn.len() as int));
            }
            done = done + 1;
        }
        proof {
            reveal(run_reached);
            lemma_run_by_parts(start, parts, Seq::empty(), 0);
            assert(joined(parts) + Seq::<u64>::empty() =~= joined(parts));
        }
    }

    /// Runs the phases that come before the agents.
    #[verifier::loop_isolation(false)]
    pub fn run_pre_step(&mut self)
        ensures
            final(self)@ == pre_step(old(self)@),
            final(self)@ == (EconomyView {
                firms: final(self)@.firms,
                banks: final(self)@.banks,
                central_bank: final(self).central_bank,
                government: final(self).government,
                credit_last: final(self).credit_last,
                ..old(self)@
            }),
            old(self)@.failures_kept_by(final(self)@),
            old(self)@.non_negative() ==> final(self)@.non_negative(),
            old(self)@.references_valid() ==> final(self)@.references_valid(),
            old(self)@.banks.len() == 0 ==> {
                &&& final(self)@.firms == old(self)@.firms
                &&& final(self).credit_last == CreditOutcome::empty()
            },
    {
        let ghost v0 = self@;
        self.government.begin_period();
        self.central_bank.step(
            self.config.inflation_coefficient,
            self.config.output_gap_coefficient,
            self.config.interest_rate_smoothing,
            self.config.lower_bound,
        );
        let policy_rate = self.central_bank.policy_rate;
        let base_markup = self.config.base_interest_markup;
        let risk = self.config.risk_premium_sensitivity;
        let n_banks: usize = self.banks.len();
        let ghost v1 = self@;
        let mut j: usize = 0;
        while j < n_banks
            invariant
                j <= n_banks,
                self@ == (EconomyView { banks: self.banks@, ..v1 }),
                self.banks@.len() == n_banks,
                forall|t: int| j <= t < n_banks ==> self.banks@[t] == v0.banks[t],
                forall|t: int|
                    0 <= t < j ==> #[trigger] self.banks@[t] == v0.banks[t].spec_set_lending_rate(
                        policy_rate,
                        base_markup,
                        risk,
                    ),
            decreases n_banks - j,
        {
            self.banks[j].set_lending_rate(policy_rate, base_markup, risk);
            j = j + 1;
        }
        assert(self.banks@ =~= banks_repriced(v0.banks, policy_rate, base_markup, risk));
        let ghost repriced = self@;
        clear_credit_market(self);
        proof {
            reveal(pre_step);
            let after = self@;
            assert forall|i: int| 0 <= i < v0.firms.len() implies (#[trigger] after.firms[i])
                == (FirmData {
                cash: after.firms[i].cash,
                debt: after.firms[i].debt,
                default_settled: after.firms[i].default_settled,
                ..v0.firms[i]
            }) by {}
            if v0.non_negative() {
                assert forall|j: int| 0 <= j < after.banks.len() implies (
                #[trigger] after.banks[j]).loans.raw >= 0 by {
                    assert(repriced.banks[j].loans == v0.banks[j].loans);
                }
                assert forall|i: int| 0 <= i < after.firms.len() implies (
                #[trigger] after.firms[i]).inventory.raw >= 0 by {
                    assert(after.firms[i].inventory == v0.firms[i].inventory);
                }
            }
            if v0.references_valid() {
                assert forall|h: int| 0 <= h < after.households.len() implies (
                #[trigger] after.households[h]).employer_within(after.firms.len()) by {
                    assert(after.households[h] == v0.households[h]);
                }
            }
        }
    }

    /// Lets every firm take its step, in order.
    #[verifier::loop_isolation(false)]
    pub fn step_firms(&mut self)
        ensures
            final(self)@ == firms_stepped(old(self)@),
            final(self)@ == (EconomyView { firms: final(self)@.firms, ..old(self)@ }),
            old(self)@.failures_kept_by(final(self)@),
            old(self)@.debts_kept_by(final(self)@),
            forall|i: int|
                0 <= i < old(self)@.firms.len() && old(self)@.firms[i].bankrupt
                    ==> #[trigger] final(self)@.firms[i] == old(self)@.firms[i],
            old(self)@.non_negative() ==> final(self)@.non_negative(),
            old(self)@.references_valid() ==> final(self)@.references_valid(),
    {
        let ghost v0 = self@;
        let n_firms: usize = self.firms.len();
        let mut i: usize = 0;
        while i < n_firms
            invariant
                i <= n_firms,
                self@ == (EconomyView { firms: self.firms@, ..v0 }),
                self.firms@.len() == n_firms,
                forall|t: int| i <= t < n_firms ==> self.firms@[t] == v0.firms[t],
                forall|t: int|
                    0 <= t < i ==> #[trigger] self.firms@[t] == v0.firms[t].spec_step(
                        v0.config.inventory_target_ratio,
                        v0.config.capacity_utilization_target,
                    ),
            decreases n_firms - i,
        {
            let agent = FirmAgent { id: i };
            agent.step(self);
            i = i + 1;
        }
        proof {
            reveal(firms_stepped);
            let after = self@;
            assert(after.firms =~= firms_stepped(v0).firms);
            if v0.non_negative() {
                assert forall|i: int| 0 <= i < after.firms.len() implies (
                #[trigger] after.firms[i]).inventory.raw >= 0 by {
                    assert(v0.firms[i].inventory.raw >= 0);
                }
            }
            if v0.references_valid() {
                assert forall|h: int| 0 <= h < after.households.len() implies (
                #[trigger] after.households[h]).employer_within(after.firms.len()) by {
                    assert(after.households[h] == v0.households[h]);
                }
            }
        }
    }

    /// Lets every household take its step, in order.
    #[verifier::loop_isolation(false)]
    pub fn step_households(&mut self)
        ensures
            final(self)@ == households_stepped(old(self)@),
            final(self)@ == (EconomyView { households: final(self)@.households, ..old(self)@ }),
            old(self)@.failures_kept_by(final(self)@),
            old(self)@.debts_kept_by(final(self)@),
            final(self)@.firms == old(self)@.firms,
            old(self)@.non_negative() ==> final(self)@.non_negative(),
            old(self)@.references_valid() ==> final(self)@.references_valid(),
    {
        let ghost v0 = self@;
        let n: usize = self.households.len();
        let mut h: usize = 0;
        while h < n
            invariant
                h <= n,
                self@ == (EconomyView { households: self.households@, ..v0 }),
                self.households@.len() == n,
                forall|t: int| h <= t < n ==> self.households@[t] == v0.households[t],
                forall|t: int|
                    0 <= t < h ==> #[trigger] self.households@[t] == v0.households[t].spec_step(
                        v0.config.consumption_smoothing,
                    ),
            decreases n - h,
        {
            let agent = HouseholdAgent { id: h };
            agent.step(self);
            h = h + 1;
        }
        proof {
            reveal(households_stepped);
            let after = self@;
            assert(after.households =~= households_stepped(v0).households);
            if v0.references_valid() {
                assert forall|h: int| 0 <= h < after.households.len() implies (
                #[trigger] after.households[h]).employer_within(after.firms.len()) by {
                    assert(after.households[h].employer_id == v0.households[h].employer_id);
                    assert(v0.households[h].employer_within(v0.firms.len()));
                }
            }
        }
    }

    /// The turnover of all firms in business.
    fn estimate_gdp(&self) -> (gdp: Fixed)
        ensures
            gdp == gdp_of(self@.firms, self@.firms.len()),
    {
        let n_firms: usize = self.firms.len();
        let mut gdp = Fixed::zero();
        let mut i: usize = 0;
        while i < n_firms
            invariant
                i <= n_firms,
                n_firms == self.firms@.len(),
                gdp == gdp_of(self.firms@, i as nat),
            decreases n_firms - i,
        {
            if !self.firms[i].bankrupt {
                gdp = gdp.plus(self.firms[i].turnover);
            }
            i = i + 1;
        }
        gdp
    }

    /// Collects corporate tax from every firm that owes it.
    #[verifier::loop_isolation(false)]
    fn collect_corporate_taxes(&mut self)
        ensures
            final(self)@ == (EconomyView {
                firms: Seq::new(
                    old(self)@.firms.len(),
                    |i: int|
                        firm_after_tax(old(self)@.firms[i], old(self)@.config.tax_rate_corporate),
                ),
                government: government_after_corporate_tax(
                    old(self)@.government,
                    old(self)@.firms,
                    old(self)@.firms.len(),
                    old(self)@.config.tax_rate_corporate,
                ),
                ..old(self)@
            }),
    {
        let ghost v0 = self@;
        let rate = self.config.tax_rate_corporate;
        let n_firms: usize = self.firms.len();
        let mut i: usize = 0;
        while i < n_firms
            invariant
                i <= n_firms,
                self@ == (EconomyView { firms: self.firms@, government: self.government, ..v0 }),
                self.firms@.len() == n_firms,
                self.government == government_after_corporate_tax(
                    v0.government,
                    v0.firms,
                    i as nat,
                    rate,
                ),
                forall|t: int| i <= t < n_firms ==> self.firms@[t] == v0.firms[t],
                forall|t: int|
                    0 <= t < i ==> #[trigger] self.firms@[t] == firm_after_tax(v0.firms[t], rate),
            decreases n_firms - i,
        {
            if self.firms[i].profit.raw > 0 && !self.firms[i].bankrupt {
                let tax = self.government.collect_corporate_tax(self.firms[i].profit, rate);
                self.firms[i].cash = self.firms[i].cash.minus(tax);
            }
            i = i + 1;
        }
        assert(self.firms@ =~= Seq::new(
            v0.firms.len(),
            |i: int| firm_after_tax(v0.firms[i], v0.config.tax_rate_corporate),
        ));
    }

    /// Collects income tax from every household with an income.
    #[verifier::loop_isolation(false)]
    fn collect_income_taxes(&mut self)
        ensures
            final(self)@ == (EconomyView {
                households: Seq::new(
                    old(self)@.households.len(),
                    |h: int|
                        household_after_tax(
                            old(self)@.households[h],
                            old(self)@.config.tax_rate_income,
                        ),
                ),
                government: government_after_income_tax(
                    old(self)@.government,
                    old(self)@.households,
                    old(self)@.households.len(),
                    old(self)@.config.tax_rate_income,
                ),
                ..old(self)@
            }),
    {
        let ghost v0 = self@;
        let rate = self.config.tax_rate_income;
        let n: usize = self.households.len();
        let mut h: usize = 0;
        while h < n
            invariant
                h <= n,
                self@ == (EconomyView {
                    households: self.households@,
                    government: self.government,
                    ..v0
                }),
                self.households@.len() == n,
                self.government == government_after_income_tax(
                    v0.government,
                    v0.households,
                    h as nat,
                    rate,
                ),
                forall|t: int| h <= t < n ==> self.households@[t] == v0.households[t],
                forall|t: int|
                    0 <= t < h ==> #[trigger] self.households@[t] == household_after_tax(
                        v0.households[t],
                        rate,
                    ),
            decreases n - h,
        {
            if self.households[h].income.raw > 0 {
                let tax = self.government.collect_income_tax(self.households[h].income, rate);
                self.households[h].wealth = self.households[h].wealth.minus(tax);
            }
            h = h + 1;
        }
        assert(self.households@ =~= Seq::new(
            v0.households.len(),
            |h: int| household_after_tax(v0.households[h], v0.config.tax_rate_income),
        ));
    }

    /// Runs the phases that come after the agents.
    #[verifier::loop_isolation(false)]
    pub fn run_post_step(&mut self)
        ensures
            final(self)@ == post_step(old(self)@),
            final(self)@ == (EconomyView {
                firms: final(self)@.firms,
                households: final(self)@.households,
                banks: final(self)@.banks,
                central_bank: final(self).central_bank,
                government: final(self).government,
                goods_average_price: final(self).goods_average_price,
                goods_last: final(self).goods_last,
                ..old(self)@
            }),
            old(self)@.failures_kept_by(final(self)@),
            old(self)@.debts_kept_by(final(self)@),
            old(self)@.non_negative() ==> final(self)@.non_negative(),
            old(self)@.references_valid() ==> final(self)@.references_valid(),
            final(self).labor_last == old(self).labor_last,
            final(self).credit_last == old(self).credit_last,
    {
        let ghost v0 = self@;
        let gdp = self.estimate_gdp();
        self.government.gdp_estimate = gdp;
        self.government.calculate_spending(self.config.spending_gdp_ratio);
        clear_goods_market(self);
        let ghost sold = self@;
        self.collect_corporate_taxes();
        self.collect_income_taxes();
        self.government.apply_fiscal_rule(
            self.config.deficit_target,
            self.config.deficit_adjustment_speed,
        );
        self.government.end_period();
        self.central_bank.update_observations(self.goods_last.inflation, Fixed::zero());

        let policy_rate = self.central_bank.policy_rate;
        let base_markup = self.config.base_interest_markup;
        let risk = self.config.risk_premium_sensitivity;
        let n_banks: usize = self.banks.len();
        let ghost v1 = self@;
        let mut j: usize = 0;
        while j < n_banks
            invariant
                j <= n_banks,
                self@ == (EconomyView { banks: self.banks@, ..v1 }),
                self.banks@.len() == n_banks,
                forall|t: int| j <= t < n_banks ==> self.banks@[t] == v0.banks[t],
                forall|t: int|
                    0 <= t < j ==> #[trigger] self.banks@[t] == v0.banks[t].spec_step(
                        policy_rate,
                        base_markup,
                        risk,
                    ),
            decreases n_banks - j,
        {
            self.banks[j].step(policy_rate, base_markup, risk);
            j = j + 1;
        }
        proof {
            reveal(post_step);
            let after = self@;
            assert(after.banks =~= post_step(v0).banks);
            assert(after.firms =~= post_step(v0).firms);
            assert(after.households =~= post_step(v0).households);
            assert forall|i: int| 0 <= i < v0.firms.len() implies (#[trigger] after.firms[i])
                == (FirmData {
                inventory: sold.firms[i].inventory,
                turnover: sold.firms[i].turnover,
                markup: sold.firms[i].markup,
                cash: after.firms[i].cash,
                ..v0.firms[i]
            }) by {
                assert(after.firms[i] == firm_after_tax(
                    sold.firms[i],
                    v0.config.tax_rate_corporate,
                ));
            }
            assert forall|i: int| 0 <= i < v0.firms.len() && v0.firms[i].bankrupt implies {
                &&& (#[trigger] after.firms[i]).bankrupt
                &&& after.firms[i].turnover == v0.firms[i].turnover
                &&& after.firms[i].output == v0.firms[i].output
            } by {
                assert(sold.firms[i] == v0.firms[i]);
            }
            if v0.non_negative() {
                assert forall|j: int| 0 <= j < after.banks.len() implies (
                #[trigger] after.banks[j]).loans.raw >= 0 by {
                    assert(after.banks[j].loans == v0.banks[j].loans);
                }
                assert forall|i: int| 0 <= i < after.firms.len() implies (
                #[trigger] after.firms[i]).inventory.raw >= 0 by {
                    assert(v0.firms[i].inventory.raw >= 0);
                    assert(sold.firms[i].inventory.raw >= 0);
                }
            }
            if v0.references_valid() {
                assert forall|h: int| 0 <= h < after.households.len() implies (
                #[trigger] after.households[h]).employer_within(after.firms.len()) by {
                    assert(after.households[h].employer_id == v0.households[h].employer_id);
                    assert(v0.households[h].employer_within(v0.firms.len()));
                }
            }
        }
    }

    /// The number of failed firms.
    fn count_bankruptcies(&self) -> (count: usize)
        ensures
            count == bankrupt_count(self@.firms, self@.firms.len()),
    {
        let n_firms: usize = self.firms.len();
        let mut count: usize = 0;
        let mut i: usize = 0;
        while i < n_firms
            invariant
                i <= n_firms,
                n_firms == self.firms@.len(),
                count == bankrupt_count(self.firms@, i as nat),
                count <= i,
            decreases n_firms - i,
        {
            if self.firms[i].bankrupt {
                count = count + 1;
            }
            i = i + 1;
        }
        count
    }

    /// Closes the period: moves the period counter on and appends the
    /// record of the period.
    pub fn record(&mut self)
        requires
            old(self).current_period < u64::MAX,
        ensures
            final(self)@ == recorded(old(self)@),
            final(self)@.records.len() == old(self)@.records.len() + 1,
            final(self)@.records.last().period == old(self).current_period + 1,
            final(self)@.records.last().firm_bankruptcies == bankrupt_count(
                old(self)@.firms,
                old(self)@.firms.len(),
            ),
    {
        self.current_period = self.current_period + 1;
        let bankruptcies = self.count_bankruptcies();
        self.records.push(
            PeriodRecord {
                period: self.current_period,
                gdp: self.government.gdp_estimate,
                inflation: self.goods_last.inflation,
                unemployment_rate: self.labor_last.unemployment_rate,
                average_wage: self.labor_last.average_wage,
                policy_rate: self.central_bank.policy_rate,
                government_deficit: self.government.deficit,
                government_debt: self.government.debt,
                total_lending: self.credit_last.total_lending,
                firm_bankruptcies: bankruptcies,
                total_employment: self.labor_last.total_employed,
            },
        );
    }
}

} // verus!
