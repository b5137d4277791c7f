//! Banks, the central bank and the government.

use crate::fixed::{Fixed, LIMIT};
use crate::state::{EconomyState, EconomyView};
use vstd::prelude::*;

verus! {

/// The whole state of one bank.
#[derive(Clone, Copy, Debug, PartialEq)]
pub struct BankData {
    pub capital: Fixed,
    pub reserves: Fixed,
    pub loans: Fixed,
    pub deposits: Fixed,
    pub non_performing_loans: Fixed,
    pub interest_rate: Fixed,
    pub profit: Fixed,
    pub interest_income: Fixed,
    pub interest_expense: Fixed,
}

/// The lending rate of a bank that has not set one yet.
pub open spec fn initial_lending_rate() -> Fixed {
    Fixed::from_micros(50_000)
}

/// The margin by which the rate paid on deposits lies below the lending rate.
pub open spec fn deposit_margin() -> Fixed {
    Fixed::from_micros(20_000)
}

/// The share of non-performing loans written off against profit each period.
pub open spec fn provision_rate() -> Fixed {
    Fixed::from_micros(500_000)
}

/// The share of a loan that the borrower's equity must cover.
pub open spec fn collateral_rate() -> Fixed {
    Fixed::from_micros(500_000)
}

impl BankData {
    /// A new bank with no loans, deposits or non-performing loans.
    pub fn new(capital: Fixed, reserves: Fixed) -> (bank: BankData)
        ensures
            bank == (BankData {
                capital,
                reserves,
                loans: Fixed::zero(),
                deposits: Fixed::zero(),
                non_performing_loans: Fixed::zero(),
                interest_rate: initial_lending_rate(),
                profit: Fixed::zero(),
                interest_income: Fixed::zero(),
                interest_expense: Fixed::zero(),
            }),
    {
        BankData {
            capital,
            reserves,
            loans: Fixed::zero(),
            deposits: Fixed::zero(),
            non_performing_loans: Fixed::zero(),
            interest_rate: Fixed::from_micros(50_000),
            profit: Fixed::zero(),
            interest_income: Fixed::zero(),
            interest_expense: Fixed::zero(),
        }
    }

    /// Capital over risk-weighted loans; one where there are no
    /// risk-weighted loans.
    pub open spec fn spec_capital_ratio(&self, risk_weight: Fixed) -> Fixed {
        let risk_weighted = self.loans.times(risk_weight);
        if risk_weighted.raw <= 0 {
            Fixed::one()
        } else {
            self.capital.over(risk_weighted)
        }
    }

    /// Computes the capital ratio for the given risk weight.
    #[verifier::when_used_as_spec(spec_capital_ratio)]
    pub fn capital_ratio(&self, risk_weight: Fixed) -> (ratio: Fixed)
        ensures
            ratio == self.spec_capital_ratio(risk_weight),
    {
        let risk_weighted = self.loans.times(risk_weight);
        if risk_weighted.raw <= 0 {
            Fixed::one()
        } else {
            self.capital.over(risk_weighted)
        }
    }

    /// Whether the capital ratio reaches the requirement plus the buffer.
    pub open spec fn spec_meets_capital_requirement(
        &self,
        capital_requirement: Fixed,
        capital_buffer: Fixed,
        risk_weight: Fixed,
    ) -> bool {
        self.capital_ratio(risk_weight).raw >= capital_requirement.plus(capital_buffer).raw
    }

    /// Tells whether the bank is well enough capitalised to lend.
    #[verifier::when_used_as_spec(spec_meets_capital_requirement)]
    pub fn meets_capital_requirement(
        &self,
        capital_requirement: Fixed,
        capital_buffer: Fixed,
        risk_weight: Fixed,
    ) -> (met: bool)
        ensures
            met == self.spec_meets_capital_requirement(
                capital_requirement,
                capital_buffer,
                risk_weight,
            ),
    {
        self.capital_ratio(risk_weight).raw >= capital_requirement.plus(capital_buffer).raw
    }

    /// Non-performing loans as a share of loans; zero where there are no
    /// loans.
    pub open spec fn npl_ratio(&self) -> Fixed {
        if self.loans.raw > 0 {
            self.non_performing_loans.over(self.loans)
        } else {
            Fixed::zero()
        }
    }

    /// The bank after setting its lending rate: policy rate plus markup plus
    /// a premium for its share of non-performing loans.
    pub open spec fn spec_set_lending_rate(
        self,
        policy_rate: Fixed,
        base_markup: Fixed,
        risk: Fixed,
    ) -> BankData {
        BankData {
            interest_rate: policy_rate.plus(base_markup).plus(risk.times(self.npl_ratio())),
            ..self
        }
    }

    /// Sets the lending rate for the period.
    pub fn set_lending_rate(&mut self, policy_rate: Fixed, base_markup: Fixed, risk: Fixed)
        ensures
            *final(self) == old(self).spec_set_lending_rate(policy_rate, base_markup, risk),
    {
        let npl_ratio = if self.loans.raw > 0 {
            self.non_performing_loans.over(self.loans)
        } else {
            Fixed::zero()
        };
        self.interest_rate = policy_rate.plus(base_markup).plus(risk.times(npl_ratio));
    }

    /// The bank after working out its interest: income on loans at the
    /// lending rate, expense on deposits at the lending rate less the
    /// deposit margin, never below zero.
    pub open spec fn spec_calculate_income(self) -> BankData {
        BankData {
            interest_income: self.interest_rate.times(self.loans),
            interest_expense: self.interest_rate.minus(deposit_margin()).max(Fixed::zero()).times(
                self.deposits,
            ),
            ..self
        }
    }

    /// Works out interest income and interest expense at the current rate.
    pub fn calculate_income(&mut self)
        ensures
            *final(self) == old(self).spec_calculate_income(),
    {
        self.interest_income = self.interest_rate.times(self.loans);
        let deposit_rate = self.interest_rate.minus(Fixed::from_micros(20_000)).max(Fixed::zero());
        self.interest_expense = deposit_rate.times(self.deposits);
    }

    /// The bank after booking its profit: interest income less interest
    /// expense less provisions, added to capital.
    pub open spec fn spec_update_capital(self) -> BankData {
        let profit = self.interest_income.minus(self.interest_expense).minus(
            self.non_performing_loans.times(provision_rate()),
        );
        BankData { profit, capital: self.capital.plus(profit), ..self }
    }

    /// Books the profit of the period to capital.
    pub fn update_capital(&mut self)
        ensures
            *final(self) == old(self).spec_update_capital(),
    {
        let provisions = self.non_performing_loans.times(Fixed::from_micros(500_000));
        self.profit = self.interest_income.minus(self.interest_expense).minus(provisions);
        self.capital = self.capital.plus(self.profit);
    }

    /// The bank after its full period step: rate, interest, capital.
    pub open spec fn spec_step(
        self,
        policy_rate: Fixed,
        base_markup: Fixed,
        risk: Fixed,
    ) -> BankData {
        self.spec_set_lending_rate(policy_rate, base_markup, risk).spec_calculate_income()
            .spec_update_capital()
    }

    /// Takes the full period step: rate, interest, capital.
    pub fn step(&mut self, policy_rate: Fixed, base_markup: Fixed, risk: Fixed)
        ensures
            *final(self) == old(self).spec_step(policy_rate, base_markup, risk),
            final(self).loans == old(self).loans,
    {
        self.set_lending_rate(policy_rate, base_markup, risk);
        self.calculate_income();
        self.update_capital();
    }

    /// How many times the borrower's revenue covers one period's interest on
    /// the loan.
    pub open spec fn debt_service_coverage(&self, amount: Fixed, borrower_revenue: Fixed) -> Fixed {
        borrower_revenue.over(amount.times(self.interest_rate).max(Fixed::epsilon()))
    }

    /// Whether a loan is approved: the bank is well capitalised, the
    /// borrower's equity covers the collateral, its revenue is positive and
    /// covers the debt service often enough.
    pub open spec fn spec_evaluate_loan(
        &self,
        amount: Fixed,
        borrower_equity: Fixed,
        borrower_revenue: Fixed,
        capital_requirement: Fixed,
        capital_buffer: Fixed,
        risk_weight: Fixed,
        lending_threshold: Fixed,
    ) -> bool {
        &&& self.meets_capital_requirement(capital_requirement, capital_buffer, risk_weight)
        &&& borrower_equity.raw >= amount.times(collateral_rate()).raw
        &&& borrower_revenue.raw > 0
        &&& self.debt_service_coverage(amount, borrower_revenue).raw >= lending_threshold.raw
    }

    /// Decides on a loan application.
    #[verifier::when_used_as_spec(spec_evaluate_loan)]
    pub fn evaluate_loan(
        &self,
        amount: Fixed,
        borrower_equity: Fixed,
        borrower_revenue: Fixed,
        capital_requirement: Fixed,
        capital_buffer: Fixed,
        risk_weight: Fixed,
        lending_threshold: Fixed,
    ) -> (approved: bool)
        ensures
            approved == self.spec_evaluate_loan(
                amount,
                borrower_equity,
                borrower_revenue,
                capital_requirement,
                capital_buffer,
                risk_weight,
                lending_threshold,
            ),
    {
        if !self.meets_capital_requirement(capital_requirement, capital_buffer, risk_weight) {
            return false;
        }
        if borrower_equity.raw < amount.times(Fixed::from_micros(500_000)).raw {
            return false;
        }
        if borrower_revenue.raw <= 0 {
            return false;
        }
        let debt_service = borrower_revenue.over(
            amount.times(self.interest_rate).max(Fixed::epsilon()),
        );
        debt_service.raw >= lending_threshold.raw
    }

    /// The bank after lending `amount`: the loan is booked and a deposit of
    /// the same amount is created.
    pub open spec fn spec_extend_loan(self, amount: Fixed) -> BankData {
        BankData { loans: self.loans.plus(amount), deposits: self.deposits.plus(amount), ..self }
    }

    /// Lends `amount` and returns the rate charged.
    pub fn extend_loan(&mut self, amount: Fixed) -> (rate: Fixed)
        ensures
            *final(self) == old(self).spec_extend_loan(amount),
            rate == old(self).interest_rate,
            old(self).loans.raw >= 0 && amount.raw >= 0 ==> final(self).loans.raw >= 0,
            old(self).loans.raw <= LIMIT && amount.raw >= 0 ==> old(self).loans.raw
                <= final(self).loans.raw <= LIMIT,
            old(self).deposits.raw <= LIMIT && amount.raw >= 0 ==> old(self).deposits.raw
                <= final(self).deposits.raw <= LIMIT,
            -LIMIT <= old(self).loans.raw + amount.raw <= LIMIT ==> final(self).loans.raw == old(
                self,
            ).loans.raw + amount.raw,
            -LIMIT <= old(self).deposits.raw + amount.raw <= LIMIT ==> final(self).deposits.raw
                == old(self).deposits.raw + amount.raw,
    {
        self.loans = self.loans.plus(amount);
        self.deposits = self.deposits.plus(amount);
        self.interest_rate
    }

    /// The bank after booking `amount` as non-performing.
    pub open spec fn spec_record_default(self, amount: Fixed) -> BankData {
        BankData { non_performing_loans: self.non_performing_loans.plus(amount), ..self }
    }

    /// Books `amount` as non-performing.
    pub fn record_default(&mut self, amount: Fixed)
        ensures
            *final(self) == old(self).spec_record_default(amount),
    {
        self.non_performing_loans = self.non_performing_loans.plus(amount);
    }

    /// The bank after `amount` has been repaid.
    pub open spec fn spec_record_repayment(self, amount: Fixed) -> BankData {
        BankData { loans: self.loans.minus(amount).max(Fixed::zero()), ..self }
    }

    /// Takes `amount` off the loan book, which never falls below zero.
    pub fn record_repayment(&mut self, amount: Fixed)
        ensures
            *final(self) == old(self).spec_record_repayment(amount),
            final(self).loans.raw >= 0,
    {
        self.loans = self.loans.minus(amount).max(Fixed::zero());
    }
}

/// The state of the central bank.
#[derive(Clone, Copy, Debug, PartialEq)]
pub struct CentralBankData {
    pub policy_rate: Fixed,
    pub inflation_target: Fixed,
    pub current_inflation: Fixed,
    pub output_gap: Fixed,
    pub previous_rate: Fixed,
}

impl CentralBankData {
    /// A central bank that starts at its target: rate and observed inflation
    /// equal the target, and the output gap is closed.
    pub open spec fn spec_new(inflation_target: Fixed) -> CentralBankData {
        CentralBankData {
            policy_rate: inflation_target,
            inflation_target,
            current_inflation: inflation_target,
            output_gap: Fixed::zero(),
            previous_rate: inflation_target,
        }
    }

    /// Sets up a central bank at its target.
    #[verifier::when_used_as_spec(spec_new)]
    pub fn new(inflation_target: Fixed) -> (central_bank: CentralBankData)
        ensures
            central_bank == CentralBankData::spec_new(inflation_target),
    {
        CentralBankData {
            policy_rate: inflation_target,
            inflation_target,
            current_inflation: inflation_target,
            output_gap: Fixed::zero(),
            previous_rate: inflation_target,
        }
    }

    /// The rate the rule aims at: the target plus the reactions to the
    /// inflation deviation and to the output gap.
    pub open spec fn target_rate(&self, pi_coef: Fixed, y_coef: Fixed) -> Fixed {
        self.inflation_target.plus(
            pi_coef.times(self.current_inflation.minus(self.inflation_target)),
        ).plus(y_coef.times(self.output_gap))
    }

    /// The central bank after applying its rule: the new rate blends the
    /// previous rate with the target rate and respects the lower bound; the
    /// rate it had becomes the previous rate.
    pub open spec fn spec_step(
        self,
        pi_coef: Fixed,
        y_coef: Fixed,
        smoothing: Fixed,
        lower: Fixed,
    ) -> CentralBankData {
        CentralBankData {
            previous_rate: self.policy_rate,
            policy_rate: smoothing.times(self.previous_rate).plus(
                Fixed::one().minus(smoothing).times(self.target_rate(pi_coef, y_coef)),
            ).max(lower),
            ..self
        }
    }

    /// Applies the rule and sets the policy rate.
    pub fn step(&mut self, pi_coef: Fixed, y_coef: Fixed, smoothing: Fixed, lower: Fixed)
        ensures
            *final(self) == old(self).spec_step(pi_coef, y_coef, smoothing, lower),
            final(self).policy_rate.raw >= lower.raw,
    {
        let target_rate = self.inflation_target.plus(
            pi_coef.times(self.current_inflation.minus(self.inflation_target)),
        ).plus(y_coef.times(self.output_gap));
        let smoothed = smoothing.times(self.previous_rate).plus(
            Fixed::one().minus(smoothing).times(target_rate),
        );
        self.previous_rate = self.policy_rate;
        self.policy_rate = smoothed.max(lower);
    }

    /// The central bank after taking note of inflation and the output gap.
    pub open spec fn spec_update_observations(
        self,
        inflation: Fixed,
        output_gap: Fixed,
    ) -> CentralBankData {
        CentralBankData { current_inflation: inflation, output_gap, ..self }
    }

    /// Stores what the next application of the rule will react to.
    pub fn update_observations(&mut self, inflation: Fixed, output_gap: Fixed)
        ensures
            *final(self) == old(self).spec_update_observations(inflation, output_gap),
    {
        self.current_inflation = inflation;
        self.output_gap = output_gap;
    }
}

/// The state of the government. Revenue, expenditure and transfers are per
/// period; debt accumulates.
#[derive(Clone, Copy, Debug, PartialEq)]
pub struct GovernmentData {
    pub tax_revenue: Fixed,
    pub expenditure: Fixed,
    pub transfer_spending: Fixed,
    pub deficit: Fixed,
    pub debt: Fixed,
    pub gdp_estimate: Fixed,
}

impl GovernmentData {
    /// The government with every figure at zero.
    pub open spec fn spec_new() -> GovernmentData {
        GovernmentData {
            tax_revenue: Fixed::zero(),
            expenditure: Fixed::zero(),
            transfer_spending: Fixed::zero(),
            deficit: Fixed::zero(),
            debt: Fixed::zero(),
            gdp_estimate: Fixed::zero(),
        }
    }

    /// Sets up a government with empty books.
    #[verifier::when_used_as_spec(spec_new)]
    pub fn new() -> (government: GovernmentData)
        ensures
            government == GovernmentData::spec_new(),
    {
        GovernmentData {
            tax_revenue: Fixed::zero(),
            expenditure: Fixed::zero(),
            transfer_spending: Fixed::zero(),
            deficit: Fixed::zero(),
            debt: Fixed::zero(),
            gdp_estimate: Fixed::zero(),
        }
    }

    /// The government at the start of a period: nothing collected or spent yet.
    pub open spec fn spec_begin_period(self) -> GovernmentData {
        GovernmentData {
            tax_revenue: Fixed::zero(),
            expenditure: Fixed::zero(),
            transfer_spending: Fixed::zero(),
            ..self
        }
    }

    /// Clears the per-period figures; deficit, debt and the GDP estimate stay.
    pub fn begin_period(&mut self)
        ensures
            *final(self) == old(self).spec_begin_period(),
    {
        self.tax_revenue = Fixed::zero();
        self.expenditure = Fixed::zero();
        self.transfer_spending = Fixed::zero();
    }

    /// The tax due on `base` at `rate`, never negative.
    pub open spec fn tax_due(base: Fixed, rate: Fixed) -> Fixed {
        base.times(rate).max(Fixed::zero())
    }

    /// The government after collecting the tax due on `base` at `rate`.
    pub open spec fn spec_collect(self, base: Fixed, rate: Fixed) -> GovernmentData {
        GovernmentData {
            tax_revenue: self.tax_revenue.plus(GovernmentData::tax_due(base, rate)),
            ..self
        }
    }

    /// Collects tax on `profits` and returns the amount.
    pub fn collect_corporate_tax(&mut self, profits: Fixed, rate: Fixed) -> (tax: Fixed)
        ensures
            tax == GovernmentData::tax_due(profits, rate),
            tax.raw >= 0,
            *final(self) == old(self).spec_collect(profits, rate),
    {
        let tax = profits.times(rate).max(Fixed::zero());
        self.tax_revenue = self.tax_revenue.plus(tax);
        tax
    }

    /// Collects tax on `income` and returns the amount.
    pub fn collect_income_tax(&mut self, income: Fixed, rate: Fixed) -> (tax: Fixed)
        ensures
            tax == GovernmentData::tax_due(income, rate),
            tax.raw >= 0,
            *final(self) == old(self).spec_collect(income, rate),
    {
        let tax = income.times(rate).max(Fixed::zero());
        self.tax_revenue = self.tax_revenue.plus(tax);
        tax
    }

    /// Expenditure as a share of the GDP estimate, where that is positive.
    pub open spec fn planned_spending(&self, spending_gdp_ratio: Fixed) -> Fixed {
        spending_gdp_ratio.times(self.gdp_estimate.max(Fixed::zero()))
    }

    /// The government after planning its expenditure.
    pub open spec fn spec_calculate_spending(self, spending_gdp_ratio: Fixed) -> GovernmentData {
        GovernmentData { expenditure: self.planned_spending(spending_gdp_ratio), ..self }
    }

    /// Sets and returns this period's expenditure.
    pub fn calculate_spending(&mut self, spending_gdp_ratio: Fixed) -> (expenditure: Fixed)
        ensures
            expenditure == old(self).planned_spending(spending_gdp_ratio),
            *final(self) == old(self).spec_calculate_spending(spending_gdp_ratio),
    {
        self.expenditure = spending_gdp_ratio.times(self.gdp_estimate.max(Fixed::zero()));
        self.expenditure
    }

    /// The benefit bill: the replacement ratio of the average wage for each
    /// unemployed household.
    pub open spec fn benefit_bill(
        average_wage: Fixed,
        unemployed_count: usize,
        replacement: Fixed,
    ) -> Fixed {
        replacement.times(average_wage).times_count(unemployed_count as u64)
    }

    /// The government after paying the benefit bill out of transfers.
    pub open spec fn spec_pay_unemployment_benefit(
        self,
        average_wage: Fixed,
        unemployed_count: usize,
        replacement: Fixed,
    ) -> GovernmentData {
        GovernmentData {
            transfer_spending: self.transfer_spending.plus(
                GovernmentData::benefit_bill(average_wage, unemployed_count, replacement),
            ),
            ..self
        }
    }

    /// Pays the benefit bill out of transfers and returns it.
    pub fn pay_unemployment_benefit(
        &mut self,
        average_wage: Fixed,
        unemployed_count: usize,
        replacement: Fixed,
    ) -> (total: Fixed)
        ensures
            total == GovernmentData::benefit_bill(average_wage, unemployed_count, replacement),
            *final(self) == old(self).spec_pay_unemployment_benefit(
                average_wage,
                unemployed_count,
                replacement,
            ),
    {
        let total = replacement.times(average_wage).times_count(unemployed_count as u64);
        self.transfer_spending = self.transfer_spending.plus(total);
        total
    }

    /// The size of the deficit relative to the GDP estimate.
    pub open spec fn deficit_ratio(&self) -> Fixed {
        self.deficit.abs().over(self.gdp_estimate.max(Fixed::epsilon()))
    }

    /// Whether the fiscal rule bites: the GDP estimate is positive and the
    /// deficit ratio exceeds `deficit_target`.
    pub open spec fn deficit_excessive(&self, deficit_target: Fixed) -> bool {
        self.gdp_estimate.raw > 0 && self.deficit_ratio().raw > deficit_target.raw
    }

    /// The government after its fiscal rule: where the deficit ratio exceeds
    /// its target, expenditure is cut in proportion to the excess and to the
    /// GDP estimate, but not below zero; otherwise nothing changes.
    pub open spec fn spec_apply_fiscal_rule(
        self,
        deficit_target: Fixed,
        speed: Fixed,
    ) -> GovernmentData {
        if self.deficit_excessive(deficit_target) {
            GovernmentData {
                expenditure: self.expenditure.minus(
                    speed.times(self.deficit_ratio().minus(deficit_target)).times(
                        self.gdp_estimate,
                    ),
                ).max(Fixed::zero()),
                ..self
            }
        } else {
            self
        }
    }

    /// Applies the fiscal rule to expenditure.
    pub fn apply_fiscal_rule(&mut self, deficit_target: Fixed, speed: Fixed)
        ensures
            *final(self) == old(self).spec_apply_fiscal_rule(deficit_target, speed),
            !old(self).deficit_excessive(deficit_target) ==> *final(self) == *old(self),
            old(self).deficit_excessive(deficit_target) ==> final(self).expenditure.raw >= 0,
            *final(self) == (GovernmentData {
                expenditure: final(self).expenditure,
                ..*old(self)
            }),
    {
        if self.gdp_estimate.raw <= 0 {
            return ;
        }
        let current_deficit_ratio = self.deficit.abs().over(
            self.gdp_estimate.max(Fixed::epsilon()),
        );
        if current_deficit_ratio.raw <= deficit_target.raw {
            return ;
        }
        let gap = current_deficit_ratio.minus(deficit_target);
        let adjustment = speed.times(gap).times(self.gdp_estimate);
        self.expenditure = self.expenditure.minus(adjustment).max(Fixed::zero());
    }

    /// The government after closing the period: the balance is revenue less
    /// all spending, and it is taken off the debt, so that a shortfall adds
    /// to the debt and a surplus reduces it.
    pub open spec fn spec_end_period(self) -> GovernmentData {
        let deficit = self.tax_revenue.minus(self.expenditure.plus(self.transfer_spending));
        GovernmentData { deficit, debt: self.debt.minus(deficit), ..self }
    }

    /// Closes the books of the period.
    pub fn end_period(&mut self)
        ensures
            *final(self) == old(self).spec_end_period(),
    {
        self.deficit = self.tax_revenue.minus(self.expenditure.plus(self.transfer_spending));
        self.debt = self.debt.minus(self.deficit);
    }
}

/// A bank as the scheduler sees it: nothing but its position in the state.
#[derive(Clone, Copy, Debug, PartialEq, Eq)]
pub struct BankAgent {
    pub id: usize,
}

impl BankAgent {
    /// The economy after bank `self.id` has taken its full period step.
    pub open spec fn spec_step(&self, v: EconomyView) -> EconomyView {
        EconomyView {
            banks: v.banks.update(
                self.id as int,
                v.banks[self.id as int].spec_step(
                    v.central_bank.policy_rate,
                    v.config.base_interest_markup,
                    v.config.risk_premium_sensitivity,
                ),
            ),
            ..v
        }
    }

    /// The printable name of the agent: `BankAgent(3)` for the bank at
    /// position 3.
    pub fn label(&self) -> (label: String)
        ensures
            label@ == crate::agents::label::label_of("BankAgent"@, self.id),
    {
        crate::agents::label::agent_label("BankAgent", self.id)
    }

    /// Lets the bank take its full period step.
    pub fn step(&self, state: &mut EconomyState)
        requires
            self.id < old(state)@.banks.len(),
        ensures
            final(state)@ == self.spec_step(old(state)@),
    {
        let policy_rate = state.central_bank.policy_rate;
        let markup = state.config.base_interest_markup;
        let risk = state.config.risk_premium_sensitivity;
        state.banks[self.id].step(policy_rate, markup, risk);
        assert(state@.banks =~= self.spec_step(old(state)@).banks);
    }
}

} // verus!
