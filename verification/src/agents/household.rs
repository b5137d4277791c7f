//! Households: income, consumption, saving and employment status.

use crate::fixed::Fixed;
use crate::state::{EconomyState, EconomyView};
use vstd::prelude::*;

verus! {

/// The whole state of one household. `employer_id` is a position in the
/// collection of firms, not ownership of a firm.
#[derive(Clone, Copy, Debug, PartialEq)]
pub struct HouseholdData {
    pub income: Fixed,
    pub wealth: Fixed,
    pub consumption: Fixed,
    pub savings: Fixed,
    pub mpc: Fixed,
    pub employed: bool,
    pub employer_id: Option<usize>,
    pub wage: Fixed,
    pub transfer_income: Fixed,
}

/// The share of wealth a household with no consumption smoothing would
/// spend each period.
pub open spec fn wealth_spending_rate() -> Fixed {
    Fixed::from_micros(40_000)
}

impl HouseholdData {
    /// Whether the employer reference, if there is one, points at one of
    /// `firm_count` firms.
    pub open spec fn employer_within(&self, firm_count: nat) -> bool {
        match self.employer_id {
            Some(e) => e < firm_count,
            None => true,
        }
    }

    /// A new household: unemployed, with no employer, wage or transfer, and
    /// nothing consumed or saved yet.
    pub fn new(income: Fixed, wealth: Fixed, mpc: Fixed) -> (household: HouseholdData)
        ensures
            household == (HouseholdData {
                income,
                wealth,
                consumption: Fixed::zero(),
                savings: Fixed::zero(),
                mpc,
                employed: false,
                employer_id: None,
                wage: Fixed::zero(),
                transfer_income: Fixed::zero(),
            }),
    {
        HouseholdData {
            income,
            wealth,
            consumption: Fixed::zero(),
            savings: Fixed::zero(),
            mpc,
            employed: false,
            employer_id: None,
            wage: Fixed::zero(),
            transfer_income: Fixed::zero(),
        }
    }

    /// This period's income: the wage if employed, plus any transfer.
    pub open spec fn earned_income(&self) -> Fixed {
        (if self.employed {
            self.wage
        } else {
            Fixed::zero()
        }).plus(self.transfer_income)
    }

    /// The household after receiving its income.
    pub open spec fn spec_receive_income(self) -> HouseholdData {
        HouseholdData { income: self.earned_income(), ..self }
    }

    /// Receives the income of the period.
    pub fn receive_income(&mut self)
        ensures
            *final(self) == old(self).spec_receive_income(),
    {
        let wage_income = if self.employed {
            self.wage
        } else {
            Fixed::zero()
        };
        self.income = wage_income.plus(self.transfer_income);
    }

    /// What the household spends: its propensity to consume out of income
    /// plus a share of wealth, at least zero and at most all it has.
    pub open spec fn desired_consumption(&self, smoothing: Fixed) -> Fixed {
        self.mpc.times(self.income).plus(
            Fixed::one().minus(smoothing).times(wealth_spending_rate()).times(self.wealth),
        ).max(Fixed::zero()).min(self.income.plus(self.wealth))
    }

    /// The household after choosing its consumption.
    pub open spec fn spec_consume(self, smoothing: Fixed) -> HouseholdData {
        HouseholdData { consumption: self.desired_consumption(smoothing), ..self }
    }

    /// Chooses consumption for the period.
    pub fn consume(&mut self, smoothing: Fixed)
        ensures
            *final(self) == old(self).spec_consume(smoothing),
            final(self).consumption.raw <= final(self).income.plus(final(self).wealth).raw,
    {
        let from_income = self.mpc.times(self.income);
        let from_wealth = Fixed::one().minus(smoothing).times(Fixed::from_micros(40_000)).times(
            self.wealth,
        );
        let desired = from_income.plus(from_wealth);
        self.consumption = desired.max(Fixed::zero()).min(self.income.plus(self.wealth));
    }

    /// The household after saving: what was not consumed is added to wealth.
    pub open spec fn spec_save(self) -> HouseholdData {
        let savings = self.income.minus(self.consumption);
        HouseholdData { savings, wealth: self.wealth.plus(savings), ..self }
    }

    /// Saves what was not consumed.
    pub fn save(&mut self)
        ensures
            *final(self) == old(self).spec_save(),
    {
        self.savings = self.income.minus(self.consumption);
        self.wealth = self.wealth.plus(self.savings);
    }

    /// The household after one period: income received, consumption chosen,
    /// the rest saved, and the transfer used up.
    pub open spec fn spec_step(self, consumption_smoothing: Fixed) -> HouseholdData {
        HouseholdData {
            transfer_income: Fixed::zero(),
            ..self.spec_receive_income().spec_consume(consumption_smoothing).spec_save()
        }
    }

    /// Takes the household's step for the period.
    pub fn step(&mut self, consumption_smoothing: Fixed)
        ensures
            *final(self) == old(self).spec_step(consumption_smoothing),
            final(self).employed == old(self).employed,
            final(self).employer_id == old(self).employer_id,
            final(self).wage == old(self).wage,
    {
        self.receive_income();
        self.consume(consumption_smoothing);
        self.save();
        self.transfer_income = Fixed::zero();
    }

    /// The household after taking up a job at firm `employer_id` for `wage`.
    pub open spec fn spec_become_employed(self, employer_id: usize, wage: Fixed) -> HouseholdData {
        HouseholdData { employed: true, employer_id: Some(employer_id), wage, ..self }
    }

    /// Takes up a job at firm `employer_id` for `wage`.
    pub fn become_employed(&mut self, employer_id: usize, wage: Fixed)
        ensures
            *final(self) == old(self).spec_become_employed(employer_id, wage),
    {
        self.employed = true;
        self.employer_id = Some(employer_id);
        self.wage = wage;
    }

    /// The household after losing its job.
    pub open spec fn spec_become_unemployed(self) -> HouseholdData {
        HouseholdData { employed: false, employer_id: None, wage: Fixed::zero(), ..self }
    }

    /// Loses the job: no employer and no wage remain.
    pub fn become_unemployed(&mut self)
        ensures
            *final(self) == old(self).spec_become_unemployed(),
    {
        self.employed = false;
        self.employer_id = None;
        self.wage = Fixed::zero();
    }

    /// Whether the household looks for work, given its uniform draw: only
    /// the unemployed search, and only when the draw falls below the search
    /// intensity.
    pub open spec fn spec_is_searching(&self, draw: u64, job_search_intensity: Fixed) -> bool {
        !self.employed && job_search_intensity.exceeds_draw(draw)
    }

    /// Tells whether the household looks for work, given its uniform draw.
    #[verifier::when_used_as_spec(spec_is_searching)]
    pub fn is_searching(&self, draw: u64, job_search_intensity: Fixed) -> (searching: bool)
        ensures
            searching == self.spec_is_searching(draw, job_search_intensity),
    {
        if self.employed {
            return false;
        }
        job_search_intensity.exceeds_draw(draw)
    }
}

/// A household as the scheduler sees it: nothing but its position in the
/// state.
#[derive(Clone, Copy, Debug, PartialEq, Eq)]
pub struct HouseholdAgent {
    pub id: usize,
}

impl HouseholdAgent {
    /// The economy after household `self.id` has taken its step.
    pub open spec fn spec_step(&self, v: EconomyView) -> EconomyView {
        EconomyView {
            households: v.households.update(
                self.id as int,
                v.households[self.id as int].spec_step(v.config.consumption_smoothing),
            ),
            ..v
        }
    }

    /// The printable name of the agent: `HouseholdAgent(3)` for the
    /// household at position 3.
    pub fn label(&self) -> (label: String)
        ensures
            label@ == crate::agents::label::label_of("HouseholdAgent"@, self.id),
    {
        crate::agents::label::agent_label("HouseholdAgent", self.id)
    }

    /// Lets the household take its step for the period.
    pub fn step(&self, state: &mut EconomyState)
        requires
            self.id < old(state)@.households.len(),
        ensures
            final(state)@ == self.spec_step(old(state)@),
    {
        let smoothing = state.config.consumption_smoothing;
        state.households[self.id].step(smoothing);
        assert(state@.households =~= self.spec_step(old(state)@).households);
    }
}

} // verus!
