//! Firms: production planning, pricing, labour demand, production and the
//! books that follow from them.

use crate::fixed::Fixed;
use crate::state::{EconomyState, EconomyView};
use vstd::prelude::*;

verus! {

/// The whole state of one firm.
#[derive(Clone, Debug, PartialEq)]
pub struct FirmData {
    pub sector: String,
    pub employees: u32,
    pub wage_bill: Fixed,
    pub turnover: Fixed,
    pub capital: Fixed,
    pub cash: Fixed,
    pub debt: Fixed,
    pub equity: Fixed,
    pub price: Fixed,
    pub output: Fixed,
    pub inventory: Fixed,
    pub profit: Fixed,
    pub markup: Fixed,
    pub vacancies: u32,
    pub wage_rate: Fixed,
    pub desired_production: Fixed,
    pub bankrupt: bool,
    /// Whether the banks have settled what the firm owed when it failed. A
    /// failed firm is a source of defaults until then, and never after.
    pub default_settled: bool,
}

/// The floor below which no markup falls.
pub open spec fn markup_floor() -> Fixed {
    Fixed::from_micros(10_000)
}

impl FirmData {
    /// Whether the wage bill is the wage rate times the head count.
    pub open spec fn wages_consistent(&self) -> bool {
        self.wage_bill == self.wage_rate.times_count(self.employees as u64)
    }

    /// Output per employee; one where nobody is employed.
    pub open spec fn labour_productivity(&self) -> Fixed {
        if self.employees > 0 {
            self.output.over_count(self.employees as u64)
        } else {
            Fixed::one()
        }
    }

    /// Units the firm expects to sell: last turnover at the current price.
    pub open spec fn expected_sales(&self) -> Fixed {
        self.turnover.over(self.price.max(Fixed::epsilon()))
    }

    /// A new firm: unit price, no debt, no inventory, output and planned
    /// production equal to turnover, equity equal to capital plus cash.
    pub fn new(
        sector: String,
        employees: u32,
        wage_rate: Fixed,
        turnover: Fixed,
        capital: Fixed,
        cash: Fixed,
        markup: Fixed,
    ) -> (firm: FirmData)
        ensures
            firm.sector == sector,
            firm.employees == employees,
            firm.wage_bill == wage_rate.times_count(employees as u64),
            firm.turnover == turnover,
            firm.capital == capital,
            firm.cash == cash,
            firm.debt == Fixed::zero(),
            firm.equity == capital.plus(cash),
            firm.price == Fixed::one(),
            firm.output == turnover,
            firm.inventory == Fixed::zero(),
            firm.profit == Fixed::zero(),
            firm.markup == markup,
            firm.vacancies == 0,
            firm.wage_rate == wage_rate,
            firm.desired_production == turnover,
            !firm.bankrupt,
            !firm.default_settled,
    {
        FirmData {
            sector,
            employees,
            wage_bill: wage_rate.times_count(employees as u64),
            turnover,
            capital,
            cash,
            debt: Fixed::zero(),
            equity: capital.plus(cash),
            price: Fixed::one(),
            output: turnover,
            inventory: Fixed::zero(),
            profit: Fixed::zero(),
            markup,
            vacancies: 0,
            wage_rate,
            desired_production: turnover,
            bankrupt: false,
            default_settled: false,
        }
    }

    /// The firm after planning: desired production covers expected sales
    /// and the inventory target, less what is in stock, and is never negative.
    pub open spec fn spec_plan_production(self, inventory_target_ratio: Fixed) -> FirmData {
        let expected = self.expected_sales();
        FirmData {
            desired_production: expected.plus(inventory_target_ratio.times(expected)).minus(
                self.inventory,
            ).max(Fixed::zero()),
            ..self
        }
    }

    /// Plans production for the period.
    pub fn plan_production(&mut self, inventory_target_ratio: Fixed)
        ensures
            *final(self) == old(self).spec_plan_production(inventory_target_ratio),
            final(self).desired_production.raw >= 0,
    {
        let expected = self.turnover.over(self.price.max(Fixed::epsilon()));
        let desired = expected.plus(inventory_target_ratio.times(expected)).minus(self.inventory);
        self.desired_production = desired.max(Fixed::zero());
    }

    /// The firm after pricing: unit labour cost plus markup where there is
    /// output, the old price otherwise.
    pub open spec fn spec_set_price(self) -> FirmData {
        if self.output.raw > 0 {
            FirmData {
                price: self.wage_bill.over(self.output.max(Fixed::epsilon())).times(
                    Fixed::one().plus(self.markup),
                ),
                ..self
            }
        } else {
            self
        }
    }

    /// Sets the price from unit labour cost and markup.
    pub fn set_price(&mut self)
        ensures
            *final(self) == old(self).spec_set_price(),
    {
        if self.output.raw > 0 {
            let unit_cost = self.wage_bill.over(self.output.max(Fixed::epsilon()));
            self.price = unit_cost.times(Fixed::one().plus(self.markup));
        }
    }

    /// The head count that desired production calls for.
    pub open spec fn desired_employees(&self) -> u32 {
        self.desired_production.over(self.labour_productivity().max(Fixed::epsilon())).to_count()
    }

    /// The firm after setting its vacancies: the desired head count less the
    /// current one, never negative.
    pub open spec fn spec_determine_labour_demand(self) -> FirmData {
        FirmData { vacancies: self.desired_employees().saturating_sub(self.employees), ..self }
    }

    /// Sets the vacancies that desired production calls for.
    pub fn determine_labour_demand(&mut self)
        ensures
            *final(self) == old(self).spec_determine_labour_demand(),
            final(self).employees + final(self).vacancies <= u32::MAX,
    {
        let productivity = if self.employees > 0 {
            self.output.over_count(self.employees as u64)
        } else {
            Fixed::one()
        };
        let desired_employees: u32 = self.desired_production.over(
            productivity.max(Fixed::epsilon()),
        ).to_count();
        self.vacancies = desired_employees.saturating_sub(self.employees);
    }

    /// What the firm produces: the least of desired production, what its
    /// employees can make and what its capital allows.
    pub open spec fn production(&self, capacity_utilization_target: Fixed) -> Fixed {
        self.desired_production.min(
            self.labour_productivity().times_count(self.employees as u64),
        ).min(self.capital.times(capacity_utilization_target))
    }

    /// The firm after producing: output is set and added to inventory.
    pub open spec fn spec_produce(self, capacity_utilization_target: Fixed) -> FirmData {
        let output = self.production(capacity_utilization_target);
        FirmData { output, inventory: self.inventory.plus(output), ..self }
    }

    /// Produces and adds the output to inventory.
    pub fn produce(&mut self, capacity_utilization_target: Fixed)
        ensures
            *final(self) == old(self).spec_produce(capacity_utilization_target),
    {
        let productivity = if self.employees > 0 {
            self.output.over_count(self.employees as u64)
        } else {
            Fixed::one()
        };
        let capacity = self.capital.times(capacity_utilization_target);
        let labour_output = productivity.times_count(self.employees as u64);
        self.output = self.desired_production.min(labour_output).min(capacity);
        self.inventory = self.inventory.plus(self.output);
    }

    /// Units sold from stock: expected sales, as far as inventory reaches.
    pub open spec fn sales_quantity(&self) -> Fixed {
        self.inventory.min(self.expected_sales())
    }

    /// Whether equity has fallen so far below zero, relative to capital, that
    /// the firm fails.
    pub open spec fn insolvent(&self, capacity_utilization_target: Fixed) -> bool {
        &&& self.equity.raw < 0
        &&& self.capital.raw > 0
        &&& self.equity.over(self.capital).raw < capacity_utilization_target.neg().raw
    }

    /// The firm after closing its books for the period.
    pub open spec fn spec_update_financials(self, capacity_utilization_target: Fixed) -> FirmData {
        let sold = self.sales_quantity();
        let revenue = sold.times(self.price);
        let wage_bill = self.wage_rate.times_count(self.employees as u64);
        let profit = revenue.minus(wage_bill);
        let booked = FirmData {
            inventory: self.inventory.minus(sold).max(Fixed::zero()),
            turnover: revenue,
            wage_bill,
            profit,
            cash: self.cash.plus(profit),
            equity: self.equity.plus(profit),
            ..self
        };
        FirmData {
            bankrupt: self.bankrupt || booked.insolvent(capacity_utilization_target),
            ..booked
        }
    }

    /// Sells from stock, pays wages, books the profit and checks for failure.
    pub fn update_financials(&mut self, capacity_utilization_target: Fixed)
        ensures
            *final(self) == old(self).spec_update_financials(capacity_utilization_target),
            final(self).inventory.raw >= 0,
            final(self).wages_consistent(),
            old(self).bankrupt ==> final(self).bankrupt,
    {
        let sold = self.inventory.min(self.turnover.over(self.price.max(Fixed::epsilon())));
        let revenue = sold.times(self.price);
        self.inventory = self.inventory.minus(sold).max(Fixed::zero());
        self.turnover = revenue;
        self.wage_bill = self.wage_rate.times_count(self.employees as u64);
        self.profit = revenue.minus(self.wage_bill);
        self.cash = self.cash.plus(self.profit);
        self.equity = self.equity.plus(self.profit);
        if self.equity.raw < 0 && self.capital.raw > 0 {
            let ratio = self.equity.over(self.capital);
            let threshold = capacity_utilization_target.neg();
            if ratio.raw < threshold.raw {
                self.bankrupt = true;
            }
        }
    }

    /// The firm after one period of its own behaviour: nothing if it is
    /// bankrupt; otherwise planning, pricing, labour demand, production and
    /// book-keeping, in that order.
    pub open spec fn spec_step(
        self,
        inventory_target_ratio: Fixed,
        capacity_utilization_target: Fixed,
    ) -> FirmData {
        if self.bankrupt {
            self
        } else {
            self.spec_plan_production(inventory_target_ratio).spec_set_price()
                .spec_determine_labour_demand().spec_produce(
                capacity_utilization_target,
            ).spec_update_financials(capacity_utilization_target)
        }
    }

    /// Takes the firm's step for the period; a failed firm does nothing.
    pub fn step(&mut self, inventory_target_ratio: Fixed, capacity_utilization_target: Fixed)
        ensures
            *final(self) == old(self).spec_step(
                inventory_target_ratio,
                capacity_utilization_target,
            ),
            old(self).bankrupt ==> *final(self) == *old(self),
            old(self).bankrupt ==> final(self).bankrupt,
            !old(self).bankrupt ==> final(self).wages_consistent(),
            old(self).inventory.raw >= 0 ==> final(self).inventory.raw >= 0,
            final(self).debt == old(self).debt,
    {
        if self.bankrupt {
            return ;
        }
        self.plan_production(inventory_target_ratio);
        self.set_price();
        self.determine_labour_demand();
        self.produce(capacity_utilization_target);
        self.update_financials(capacity_utilization_target);
    }

    /// The markup after adapting to `excess_demand`: raised in proportion
    /// when demand exceeds supply, lowered otherwise but never below the
    /// floor.
    pub open spec fn adapted_markup(&self, excess_demand: Fixed, speed: Fixed) -> Fixed {
        let moved = self.markup.plus(speed.times(excess_demand));
        if excess_demand.raw > 0 {
            moved
        } else {
            moved.max(markup_floor())
        }
    }

    /// The firm after adapting its markup to `excess_demand`.
    pub open spec fn spec_adapt_markup(self, excess_demand: Fixed, speed: Fixed) -> FirmData {
        FirmData { markup: self.adapted_markup(excess_demand, speed), ..self }
    }

    /// Adapts the markup to excess demand.
    pub fn adapt_markup(&mut self, excess_demand: Fixed, speed: Fixed)
        ensures
            *final(self) == old(self).spec_adapt_markup(excess_demand, speed),
            excess_demand.raw <= 0 ==> final(self).markup.raw >= markup_floor().raw,
    {
        let moved = self.markup.plus(speed.times(excess_demand));
        if excess_demand.raw > 0 {
            self.markup = moved;
        } else {
            self.markup = moved.max(Fixed::from_micros(10_000));
        }
    }

    /// The firm after hiring `count` people at `wage`: the head count grows
    /// (saturating), the wage rate is `wage`, and that many vacancies close.
    pub open spec fn spec_hire(self, count: u32, wage: Fixed) -> FirmData {
        let employees = self.employees.saturating_add(count);
        FirmData {
            employees,
            wage_rate: wage,
            wage_bill: wage.times_count(employees as u64),
            vacancies: self.vacancies.saturating_sub(count),
            ..self
        }
    }

    /// Hires `count` people at `wage`.
    pub fn hire(&mut self, count: u32, wage: Fixed)
        ensures
            *final(self) == old(self).spec_hire(count, wage),
            final(self).wages_consistent(),
    {
        self.employees = self.employees.saturating_add(count);
        self.wage_rate = wage;
        self.wage_bill = self.wage_rate.times_count(self.employees as u64);
        self.vacancies = self.vacancies.saturating_sub(count);
    }

    /// The firm after `count` people leave: the head count shrinks, but not
    /// below zero.
    pub open spec fn spec_fire(self, count: u32) -> FirmData {
        let employees = self.employees.saturating_sub(count);
        FirmData { employees, wage_bill: self.wage_rate.times_count(employees as u64), ..self }
    }

    /// Lets `count` people go.
    pub fn fire(&mut self, count: u32)
        ensures
            *final(self) == old(self).spec_fire(count),
            final(self).wages_consistent(),
    {
        self.employees = self.employees.saturating_sub(count);
        self.wage_bill = self.wage_rate.times_count(self.employees as u64);
    }
}

/// A firm as the scheduler sees it: nothing but its position in the state.
#[derive(Clone, Copy, Debug, PartialEq, Eq)]
pub struct FirmAgent {
    pub id: usize,
}

impl FirmAgent {
    /// The economy after firm `self.id` has taken its step.
    pub open spec fn spec_step(&self, v: EconomyView) -> EconomyView {
        EconomyView {
            firms: v.firms.update(
                self.id as int,
                v.firms[self.id as int].spec_step(
                    v.config.inventory_target_ratio,
                    v.config.capacity_utilization_target,
                ),
            ),
            ..v
        }
    }

    /// The printable name of the agent: `FirmAgent(3)` for the firm at
    /// position 3.
    pub fn label(&self) -> (label: String)
        ensures
            label@ == crate::agents::label::label_of("FirmAgent"@, self.id),
    {
        crate::agents::label::agent_label("FirmAgent", self.id)
    }

    /// Lets the firm take its step for the period.
    pub fn step(&self, state: &mut EconomyState)
        requires
            self.id < old(state)@.firms.len(),
        ensures
            final(state)@ == self.spec_step(old(state)@),
    {
        let inventory_target_ratio = state.config.inventory_target_ratio;
        let capacity_utilization_target = state.config.capacity_utilization_target;
        state.firms[self.id].step(inventory_target_ratio, capacity_utilization_target);
        assert(state@.firms =~= self.spec_step(old(state)@).firms);
    }
}

} // verus!
