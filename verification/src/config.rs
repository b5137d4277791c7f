//! The parameters of a run. They are read, never changed, while it lasts.

use crate::fixed::Fixed;
use vstd::prelude::*;

verus! {

/// Every behavioural parameter of the model.
#[derive(Clone, Debug, PartialEq)]
pub struct Config {
    // Firms
    pub price_markup: Fixed,
    pub inventory_target_ratio: Fixed,
    pub capacity_utilization_target: Fixed,
    pub markup_adjustment_speed: Fixed,
    // Households
    pub consumption_smoothing: Fixed,
    pub job_search_intensity: Fixed,
    pub income_mean: Fixed,
    pub income_std: Fixed,
    pub wealth_shape: Fixed,
    pub mpc_mean: Fixed,
    pub mpc_std: Fixed,
    // Banks
    pub capital_requirement: Fixed,
    pub capital_buffer: Fixed,
    pub base_interest_markup: Fixed,
    pub risk_premium_sensitivity: Fixed,
    pub lending_threshold: Fixed,
    pub risk_weight: Fixed,
    // Labour market
    pub separation_rate: Fixed,
    pub matching_efficiency: Fixed,
    pub wage_stickiness: Fixed,
    // Credit market
    pub default_rate_base: Fixed,
    pub rationing: bool,
    // Government
    pub tax_rate_corporate: Fixed,
    pub tax_rate_income: Fixed,
    pub spending_gdp_ratio: Fixed,
    pub unemployment_benefit_ratio: Fixed,
    pub deficit_target: Fixed,
    pub deficit_adjustment_speed: Fixed,
    // Central bank
    pub inflation_target: Fixed,
    pub inflation_coefficient: Fixed,
    pub output_gap_coefficient: Fixed,
    pub interest_rate_smoothing: Fixed,
    pub lower_bound: Fixed,
    // Sector labels, handed to firms in turn
    pub sectors: Vec<String>,
}

/// The sector labels of the default configuration, in order.
pub open spec fn default_sectors() -> Seq<Seq<char>> {
    seq![
        "manufacturing"@,
        "construction"@,
        "retail_trade"@,
        "wholesale_trade"@,
        "professional_services"@,
        "financial_services"@,
        "real_estate"@,
        "information_technology"@,
        "healthcare"@,
        "accommodation_food"@,
        "transportation"@,
        "utilities"@,
        "other_services"@,
    ]
}

impl Config {
    /// Whether every parameter has its documented default value.
    pub open spec fn is_default(&self) -> bool {
        &&& self.price_markup == Fixed::from_micros(150_000)
        &&& self.inventory_target_ratio == Fixed::from_micros(200_000)
        &&& self.capacity_utilization_target == Fixed::from_micros(850_000)
        &&& self.markup_adjustment_speed == Fixed::from_micros(100_000)
        &&& self.consumption_smoothing == Fixed::from_micros(700_000)
        &&& self.job_search_intensity == Fixed::from_micros(300_000)
        &&& self.income_mean == Fixed::from_int(35_000)
        &&& self.income_std == Fixed::from_int(15_000)
        &&& self.wealth_shape == Fixed::from_int(2)
        &&& self.mpc_mean == Fixed::from_micros(800_000)
        &&& self.mpc_std == Fixed::from_micros(100_000)
        &&& self.capital_requirement == Fixed::from_micros(100_000)
        &&& self.capital_buffer == Fixed::from_micros(20_000)
        &&& self.base_interest_markup == Fixed::from_micros(20_000)
        &&& self.risk_premium_sensitivity == Fixed::from_micros(50_000)
        &&& self.lending_threshold == Fixed::from_micros(300_000)
        &&& self.risk_weight == Fixed::from_int(1)
        &&& self.separation_rate == Fixed::from_micros(50_000)
        &&& self.matching_efficiency == Fixed::from_micros(300_000)
        &&& self.wage_stickiness == Fixed::from_micros(800_000)
        &&& self.default_rate_base == Fixed::from_micros(10_000)
        &&& self.rationing
        &&& self.tax_rate_corporate == Fixed::from_micros(190_000)
        &&& self.tax_rate_income == Fixed::from_micros(200_000)
        &&& self.spending_gdp_ratio == Fixed::from_micros(400_000)
        &&& self.unemployment_benefit_ratio == Fixed::from_micros(400_000)
        &&& self.deficit_target == Fixed::from_micros(30_000)
        &&& self.deficit_adjustment_speed == Fixed::from_micros(100_000)
        &&& self.inflation_target == Fixed::from_micros(20_000)
        &&& self.inflation_coefficient == Fixed::from_micros(1_500_000)
        &&& self.output_gap_coefficient == Fixed::from_micros(500_000)
        &&& self.interest_rate_smoothing == Fixed::from_micros(800_000)
        &&& self.lower_bound == Fixed::from_micros(1_000)
        &&& self.sectors.deep_view() =~= default_sectors()
    }
}

impl Default for Config {
    fn default() -> (config: Config)
        ensures
            config.is_default(),
    {
        let mut sectors: Vec<String> = Vec::new();
        sectors.push("manufacturing".to_owned());
        sectors.push("construction".to_owned());
        sectors.push("retail_trade".to_owned());
        sectors.push("wholesale_trade".to_owned());
        sectors.push("professional_services".to_owned());
        sectors.push("financial_services".to_owned());
        sectors.push("real_estate".to_owned());
        sectors.push("information_technology".to_owned());
        sectors.push("healthcare".to_owned());
        sectors.push("accommodation_food".to_owned());
        sectors.push("transportation".to_owned());
        sectors.push("utilities".to_owned());
        sectors.push("other_services".to_owned());
        Config {
            price_markup: Fixed::from_micros(150_000),
            inventory_target_ratio: Fixed::from_micros(200_000),
            capacity_utilization_target: Fixed::from_micros(850_000),
            markup_adjustment_speed: Fixed::from_micros(100_000),
            consumption_smoothing: Fixed::from_micros(700_000),
            job_search_intensity: Fixed::from_micros(300_000),
            income_mean: Fixed::from_int(35_000),
            income_std: Fixed::from_int(15_000),
            wealth_shape: Fixed::from_int(2),
            mpc_mean: Fixed::from_micros(800_000),
            mpc_std: Fixed::from_micros(100_000),
            capital_requirement: Fixed::from_micros(100_000),
            capital_buffer: Fixed::from_micros(20_000),
            base_interest_markup: Fixed::from_micros(20_000),
            risk_premium_sensitivity: Fixed::from_micros(50_000),
            lending_threshold: Fixed::from_micros(300_000),
            risk_weight: Fixed::from_int(1),
            separation_rate: Fixed::from_micros(50_000),
            matching_efficiency: Fixed::from_micros(300_000),
            wage_stickiness: Fixed::from_micros(800_000),
            default_rate_base: Fixed::from_micros(10_000),
            rationing: true,
            tax_rate_corporate: Fixed::from_micros(190_000),
            tax_rate_income: Fixed::from_micros(200_000),
            spending_gdp_ratio: Fixed::from_micros(400_000),
            unemployment_benefit_ratio: Fixed::from_micros(400_000),
            deficit_target: Fixed::from_micros(30_000),
            deficit_adjustment_speed: Fixed::from_micros(100_000),
            inflation_target: Fixed::from_micros(20_000),
            inflation_coefficient: Fixed::from_micros(1_500_000),
            output_gap_coefficient: Fixed::from_micros(500_000),
            interest_rate_smoothing: Fixed::from_micros(800_000),
            lower_bound: Fixed::from_micros(1_000),
            sectors,
        }
    }
}

} // verus!
