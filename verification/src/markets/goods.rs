//! The goods market: households and the government buy from the firms in
//! business, the cheaper firms first in line.

use crate::agents::{FirmData, HouseholdData};
use crate::fixed::Fixed;
use crate::state::{EconomyState, EconomyView};
use vstd::prelude::*;

verus! {

/// What the goods market found in one period.
#[derive(Clone, Copy, Debug, PartialEq)]
pub struct GoodsOutcome {
    pub total_sales: Fixed,
    pub average_price: Fixed,
    pub excess_demand: Fixed,
    pub inflation: Fixed,
}

impl GoodsOutcome {
    /// The outcome of a market in which nothing happened.
    pub open spec fn empty() -> GoodsOutcome {
        GoodsOutcome {
            total_sales: Fixed::zero(),
            average_price: Fixed::zero(),
            excess_demand: Fixed::zero(),
            inflation: Fixed::zero(),
        }
    }
}

impl Default for GoodsOutcome {
    fn default() -> (outcome: GoodsOutcome)
        ensures
            outcome == GoodsOutcome::empty(),
    {
        GoodsOutcome {
            total_sales: Fixed::zero(),
            average_price: Fixed::zero(),
            excess_demand: Fixed::zero(),
            inflation: Fixed::zero(),
        }
    }
}

/// The consumption of the first `k` households, summed in order.
pub open spec fn total_consumption(households: Seq<HouseholdData>, k: nat) -> Fixed
    decreases k,
{
    if k == 0 {
        Fixed::zero()
    } else {
        total_consumption(households, (k - 1) as nat).plus(households[k - 1].consumption)
    }
}

/// What a firm has on offer, at its price.
pub open spec fn supply_value(firm: FirmData) -> Fixed {
    firm.inventory.times(firm.price)
}

/// The number of firms in business among the first `k`.
pub open spec fn active_count(firms: Seq<FirmData>, k: nat) -> nat
    decreases k,
{
    if k == 0 {
        0
    } else {
        active_count(firms, (k - 1) as nat) + if firms[k - 1].bankrupt {
            0nat
        } else {
            1nat
        }
    }
}

/// The supply of the firms in business among the first `k`, summed in order.
pub open spec fn total_supply(firms: Seq<FirmData>, k: nat) -> Fixed
    decreases k,
{
    if k == 0 {
        Fixed::zero()
    } else if firms[k - 1].bankrupt {
        total_supply(firms, (k - 1) as nat)
    } else {
        total_supply(firms, (k - 1) as nat).plus(supply_value(firms[k - 1]))
    }
}

/// The highest price among the firms in business among the first `k`; the
/// least value where there is none.
pub open spec fn highest_price(firms: Seq<FirmData>, k: nat) -> Fixed
    decreases k,
{
    if k == 0 {
        Fixed::lowest()
    } else if firms[k - 1].bankrupt {
        highest_price(firms, (k - 1) as nat)
    } else {
        highest_price(firms, (k - 1) as nat).max(firms[k - 1].price)
    }
}

/// The prices of the firms in business among the first `k`, summed in order.
pub open spec fn price_sum(firms: Seq<FirmData>, k: nat) -> Fixed
    decreases k,
{
    if k == 0 {
        Fixed::zero()
    } else if firms[k - 1].bankrupt {
        price_sum(firms, (k - 1) as nat)
    } else {
        price_sum(firms, (k - 1) as nat).plus(firms[k - 1].price)
    }
}

/// A firm's weight in the allocation of demand: its distance below the
/// highest price, and never less than the smallest positive value.
pub open spec fn competitiveness(firm: FirmData, max_price: Fixed) -> Fixed {
    max_price.minus(firm.price).plus(Fixed::epsilon()).max(Fixed::epsilon())
}

/// The weights of the firms in business among the first `k`, summed in order.
pub open spec fn total_weight(firms: Seq<FirmData>, k: nat, max_price: Fixed) -> Fixed
    decreases k,
{
    if k == 0 {
        Fixed::zero()
    } else if firms[k - 1].bankrupt {
        total_weight(firms, (k - 1) as nat, max_price)
    } else {
        total_weight(firms, (k - 1) as nat, max_price).plus(
            competitiveness(firms[k - 1], max_price),
        )
    }
}

/// The demand that falls to a firm: its share of all weights, of all demand.
pub open spec fn demand_for(
    firm: FirmData,
    demand: Fixed,
    max_price: Fixed,
    weight_sum: Fixed,
) -> Fixed {
    demand.times(competitiveness(firm, max_price).over(weight_sum))
}

/// What a firm sells when `demand` falls to it: no more than it has on offer.
pub open spec fn sales_of(firm: FirmData, demand: Fixed) -> Fixed {
    demand.min(supply_value(firm))
}

/// A firm after selling into `demand`: the quantity sold leaves its
/// inventory, which does not fall below zero; its turnover is what it sold;
/// its markup adapts to its own excess demand, relative to what it had on
/// offer.
pub open spec fn firm_after_sale(firm: FirmData, demand: Fixed, speed: Fixed) -> FirmData {
    let available = supply_value(firm);
    let sold = sales_of(firm, demand);
    FirmData {
        inventory: firm.inventory.minus(sold.over(firm.price.max(Fixed::epsilon()))).max(
            Fixed::zero(),
        ),
        turnover: sold,
        markup: firm.adapted_markup(
            demand.minus(available).over(available.max(Fixed::epsilon())),
            speed,
        ),
        ..firm
    }
}

/// The sales of the firms in business among the first `k`, summed in order.
pub open spec fn total_sales(
    firms: Seq<FirmData>,
    k: nat,
    demand: Fixed,
    max_price: Fixed,
    weight_sum: Fixed,
) -> Fixed
    decreases k,
{
    if k == 0 {
        Fixed::zero()
    } else if firms[k - 1].bankrupt {
        total_sales(firms, (k - 1) as nat, demand, max_price, weight_sum)
    } else {
        total_sales(firms, (k - 1) as nat, demand, max_price, weight_sum).plus(
            sales_of(firms[k - 1], demand_for(firms[k - 1], demand, max_price, weight_sum)),
        )
    }
}

/// All demand of the period: what households consume and what the
/// government spends.
pub open spec fn total_demand(v: EconomyView) -> Fixed {
    total_consumption(v.households, v.households.len()).plus(v.government.expenditure)
}

/// The rate of change from the previous average price to the new one; zero
/// where there is no positive previous price.
pub open spec fn inflation_between(previous: Fixed, current: Fixed) -> Fixed {
    if previous.raw > 0 {
        current.minus(previous).over(previous)
    } else {
        Fixed::zero()
    }
}

/// The economy after the goods market has cleared. With no firm in business
/// the previous average price is carried forward, with no sales and no
/// inflation. Otherwise every firm in business sells into its share of
/// demand, and the outcome holds total sales, the mean price of the firms in
/// business and the inflation that it implies.
#[verifier::opaque]
pub open spec fn goods_cleared(v: EconomyView) -> EconomyView {
    let n = v.firms.len();
    let demand = total_demand(v);
    let excess_demand = demand.minus(total_supply(v.firms, n));
    if active_count(v.firms, n) == 0 {
        EconomyView {
            goods_last: GoodsOutcome {
                total_sales: Fixed::zero(),
                average_price: v.goods_average_price,
                excess_demand,
                inflation: Fixed::zero(),
            },
            ..v
        }
    } else {
        let max_price = highest_price(v.firms, n);
        let weight_sum = total_weight(v.firms, n, max_price);
        let average_price = price_sum(v.firms, n).over_count(active_count(v.firms, n) as u64);
        EconomyView {
            firms: Seq::new(
                n,
                |i: int|
                    if v.firms[i].bankrupt {
                        v.firms[i]
                    } else {
                        firm_after_sale(
                            v.firms[i],
                            demand_for(v.firms[i], demand, max_price, weight_sum),
                            v.config.markup_adjustment_speed,
                        )
                    },
            ),
            goods_average_price: average_price,
            goods_last: GoodsOutcome {
                total_sales: total_sales(v.firms, n, demand, max_price, weight_sum),
                average_price,
                excess_demand,
                inflation: inflation_between(v.goods_average_price, average_price),
            },
            ..v
        }
    }
}

/// What the firms in business offer, taken together: the value of all
/// inventories at their prices, the highest price, the sum of all prices
/// and the number of firms.
struct Offer {
    supply: Fixed,
    max_price: Fixed,
    prices: Fixed,
    active: usize,
}

/// All that households consume.
fn sum_consumption(households: &Vec<HouseholdData>) -> (consumption: Fixed)
    ensures
        consumption == total_consumption(households@, households@.len()),
{
    let n: usize = households.len();
    let mut consumption = Fixed::zero();
    let mut h: usize = 0;
    while h < n
        invariant
            h <= n,
            n == households@.len(),
            consumption == total_consumption(households@, h as nat),
        decreases n - h,
    {
        consumption = consumption.plus(households[h].consumption);
        h = h + 1;
    }
    consumption
}

/// Supply, the highest price, the sum of prices and the number of the
/// firms in business.
fn survey_offer(firms: &Vec<FirmData>) -> (offer: Offer)
    ensures
        offer.supply == total_supply(firms@, firms@.len()),
        offer.max_price == highest_price(firms@, firms@.len()),
        offer.prices == price_sum(firms@, firms@.len()),
        offer.active == active_count(firms@, firms@.len()),
{
    let n: usize = firms.len();
    let mut supply = Fixed::zero();
    let mut max_price = Fixed::lowest();
    let mut prices = Fixed::zero();
    let mut active: usize = 0;
    let mut i: usize = 0;
    while i < n
        invariant
            i <= n,
            n == firms@.len(),
            supply == total_supply(firms@, i as nat),
            max_price == highest_price(firms@, i as nat),
            prices == price_sum(firms@, i as nat),
            active == active_count(firms@, i as nat),
            active <= i,
        decreases n - i,
    {
        if !firms[i].bankrupt {
            supply = supply.plus(firms[i].inventory.times(firms[i].price));
            max_price = max_price.max(firms[i].price);
            prices = prices.plus(firms[i].price);
            active = active + 1;
        }
        i = i + 1;
    }
    Offer { supply, max_price, prices, active }
}

/// The weights of all firms in business, summed. The sum is positive where
/// a firm is in business.
fn sum_weights(firms: &Vec<FirmData>, max_price: Fixed) -> (weight_sum: Fixed)
    ensures
        weight_sum == total_weight(firms@, firms@.len(), max_price),
        weight_sum.raw >= 0,
        active_count(firms@, firms@.len()) > 0 ==> weight_sum.raw > 0,
{
    let n: usize = firms.len();
    let mut weight_sum = Fixed::zero();
    let mut i: usize = 0;
    while i < n
        invariant
            i <= n,
            n == firms@.len(),
            weight_sum == total_weight(firms@, i as nat, max_price),
            weight_sum.raw >= 0,
            active_count(firms@, i as nat) > 0 ==> weight_sum.raw > 0,
        decreases n - i,
    {
        if !firms[i].bankrupt {
            let weight = max_price.minus(firms[i].price).plus(Fixed::epsilon()).max(
                Fixed::epsilon(),
            );
            weight_sum = weight_sum.plus(weight);
        }
        i = i + 1;
    }
    weight_sum
}

/// Lets every firm in business sell into its share of `demand`. Returns
/// the sum of all sales.
fn sell(
    firms: &mut Vec<FirmData>,
    demand: Fixed,
    max_price: Fixed,
    weight_sum: Fixed,
    markup_speed: Fixed,
) -> (sales: Fixed)
    requires
        weight_sum.raw != 0,
    ensures
        final(firms)@.len() == old(firms)@.len(),
        sales == total_sales(old(firms)@, old(firms)@.len(), demand, max_price, weight_sum),
        forall|i: int|
            0 <= i < old(firms)@.len() ==> #[trigger] final(firms)@[i] == if old(
                firms,
            )@[i].bankrupt {
                old(firms)@[i]
            } else {
                firm_after_sale(
                    old(firms)@[i],
                    demand_for(old(firms)@[i], demand, max_price, weight_sum),
                    markup_speed,
                )
            },
{
    let n: usize = firms.len();
    let mut sales = Fixed::zero();
    let mut i: usize = 0;
    while i < n
        invariant
            i <= n,
            n == old(firms)@.len(),
            firms@.len() == n,
            weight_sum.raw != 0,
            sales == total_sales(old(firms)@, i as nat, demand, max_price, weight_sum),
            forall|t: int| i <= t < n ==> firms@[t] == old(firms)@[t],
            forall|t: int|
                0 <= t < i ==> #[trigger] firms@[t] == if old(firms)@[t].bankrupt {
                    old(firms)@[t]
                } else {
                    firm_after_sale(
                        old(firms)@[t],
                        demand_for(old(firms)@[t], demand, max_price, weight_sum),
                        markup_speed,
                    )
                },
        decreases n - i,
    {
        if !firms[i].bankrupt {
            let weight = max_price.minus(firms[i].price).plus(Fixed::epsilon()).max(
                Fixed::epsilon(),
            );
            let share = weight.over(weight_sum);
            let demand_for_firm = demand.times(share);
            let available = firms[i].inventory.times(firms[i].price);
            let actual_sales = demand_for_firm.min(available);
            let quantity_sold = actual_sales.over(firms[i].price.max(Fixed::epsilon()));
            firms[i].inventory = firms[i].inventory.minus(quantity_sold).max(Fixed::zero());
            firms[i].turnover = actual_sales;
            sales = sales.plus(actual_sales);
            let firm_excess = demand_for_firm.minus(available).over(
                available.max(Fixed::epsilon()),
            );
            firms[i].adapt_markup(firm_excess, markup_speed);
        }
        i = i + 1;
    }
    sales
}

/// Clears the goods market for one period.
pub fn clear_goods_market(state: &mut EconomyState)
    ensures
        final(state)@ == goods_cleared(old(state)@),
        final(state)@ == (EconomyView {
            firms: final(state)@.firms,
            goods_average_price: final(state).goods_average_price,
            goods_last: final(state).goods_last,
            ..old(state)@
        }),
        final(state)@.firms.len() == old(state)@.firms.len(),
        forall|i: int|
            0 <= i < old(state)@.firms.len() ==> #[trigger] final(state)@.firms[i] == (FirmData {
                inventory: final(state)@.firms[i].inventory,
                turnover: final(state)@.firms[i].turnover,
                markup: final(state)@.firms[i].markup,
                ..old(state)@.firms[i]
            }),
        forall|i: int|
            0 <= i < old(state)@.firms.len() && old(state)@.firms[i].bankrupt
                ==> #[trigger] final(state)@.firms[i] == old(state)@.firms[i],
        forall|i: int|
            0 <= i < old(state)@.firms.len() && old(state)@.firms[i].inventory.raw >= 0 ==> (
            #[trigger] final(state)@.firms[i]).inventory.raw >= 0,
        active_count(old(state)@.firms, old(state)@.firms.len()) == 0 ==> {
            &&& final(state).goods_average_price == old(state).goods_average_price
            &&& final(state).goods_last.average_price == old(state).goods_average_price
            &&& final(state).goods_last.total_sales == Fixed::zero()
            &&& final(state).goods_last.inflation == Fixed::zero()
        },
{
    reveal(goods_cleared);
    let ghost v0 = state@;
    let previous_average_price = state.goods_average_price;
    let markup_speed = state.config.markup_adjustment_speed;

    let demand = sum_consumption(&state.households).plus(state.government.expenditure);
    let offer = survey_offer(&state.firms);
    let excess_demand = demand.minus(offer.supply);
    if offer.active == 0 {
        state.goods_last = GoodsOutcome {
            total_sales: Fixed::zero(),
            average_price: previous_average_price,
            excess_demand,
            inflation: Fixed::zero(),
        };
        return ;
    }
    let weight_sum = sum_weights(&state.firms, offer.max_price);
    let sales = sell(&mut state.firms, demand, offer.max_price, weight_sum, markup_speed);

    let average_price = offer.prices.over_count(offer.active as u64);
    let inflation = if previous_average_price.raw > 0 {
        average_price.minus(previous_average_price).over(previous_average_price)
    } else {
        Fixed::zero()
    };
    state.goods_average_price = average_price;
    state.goods_last = GoodsOutcome {
        total_sales: sales,
        average_price,
        excess_demand,
        inflation,
    };
    proof {
        let after = state@;
        assert(after.firms =~= goods_cleared(v0).firms);
        assert forall|i: int| 0 <= i < v0.firms.len() implies #[trigger] after.firms[i]
            == (FirmData {
            inventory: after.firms[i].inventory,
            turnover: after.firms[i].turnover,
            markup: after.firms[i].markup,
            ..v0.firms[i]
        }) by {}
        assert forall|i: int|
            0 <= i < v0.firms.len() && v0.firms[i].inventory.raw >= 0 implies (
        #[trigger] after.firms[i]).inventory.raw >= 0 by {}
    }
}

} // verus!
