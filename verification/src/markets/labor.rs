//! The labour market: separations, the search of the unemployed, the
//! matching of seekers to vacancies, and the benefit paid to those left
//! without work.

use crate::agents::{FirmData, GovernmentData, HouseholdData};
use crate::fixed::{lemma_ratio_in_unit_interval, Fixed, SCALE};
use crate::random::in_draw_range;
use crate::state::{EconomyState, EconomyView};
use vstd::prelude::*;

verus! {

/// What the labour market found in one period.
#[derive(Clone, Copy, Debug, PartialEq)]
pub struct LaborOutcome {
    pub total_employed: usize,
    pub total_unemployed: usize,
    pub unemployment_rate: Fixed,
    pub average_wage: Fixed,
    pub total_matches: usize,
    pub total_separations: usize,
}

impl LaborOutcome {
    /// The outcome of a market in which nothing happened.
    pub open spec fn empty() -> LaborOutcome {
        LaborOutcome {
            total_employed: 0,
            total_unemployed: 0,
            unemployment_rate: Fixed::zero(),
            average_wage: Fixed::zero(),
            total_matches: 0,
            total_separations: 0,
        }
    }
}

impl Default for LaborOutcome {
    fn default() -> (outcome: LaborOutcome)
        ensures
            outcome == LaborOutcome::empty(),
    {
        LaborOutcome {
            total_employed: 0,
            total_unemployed: 0,
            unemployment_rate: Fixed::zero(),
            average_wage: Fixed::zero(),
            total_matches: 0,
            total_separations: 0,
        }
    }
}

/// The number of employed households among the first `k`.
pub open spec fn employed_count(households: Seq<HouseholdData>, k: nat) -> nat
    decreases k,
{
    if k == 0 {
        0
    } else {
        employed_count(households, (k - 1) as nat) + if households[k - 1].employed {
            1nat
        } else {
            0nat
        }
    }
}

/// Whether a household counts towards the average wage: it is employed at
/// a positive wage.
pub open spec fn earns(household: HouseholdData) -> bool {
    household.employed && household.wage.raw > 0
}

/// The number of earners among the first `k` households.
pub open spec fn earner_count(households: Seq<HouseholdData>, k: nat) -> nat
    decreases k,
{
    if k == 0 {
        0
    } else {
        earner_count(households, (k - 1) as nat) + if earns(households[k - 1]) {
            1nat
        } else {
            0nat
        }
    }
}

/// The wages of the earners among the first `k` households, summed in order.
pub open spec fn wage_sum(households: Seq<HouseholdData>, k: nat) -> Fixed
    decreases k,
{
    if k == 0 {
        Fixed::zero()
    } else if earns(households[k - 1]) {
        wage_sum(households, (k - 1) as nat).plus(households[k - 1].wage)
    } else {
        wage_sum(households, (k - 1) as nat)
    }
}

/// The mean wage of all earners; zero where nobody earns.
pub open spec fn average_wage(households: Seq<HouseholdData>) -> Fixed {
    let earners = earner_count(households, households.len());
    if earners == 0 {
        Fixed::zero()
    } else {
        wage_sum(households, households.len()).over_count(earners as u64)
    }
}

/// Firms and households after some households have faced separation, and
/// the number of separations so far.
pub struct Separations {
    pub firms: Seq<FirmData>,
    pub households: Seq<HouseholdData>,
    pub count: nat,
}

/// The firms after one employee of firm `employer` has left, if there is
/// such a firm.
pub open spec fn firms_after_leaving(
    firms: Seq<FirmData>,
    employer: Option<usize>,
) -> Seq<FirmData> {
    match employer {
        Some(e) => firms.update(e as int, firms[e as int].spec_fire(1)),
        None => firms,
    }
}

/// The separations among the first `k` households. Every employed
/// household takes one draw, in order; where the draw falls below `rate`,
/// the household loses its job and its employer one employee.
pub open spec fn separations(
    firms: Seq<FirmData>,
    households: Seq<HouseholdData>,
    rate: Fixed,
    draws: Seq<u64>,
    k: nat,
) -> Separations
    decreases k,
{
    if k == 0 {
        Separations { firms, households, count: 0 }
    } else {
        let run = separations(firms, households, rate, draws, (k - 1) as nat);
        let household = households[k - 1];
        if household.employed && rate.exceeds_draw(
            draws[employed_count(households, (k - 1) as nat) as int],
        ) {
            Separations {
                firms: firms_after_leaving(run.firms, household.employer_id),
                households: run.households.update(k - 1, household.spec_become_unemployed()),
                count: run.count + 1,
            }
        } else {
            run
        }
    }
}

/// The separations among the first `k` households read no draw beyond the
/// ones of the employed among them.
proof fn lemma_separations_stable(
    firms: Seq<FirmData>,
    households: Seq<HouseholdData>,
    rate: Fixed,
    a: Seq<u64>,
    b: Seq<u64>,
    k: nat,
)
    requires
        forall|i: int| 0 <= i < employed_count(households, k) ==> a[i] == b[i],
    ensures
        separations(firms, households, rate, a, k) == separations(firms, households, rate, b, k),
    decreases k,
{
    if k > 0 {
        lemma_separations_stable(firms, households, rate, a, b, (k - 1) as nat);
    }
}

/// Lets every employed household face separation. Returns the number of
/// separations.
#[verifier::loop_isolation(false)]
fn separate(state: &mut EconomyState) -> (count: usize)
    requires
        old(state)@.references_valid(),
    ensures
        ({
            let v0 = old(state)@;
            let draws = final(state)@.drawn.skip(v0.drawn.len() as int);
            let run = separations(
                v0.firms,
                v0.households,
                v0.config.separation_rate,
                draws,
                v0.households.len(),
            );
            &&& draws.len() == employed_count(v0.households, v0.households.len())
            &&& in_draw_range(draws)
            &&& final(state)@ == (EconomyView {
                firms: run.firms,
                households: run.households,
                drawn: v0.drawn + draws,
                ..v0
            })
            &&& count == run.count
        }),
        final(state)@.references_valid(),
        final(state)@.firms.len() == old(state)@.firms.len(),
        final(state)@.households.len() == old(state)@.households.len(),
        forall|t: int|
            0 <= t < old(state)@.firms.len() ==> #[trigger] final(state)@.firms[t] == (FirmData {
                employees: final(state)@.firms[t].employees,
                wage_bill: final(state)@.firms[t].wage_bill,
                ..old(state)@.firms[t]
            }),
{
    let ghost v0 = state@;
    let rate = state.config.separation_rate;
    let n: usize = state.households.len();
    let ghost n_firms = v0.firms.len();
    let ghost mut cur: Seq<u64> = Seq::empty();
    let mut count: usize = 0;
    let mut h: usize = 0;
    assert(v0.drawn + cur =~= v0.drawn);
    while h < n
        invariant
            h <= n,
            state@ == (EconomyView {
                firms: state.firms@,
                households: state.households@,
                drawn: v0.drawn + cur,
                ..v0
            }),
            cur.len() == employed_count(v0.households, h as nat),
            in_draw_range(cur),
            state.firms@ == separations(v0.firms, v0.households, rate, cur, h as nat).firms,
            state.households@ == separations(
                v0.firms,
                v0.households,
                rate,
                cur,
                h as nat,
            ).households,
            count == separations(v0.firms, v0.households, rate, cur, h as nat).count,
            count <= h,
            state.firms@.len() == n_firms,
            state.households@.len() == n,
            forall|t: int| h <= t < n ==> state.households@[t] == v0.households[t],
            forall|t: int|
                0 <= t < n ==> (#[trigger] state.households@[t]).employer_within(n_firms),
            forall|t: int|
                0 <= t < n_firms ==> #[trigger] state.firms@[t] == (FirmData {
                    employees: state.firms@[t].employees,
                    wage_bill: state.firms@[t].wage_bill,
                    ..v0.firms[t]
                }),
        decreases n - h,
    {
        if state.households[h].employed {
            let ghost before = cur;
            let draw: u64 = state.rng.next_draw();
            proof {
                cur = cur.push(draw);
                assert(v0.drawn + cur =~= (v0.drawn + before).push(draw));
                lemma_separations_stable(v0.firms, v0.households, rate, before, cur, h as nat);
            }
            if rate.exceeds_draw(draw) {
                let ghost run = separations(v0.firms, v0.households, rate, cur, h as nat);
                assert(state.households@[h as int].employer_within(n_firms));
                match state.households[h].employer_id {
                    Some(employer_id) => {
                        state.firms[employer_id].fire(1);
                        assert(state.firms@ =~= firms_after_leaving(
                            run.firms,
                            v0.households[h as int].employer_id,
                        ));
                    },
                    None => {},
                }
                state.households[h].become_unemployed();
                assert(state.households@ =~= run.households.update(
                    h as int,
                    v0.households[h as int].spec_become_unemployed(),
                ));
                count = count + 1;
            }
        }
        h = h + 1;
    }
    assert((v0.drawn + cur).skip(v0.drawn.len() as int) =~= cur);
    count
}

/// The mean wage of all earners; zero where nobody earns.
fn mean_wage(households: &Vec<HouseholdData>) -> (wage: Fixed)
    ensures
        wage == average_wage(households@),
{
    let n: usize = households.len();
    let mut sum = Fixed::zero();
    let mut earners: usize = 0;
    let mut h: usize = 0;
    while h < n
        invariant
            h <= n,
            n == households@.len(),
            sum == wage_sum(households@, h as nat),
            earners == earner_count(households@, h as nat),
            earners <= h,
        decreases n - h,
    {
        if households[h].employed && households[h].wage.raw > 0 {
            sum = sum.plus(households[h].wage);
            earners = earners + 1;
        }
        h = h + 1;
    }
    if earners == 0 {
        Fixed::zero()
    } else {
        sum.over_count(earners as u64)
    }
}

/// The number of employed households.
fn count_employed(households: &Vec<HouseholdData>) -> (employed: usize)
    ensures
        employed == employed_count(households@, households@.len()),
        employed <= households@.len(),
{
    let n: usize = households.len();
    let mut employed: usize = 0;
    let mut h: usize = 0;
    while h < n
        invariant
            h <= n,
            n == households@.len(),
            employed == employed_count(households@, h as nat),
            employed <= h,
        decreases n - h,
    {
        if households[h].employed {
            employed = employed + 1;
        }
        h = h + 1;
    }
    employed
}

/// The households that look for work, by position and in order. Household
/// `j` takes draw `j`; it searches if it is unemployed and its draw falls
/// below `intensity`.
pub open spec fn seekers(
    households: Seq<HouseholdData>,
    intensity: Fixed,
    draws: Seq<u64>,
) -> Seq<usize>
    decreases draws.len(),
{
    if draws.len() == 0 {
        Seq::empty()
    } else {
        let found = seekers(households, intensity, draws.drop_last());
        let j = draws.len() - 1;
        if j < households.len() && households[j].is_searching(draws.last(), intensity) {
            found.push(j as usize)
        } else {
            found
        }
    }
}

/// Draws once for every household and collects those that look for work.
#[verifier::loop_isolation(false)]
fn find_seekers(state: &mut EconomyState) -> (seeking: Vec<usize>)
    ensures
        ({
            let v0 = old(state)@;
            let draws = final(state)@.drawn.skip(v0.drawn.len() as int);
            &&& draws.len() == v0.households.len()
            &&& in_draw_range(draws)
            &&& final(state)@ == (EconomyView { drawn: v0.drawn + draws, ..v0 })
            &&& seeking@ == seekers(v0.households, v0.config.job_search_intensity, draws)
        }),
        seeking@.len() <= old(state)@.households.len(),
        forall|s: int| 0 <= s < seeking@.len() ==> seeking@[s] < old(state)@.households.len(),
{
    let ghost v0 = state@;
    let intensity = state.config.job_search_intensity;
    let n: usize = state.households.len();
    let ghost mut cur: Seq<u64> = Seq::empty();
    let mut seeking: Vec<usize> = Vec::new();
    let mut h: usize = 0;
    assert(v0.drawn + cur =~= v0.drawn);
    while h < n
        invariant
            h <= n,
            state@ == (EconomyView { drawn: v0.drawn + cur, ..v0 }),
            cur.len() == h,
            in_draw_range(cur),
            seeking@ == seekers(v0.households, intensity, cur),
            seeking@.len() <= h,
            forall|s: int| 0 <= s < seeking@.len() ==> seeking@[s] < n,
        decreases n - h,
    {
        let ghost before = cur;
        let draw: u64 = state.rng.next_draw();
        proof {
            cur = cur.push(draw);
            assert(v0.drawn + cur =~= (v0.drawn + before).push(draw));
            assert(cur.drop_last() =~= before);
        }
        if state.households[h].is_searching(draw, intensity) {
            seeking.push(h);
        }
        h = h + 1;
    }
    assert((v0.drawn + cur).skip(v0.drawn.len() as int) =~= cur);
    seeking
}

/// Whether a firm takes on people: it has vacancies and is in business.
pub open spec fn hiring(firm: FirmData) -> bool {
    firm.vacancies > 0 && !firm.bankrupt
}

/// The position of the first hiring firm at or after `from`; the number of
/// firms where there is none.
pub open spec fn first_hiring(firms: Seq<FirmData>, from: nat) -> nat
    decreases firms.len() - from,
{
    if from >= firms.len() {
        firms.len()
    } else if hiring(firms[from as int]) {
        from
    } else {
        first_hiring(firms, from + 1)
    }
}

/// Firms and households in the course of matching: the next seeker in
/// line and the number of matches so far.
pub struct Matching {
    pub firms: Seq<FirmData>,
    pub households: Seq<HouseholdData>,
    pub next_seeker: nat,
    pub matches: nat,
}

/// Whether matching goes on: a seeker is left and a firm is hiring.
pub open spec fn open_to_match(run: Matching, seeking: Seq<usize>) -> bool {
    run.next_seeker < seeking.len() && first_hiring(run.firms, 0) < run.firms.len()
}

/// The wage at which a firm hires: its own wage rate, pulled towards the
/// economy-wide average by `stickiness` where there is such an average.
pub open spec fn matched_wage(firm: FirmData, base_wage: Fixed, stickiness: Fixed) -> Fixed {
    if base_wage.raw > 0 {
        stickiness.times(base_wage).plus(Fixed::one().minus(stickiness).times(firm.wage_rate))
    } else {
        firm.wage_rate
    }
}

/// One attempt at a match, decided by `draw`. The first hiring firm meets
/// the next seeker in line. Where the draw lies above `efficiency` they
/// part; otherwise the firm hires the seeker. Either way the seeker has had
/// its turn. Once matching is over, nothing changes.
pub open spec fn match_step(
    run: Matching,
    seeking: Seq<usize>,
    efficiency: Fixed,
    stickiness: Fixed,
    base_wage: Fixed,
    draw: u64,
) -> Matching {
    if !open_to_match(run, seeking) {
        run
    } else if efficiency.below_draw(draw) {
        Matching { next_seeker: run.next_seeker + 1, ..run }
    } else {
        let f = first_hiring(run.firms, 0) as int;
        let h = seeking[run.next_seeker as int] as int;
        let wage = matched_wage(run.firms[f], base_wage, stickiness);
        Matching {
            firms: run.firms.update(f, run.firms[f].spec_hire(1, wage)),
            households: run.households.update(
                h,
                run.households[h].spec_become_employed(f as usize, wage),
            ),
            next_seeker: run.next_seeker + 1,
            matches: run.matches + 1,
        }
    }
}

/// Matching after one attempt for each of `draws`, in order.
pub open spec fn matching(
    start: Matching,
    seeking: Seq<usize>,
    efficiency: Fixed,
    stickiness: Fixed,
    base_wage: Fixed,
    draws: Seq<u64>,
) -> Matching
    decreases draws.len(),
{
    if draws.len() == 0 {
        start
    } else {
        match_step(
            matching(start, seeking, efficiency, stickiness, base_wage, draws.drop_last()),
            seeking,
            efficiency,
            stickiness,
            base_wage,
            draws.last(),
        )
    }
}

/// Where no firm before `f` is hiring and firm `f` is, or there is no firm
/// `f`, the first hiring firm is `f`.
proof fn lemma_first_hiring(firms: Seq<FirmData>, from: nat, f: nat)
    requires
        from <= f <= firms.len(),
        forall|t: int| from <= t < f ==> !hiring(#[trigger] firms[t]),
        f < firms.len() ==> hiring(firms[f as int]),
    ensures
        first_hiring(firms, from) == f,
    decreases f - from,
{
    if from < f {
        lemma_first_hiring(firms, from + 1, f);
    }
}

/// Matches seekers to vacancies, firm by firm in order, drawing once for
/// each attempt. Returns the number of matches.
#[verifier::loop_isolation(false)]
fn match_seekers(
    state: &mut EconomyState,
    seeking: &Vec<usize>,
    base_wage: Fixed,
) -> (matches: usize)
    requires
        old(state)@.references_valid(),
        forall|s: int| 0 <= s < seeking@.len() ==> seeking@[s] < old(state)@.households.len(),
    ensures
        ({
            let v0 = old(state)@;
            let draws = final(state)@.drawn.skip(v0.drawn.len() as int);
            let run = matching(
                Matching { firms: v0.firms, households: v0.households, next_seeker: 0, matches: 0 },
                seeking@,
                v0.config.matching_efficiency,
                v0.config.wage_stickiness,
                base_wage,
                draws,
            );
            &&& final(state)@ == (EconomyView {
                firms: run.firms,
                households: run.households,
                drawn: v0.drawn + draws,
                ..v0
            })
            &&& matches == run.matches
            &&& draws.len() == run.next_seeker
            &&& in_draw_range(draws)
            &&& !open_to_match(run, seeking@)
        }),
        matches <= seeking@.len(),
        final(state)@.references_valid(),
        final(state)@.firms.len() == old(state)@.firms.len(),
        final(state)@.households.len() == old(state)@.households.len(),
        forall|t: int|
            0 <= t < old(state)@.firms.len() ==> #[trigger] final(state)@.firms[t] == (FirmData {
                employees: final(state)@.firms[t].employees,
                wage_rate: final(state)@.firms[t].wage_rate,
                wage_bill: final(state)@.firms[t].wage_bill,
                vacancies: final(state)@.firms[t].vacancies,
                ..old(state)@.firms[t]
            }),
        forall|t: int|
            0 <= t < old(state)@.firms.len() && old(state)@.firms[t].bankrupt
                ==> #[trigger] final(state)@.firms[t] == old(state)@.firms[t],
{
    let ghost v0 = state@;
    let efficiency = state.config.matching_efficiency;
    let stickiness = state.config.wage_stickiness;
    let n_firms: usize = state.firms.len();
    let n_seekers: usize = seeking.len();
    let ghost n_households = v0.households.len();
    let ghost start = Matching {
        firms: v0.firms,
        households: v0.households,
        next_seeker: 0,
        matches: 0,
    };
    let ghost mut cur: Seq<u64> = Seq::empty();
    let mut matches: usize = 0;
    let mut seeker_idx: usize = 0;
    let mut firm_idx: usize = 0;
    assert(v0.drawn + cur =~= v0.drawn);
    while firm_idx < n_firms
        invariant
            firm_idx <= n_firms,
            seeker_idx <= n_seekers,
            matches <= seeker_idx,
            cur.len() == seeker_idx,
            in_draw_range(cur),
            state@ == (EconomyView {
                firms: state.firms@,
                households: state.households@,
                drawn: v0.drawn + cur,
                ..v0
            }),
            state.firms@.len() == n_firms,
            state.households@.len() == n_households,
            matching(start, seeking@, efficiency, stickiness, base_wage, cur) == (Matching {
                firms: state.firms@,
                households: state.households@,
                next_seeker: seeker_idx as nat,
                matches: matches as nat,
            }),
            forall|t: int| 0 <= t < firm_idx ==> !hiring(#[trigger] state.firms@[t]) || seeker_idx
                == n_seekers,
            forall|t: int|
                0 <= t < n_households ==> (#[trigger] state.households@[t]).employer_within(
                    n_firms as nat,
                ),
            forall|t: int|
                0 <= t < n_firms ==> #[trigger] state.firms@[t] == (FirmData {
                    employees: state.firms@[t].employees,
                    wage_rate: state.firms@[t].wage_rate,
                    wage_bill: state.firms@[t].wage_bill,
                    vacancies: state.firms@[t].vacancies,
                    ..v0.firms[t]
                }),
            forall|t: int|
                0 <= t < n_firms && v0.firms[t].bankrupt ==> #[trigger] state.firms@[t]
                    == v0.firms[t],
        decreases n_firms - firm_idx,
    {
        if !state.firms[firm_idx].bankrupt {
            while state.firms[firm_idx].vacancies > 0 && seeker_idx < n_seekers
                invariant
                    firm_idx < n_firms,
                    !state.firms@[firm_idx as int].bankrupt,
                    seeker_idx <= n_seekers,
                    matches <= seeker_idx,
                    cur.len() == seeker_idx,
                    in_draw_range(cur),
            in_draw_range(cur),
                    state@ == (EconomyView {
                        firms: state.firms@,
                        households: state.households@,
                        drawn: v0.drawn + cur,
                        ..v0
                    }),
                    state.firms@.len() == n_firms,
                    state.households@.len() == n_households,
                    matching(start, seeking@, efficiency, stickiness, base_wage, cur) == (Matching {
                        firms: state.firms@,
                        households: state.households@,
                        next_seeker: seeker_idx as nat,
                        matches: matches as nat,
                    }),
                    forall|t: int|
                        0 <= t < firm_idx ==> !hiring(#[trigger] state.firms@[t]) || seeker_idx
                            == n_seekers,
                    forall|t: int|
                        0 <= t < n_households ==> (
                        #[trigger] state.households@[t]).employer_within(n_firms as nat),
                    forall|t: int|
                        0 <= t < n_firms ==> #[trigger] state.firms@[t] == (FirmData {
                            employees: state.firms@[t].employees,
                            wage_rate: state.firms@[t].wage_rate,
                            wage_bill: state.firms@[t].wage_bill,
                            vacancies: state.firms@[t].vacancies,
                            ..v0.firms[t]
                        }),
                    forall|t: int|
                        0 <= t < n_firms && v0.firms[t].bankrupt ==> #[trigger] state.firms@[t]
                            == v0.firms[t],
                decreases n_seekers - seeker_idx,
            {
                let ghost before = cur;
                let ghost run = Matching {
                    firms: state.firms@,
                    households: state.households@,
                    next_seeker: seeker_idx as nat,
                    matches: matches as nat,
                };
                proof {
                    lemma_first_hiring(run.firms, 0, firm_idx as nat);
                }
                let draw: u64 = state.rng.next_draw();
                proof {
                    cur = cur.push(draw);
                    assert(v0.drawn + cur =~= (v0.drawn + before).push(draw));
                    assert(cur.drop_last() =~= before);
                }
                if efficiency.below_draw(draw) {
                    seeker_idx = seeker_idx + 1;
                    continue ;
                }
                let hh_idx: usize = seeking[seeker_idx];
                let offered_wage = state.firms[firm_idx].wage_rate;
                let wage = if base_wage.raw > 0 {
                    stickiness.times(base_wage).plus(
                        Fixed::one().minus(stickiness).times(offered_wage),
                    )
                } else {
                    offered_wage
                };
                state.firms[firm_idx].hire(1, wage);
                state.households[hh_idx].become_employed(firm_idx, wage);
                matches = matches + 1;
                seeker_idx = seeker_idx + 1;
                assert(state.firms@ =~= run.firms.update(
                    firm_idx as int,
                    run.firms[firm_idx as int].spec_hire(1, wage),
                ));
                assert(state.households@ =~= run.households.update(
                    hh_idx as int,
                    run.households[hh_idx as int].spec_become_employed(firm_idx, wage),
                ));
            }
        }
        firm_idx = firm_idx + 1;
    }
    proof {
        assert((v0.drawn + cur).skip(v0.drawn.len() as int) =~= cur);
        if seeker_idx < n_seekers {
            lemma_first_hiring(state.firms@, 0, n_firms as nat);
        }
    }
    matches
}

/// The households after the benefit has been handed out: every unemployed
/// household has `per_head` as its transfer income.
pub open spec fn with_benefit(
    households: Seq<HouseholdData>,
    per_head: Fixed,
) -> Seq<HouseholdData> {
    Seq::new(
        households.len(),
        |h: int|
            if households[h].employed {
                households[h]
            } else {
                HouseholdData { transfer_income: per_head, ..households[h] }
            },
    )
}

/// Hands `per_head` to every unemployed household.
fn hand_out_benefit(households: &mut Vec<HouseholdData>, per_head: Fixed)
    ensures
        final(households)@ == with_benefit(old(households)@, per_head),
{
    let n: usize = households.len();
    let mut h: usize = 0;
    while h < n
        invariant
            h <= n,
            households@.len() == n,
            n == old(households)@.len(),
            forall|t: int| h <= t < n ==> households@[t] == old(households)@[t],
            forall|t: int|
                0 <= t < h ==> #[trigger] households@[t] == with_benefit(
                    old(households)@,
                    per_head,
                )[t],
        decreases n - h,
    {
        if !households[h].employed {
            households[h].transfer_income = per_head;
        }
        h = h + 1;
    }
    assert(households@ =~= with_benefit(old(households)@, per_head));
}

/// The share of households without work; zero where there are no
/// households.
pub open spec fn unemployment_rate(unemployed: nat, total: nat) -> Fixed {
    if total > 0 {
        Fixed::ratio(unemployed as u64, total as u64)
    } else {
        Fixed::zero()
    }
}

/// Firms and households once the labour market has dealt with separations,
/// search and matching, reading its draws from the front of `draws`. The
/// first draws, one for each employed household, decide the separations;
/// the next, one for each household, decide who searches; the rest, one for
/// each attempt, decide the matches, at wages anchored on the average wage
/// before matching.
pub open spec fn labor_matched(v: EconomyView, draws: Seq<u64>) -> Matching {
    let n = v.households.len();
    let first = employed_count(v.households, n) as int;
    let parted = labor_parted(v, draws);
    matching(
        Matching {
            firms: parted.firms,
            households: parted.households,
            next_seeker: 0,
            matches: 0,
        },
        labor_seekers(v, draws),
        v.config.matching_efficiency,
        v.config.wage_stickiness,
        average_wage(parted.households),
        draws.skip(first + n),
    )
}

/// Firms and households once the labour market has dealt with separations.
pub open spec fn labor_parted(v: EconomyView, draws: Seq<u64>) -> Separations {
    let n = v.households.len();
    let first = employed_count(v.households, n) as int;
    separations(v.firms, v.households, v.config.separation_rate, draws.subrange(0, first), n)
}

/// The households that search for work in this clearing of the labour
/// market.
pub open spec fn labor_seekers(v: EconomyView, draws: Seq<u64>) -> Seq<usize> {
    let n = v.households.len();
    let first = employed_count(v.households, n) as int;
    seekers(
        labor_parted(v, draws).households,
        v.config.job_search_intensity,
        draws.subrange(first, first + n),
    )
}

/// The number of draws that the labour market takes from the front of
/// `draws`: one for each employed household, one for each household, and
/// one for each attempt at a match.
#[verifier::opaque]
pub open spec fn labor_draws(v: EconomyView, draws: Seq<u64>) -> nat {
    let n = v.households.len();
    employed_count(v.households, n) + n + labor_matched(v, draws).next_seeker
}

/// Whether `draws` are the draws of one clearing of the labour market, no
/// more and no fewer: each is taken, and matching is over after the last.
#[verifier::opaque]
pub open spec fn labor_settled(v: EconomyView, draws: Seq<u64>) -> bool {
    &&& draws.len() == labor_draws(v, draws)
    &&& !open_to_match(labor_matched(v, draws), labor_seekers(v, draws))
}

/// The economy after the labour market has cleared, given the draws it
/// took. After separations, search and matching, the outcome counts the
/// employed and the unemployed and holds the average wage after matching.
/// Where somebody is unemployed and that average is positive, the
/// government pays the benefit bill, split evenly among the unemployed.
#[verifier::opaque]
pub open spec fn labor_cleared(v: EconomyView, draws: Seq<u64>) -> EconomyView {
    let n = v.households.len();
    let parted = labor_parted(v, draws);
    let matched = labor_matched(v, draws);
    let employed = employed_count(matched.households, n);
    let unemployed = (n - employed) as nat;
    let wage = average_wage(matched.households);
    let pays = unemployed > 0 && wage.raw > 0;
    let ratio = v.config.unemployment_benefit_ratio;
    EconomyView {
        firms: matched.firms,
        households: if pays {
            with_benefit(
                matched.households,
                GovernmentData::benefit_bill(wage, unemployed as usize, ratio).over_count(
                    unemployed as u64,
                ),
            )
        } else {
            matched.households
        },
        government: if pays {
            v.government.spec_pay_unemployment_benefit(wage, unemployed as usize, ratio)
        } else {
            v.government
        },
        labor_last: LaborOutcome {
            total_employed: employed as usize,
            total_unemployed: unemployed as usize,
            unemployment_rate: unemployment_rate(unemployed, n),
            average_wage: wage,
            total_matches: matched.matches as usize,
            total_separations: parted.count as usize,
        },
        drawn: v.drawn + draws,
        ..v
    }
}

/// Once matching is over, further draws change nothing.
proof fn lemma_matching_settled(
    start: Matching,
    seeking: Seq<usize>,
    efficiency: Fixed,
    stickiness: Fixed,
    base_wage: Fixed,
    draws: Seq<u64>,
    rest: Seq<u64>,
)
    requires
        !open_to_match(matching(start, seeking, efficiency, stickiness, base_wage, draws), seeking),
    ensures
        matching(start, seeking, efficiency, stickiness, base_wage, draws + rest) == matching(
            start,
            seeking,
            efficiency,
            stickiness,
            base_wage,
            draws,
        ),
    decreases rest.len(),
{
    if rest.len() == 0 {
        assert(draws + rest =~= draws);
    } else {
        lemma_matching_settled(
            start,
            seeking,
            efficiency,
            stickiness,
            base_wage,
            draws,
            rest.drop_last(),
        );
        assert((draws + rest).drop_last() =~= draws + rest.drop_last());
    }
}

/// The labour market reads nothing beyond its own draws: what follows them
/// in the stream changes neither how many it takes nor what it does.
pub proof fn lemma_labor_reads_own_draws(v: EconomyView, taken: Seq<u64>, rest: Seq<u64>)
    requires
        labor_settled(v, taken),
    ensures
        labor_draws(v, taken + rest) == taken.len(),
        (taken + rest).take(taken.len() as int) == taken,
        (taken + rest).skip(taken.len() as int) == rest,
{
    reveal(labor_draws);
    reveal(labor_settled);
    let n = v.households.len() as int;
    let first = employed_count(v.households, n as nat) as int;
    let all = taken + rest;
    assert(all.subrange(0, first) =~= taken.subrange(0, first));
    assert(all.subrange(first, first + n) =~= taken.subrange(first, first + n));
    assert(all.skip(first + n) =~= taken.skip(first + n) + rest);
    let parted = labor_parted(v, taken);
    lemma_matching_settled(
        Matching {
            firms: parted.firms,
            households: parted.households,
            next_seeker: 0,
            matches: 0,
        },
        labor_seekers(v, taken),
        v.config.matching_efficiency,
        v.config.wage_stickiness,
        average_wage(parted.households),
        taken.skip(first + n),
        rest,
    );
    assert(all.take(taken.len() as int) =~= taken);
    assert(all.skip(taken.len() as int) =~= rest);
}

/// The labour market does not look at the draws handed out before it
/// clears: with another such history it takes as many draws and leaves the
/// same economy, but for the history.
pub proof fn lemma_labor_ignores_history(v: EconomyView, drawn: Seq<u64>, draws: Seq<u64>)
    ensures
        labor_cleared(EconomyView { drawn, ..v }, draws) == (EconomyView {
            drawn: drawn + draws,
            ..labor_cleared(v, draws)
        }),
        labor_draws(EconomyView { drawn, ..v }, draws) == labor_draws(v, draws),
        labor_settled(EconomyView { drawn, ..v }, draws) == labor_settled(v, draws),
{
    reveal(labor_cleared);
    reveal(labor_draws);
    reveal(labor_settled);
}

/// What a stream has handed out in three parts is those parts joined, and
/// each part is found again in the whole at its place.
proof fn lemma_three_parts(early: Seq<u64>, d1: Seq<u64>, d2: Seq<u64>, d3: Seq<u64>)
    ensures
        ({
            let draws = (early + d1 + d2 + d3).skip(early.len() as int);
            &&& draws == d1 + d2 + d3
            &&& early + draws == early + d1 + d2 + d3
            &&& draws.subrange(0, d1.len() as int) == d1
            &&& draws.subrange(d1.len() as int, (d1.len() + d2.len()) as int) == d2
            &&& draws.skip((d1.len() + d2.len()) as int) == d3
            &&& in_draw_range(d1) && in_draw_range(d2) && in_draw_range(d3) ==> in_draw_range(
                draws,
            )
        }),
{
    let draws = (early + d1 + d2 + d3).skip(early.len() as int);
    assert(draws =~= d1 + d2 + d3);
    assert(early + draws =~= early + d1 + d2 + d3);
    assert(draws.subrange(0, d1.len() as int) =~= d1);
    assert(draws.subrange(d1.len() as int, (d1.len() + d2.len()) as int) =~= d2);
    assert(draws.skip((d1.len() + d2.len()) as int) =~= d3);
}

/// Deals with separations, search and matching, in that order. Returns the
/// number of separations and the number of matches.
fn part_and_match(state: &mut EconomyState) -> (counts: (usize, usize))
    requires
        old(state)@.references_valid(),
    ensures
        ({
            let v0 = old(state)@;
            let draws = final(state)@.drawn.skip(v0.drawn.len() as int);
            let matched = labor_matched(v0, draws);
            &&& final(state)@ == (EconomyView {
                firms: matched.firms,
                households: matched.households,
                drawn: v0.drawn + draws,
                ..v0
            })
            &&& counts.0 == labor_parted(v0, draws).count
            &&& counts.1 == matched.matches
            &&& labor_settled(v0, draws)
            &&& in_draw_range(draws)
        }),
        old(state)@.drawn.is_prefix_of(final(state)@.drawn),
        final(state)@.references_valid(),
        final(state)@.firms.len() == old(state)@.firms.len(),
        final(state)@.households.len() == old(state)@.households.len(),
        forall|t: int|
            0 <= t < old(state)@.firms.len() ==> #[trigger] final(state)@.firms[t] == (FirmData {
                employees: final(state)@.firms[t].employees,
                wage_rate: final(state)@.firms[t].wage_rate,
                wage_bill: final(state)@.firms[t].wage_bill,
                vacancies: final(state)@.firms[t].vacancies,
                ..old(state)@.firms[t]
            }),
{
    reveal(labor_draws);
    reveal(labor_settled);
    let ghost v0 = state@;
    let total_separations = separate(state);
    let ghost v1 = state@;
    let current_avg_wage = mean_wage(&state.households);
    let seeking = find_seekers(state);
    let ghost v2 = state@;
    let total_matches = match_seekers(state, &seeking, current_avg_wage);
    proof {
        let v3 = state@;
        let base = v0.drawn.len() as int;
        let draws = v3.drawn.skip(base);
        let d1 = v1.drawn.skip(base);
        let d2 = v2.drawn.skip(v1.drawn.len() as int);
        let d3 = v3.drawn.skip(v2.drawn.len() as int);
        let first = employed_count(v0.households, v0.households.len()) as int;
        let n = v0.households.len() as int;
        assert(v3.drawn =~= v0.drawn + d1 + d2 + d3);
        lemma_three_parts(v0.drawn, d1, d2, d3);
        assert forall|t: int| 0 <= t < v0.firms.len() implies #[trigger] v3.firms[t] == (FirmData {
            employees: v3.firms[t].employees,
            wage_rate: v3.firms[t].wage_rate,
            wage_bill: v3.firms[t].wage_bill,
            vacancies: v3.firms[t].vacancies,
            ..v0.firms[t]
        }) by {
            assert(v1.firms[t] == (FirmData {
                employees: v1.firms[t].employees,
                wage_bill: v1.firms[t].wage_bill,
                ..v0.firms[t]
            }));
            assert(v2.firms[t] == v1.firms[t]);
        }
    }
    (total_separations, total_matches)
}

/// Clears the labour market for one period.
pub fn clear_labor_market(state: &mut EconomyState)
    requires
        old(state)@.references_valid(),
    ensures
        final(state)@ == labor_cleared(
            old(state)@,
            final(state)@.drawn.skip(old(state)@.drawn.len() as int),
        ),
        labor_settled(old(state)@, final(state)@.drawn.skip(old(state)@.drawn.len() as int)),
        in_draw_range(final(state)@.drawn.skip(old(state)@.drawn.len() as int)),
        old(state)@.drawn.is_prefix_of(final(state)@.drawn),
        final(state)@.references_valid(),
        final(state)@.firms.len() == old(state)@.firms.len(),
        final(state)@.households.len() == old(state)@.households.len(),
        final(state).labor_last.total_employed + final(state).labor_last.total_unemployed
            == old(state)@.households.len(),
        0 <= final(state).labor_last.unemployment_rate.raw <= SCALE,
        final(state).labor_last.unemployment_rate == unemployment_rate(
            final(state).labor_last.total_unemployed as nat,
            old(state)@.households.len(),
        ),
        forall|t: int|
            0 <= t < old(state)@.firms.len() ==> #[trigger] final(state)@.firms[t] == (FirmData {
                employees: final(state)@.firms[t].employees,
                wage_rate: final(state)@.firms[t].wage_rate,
                wage_bill: final(state)@.firms[t].wage_bill,
                vacancies: final(state)@.firms[t].vacancies,
                ..old(state)@.firms[t]
            }),
        final(state)@ == (EconomyView {
            firms: final(state)@.firms,
            households: final(state)@.households,
            government: final(state).government,
            labor_last: final(state).labor_last,
            drawn: final(state)@.drawn,
            ..old(state)@
        }),
{
    reveal(labor_cleared);
    let ghost v0 = state@;
    let unemployment_benefit_ratio = state.config.unemployment_benefit_ratio;
    let (total_separations, total_matches) = part_and_match(state);
    let ghost matched = state@;

    let total_employed = count_employed(&state.households);
    let total: usize = state.households.len();
    let total_unemployed: usize = total - total_employed;
    let unemployment_rate = if total > 0 {
        proof {
            lemma_ratio_in_unit_interval(total_unemployed as u64, total as u64);
        }
        Fixed::ratio(total_unemployed as u64, total as u64)
    } else {
        Fixed::zero()
    };
    let average_wage = mean_wage(&state.households);

    if total_unemployed > 0 && average_wage.raw > 0 {
        let benefit = state.government.pay_unemployment_benefit(
            average_wage,
            total_unemployed,
            unemployment_benefit_ratio,
        );
        let per_household = benefit.over_count(total_unemployed as u64);
        hand_out_benefit(&mut state.households, per_household);
    }
    state.labor_last = LaborOutcome {
        total_employed,
        total_unemployed,
        unemployment_rate,
        average_wage,
        total_matches,
        total_separations,
    };
    proof {
        let after = state@;
        assert forall|h: int| 0 <= h < after.households.len() implies (
        #[trigger] after.households[h]).employer_within(after.firms.len()) by {
            assert(after.households[h].employer_id == matched.households[h].employer_id);
            assert(matched.households[h].employer_within(matched.firms.len()));
        }
    }
}

/// The labour market as the scheduler sees it. It takes its turn after all
/// firms and before all households.
#[derive(Clone, Copy, Debug, PartialEq, Eq)]
pub struct LaborMarketAgent;

impl LaborMarketAgent {
    /// The printable name of the agent.
    pub fn label(&self) -> (label: String)
        ensures
            label@ == "LaborMarketAgent"@,
    {
        "LaborMarketAgent".to_owned()
    }

    /// Clears the labour market for the period.
    pub fn step(&self, state: &mut EconomyState)
        requires
            old(state)@.references_valid(),
        ensures
            final(state)@ == labor_cleared(
                old(state)@,
                final(state)@.drawn.skip(old(state)@.drawn.len() as int),
            ),
            labor_settled(old(state)@, final(state)@.drawn.skip(old(state)@.drawn.len() as int)),
            in_draw_range(final(state)@.drawn.skip(old(state)@.drawn.len() as int)),
            old(state)@.drawn.is_prefix_of(final(state)@.drawn),
            final(state)@.references_valid(),
            final(state).labor_last.total_employed + final(state).labor_last.total_unemployed
                == old(state)@.households.len(),
            0 <= final(state).labor_last.unemployment_rate.raw <= SCALE,
            final(state).labor_last.unemployment_rate == unemployment_rate(
                final(state).labor_last.total_unemployed as nat,
                old(state)@.households.len(),
            ),
    {
        clear_labor_market(state);
    }
}

} // verus!
