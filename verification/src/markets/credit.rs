//! The credit market: defaults of failed firms, then loan applications of
//! firms that are short of cash. A failed firm is a source of defaults in
//! one clearing only: the clearing that absorbs its default settles it.

use crate::agents::{BankData, FirmData};
use crate::config::Config;
use crate::fixed::{Fixed, LIMIT};
use crate::state::{EconomyState, EconomyView};
use vstd::prelude::*;

verus! {

/// What the credit market found in one period.
#[derive(Clone, Copy, Debug, PartialEq)]
pub struct CreditOutcome {
    pub total_lending: Fixed,
    pub total_applications: usize,
    pub total_approvals: usize,
    pub total_rejections: usize,
    pub average_rate: Fixed,
    pub total_defaults: usize,
}

impl CreditOutcome {
    /// The outcome of a market in which nothing happened.
    pub open spec fn empty() -> CreditOutcome {
        CreditOutcome {
            total_lending: Fixed::zero(),
            total_applications: 0,
            total_approvals: 0,
            total_rejections: 0,
            average_rate: Fixed::zero(),
            total_defaults: 0,
        }
    }
}

impl Default for CreditOutcome {
    fn default() -> (outcome: CreditOutcome)
        ensures
            outcome == CreditOutcome::empty(),
    {
        CreditOutcome {
            total_lending: Fixed::zero(),
            total_applications: 0,
            total_approvals: 0,
            total_rejections: 0,
            average_rate: Fixed::zero(),
            total_defaults: 0,
        }
    }
}

/// Whether a firm is a source of defaults: it has failed, it owes, and the
/// banks have not settled its default yet.
pub open spec fn in_default(firm: FirmData) -> bool {
    firm.bankrupt && firm.debt.raw > 0 && !firm.default_settled
}

/// A firm after the banks have absorbed defaults: a firm that was a source
/// of defaults is settled, and so is one no longer. Its debt stays on its
/// books.
pub open spec fn firm_after_settlement(firm: FirmData) -> FirmData {
    if in_default(firm) {
        FirmData { default_settled: true, ..firm }
    } else {
        firm
    }
}

/// Whether a firm applies for a loan: it is in business and out of cash.
pub open spec fn seeks_credit(firm: FirmData) -> bool {
    !firm.bankrupt && firm.cash.raw < 0
}

/// The loan a firm applies for: its cash shortfall.
pub open spec fn financing_need(firm: FirmData) -> Fixed {
    firm.cash.neg().abs()
}

/// A bank after it has absorbed the defaults of the first `k` firms: for
/// each firm in default, a bank with loans books the smaller of the firm's
/// debt and its own loans, times `rate`, as non-performing.
pub open spec fn bank_after_defaults(
    bank: BankData,
    firms: Seq<FirmData>,
    k: nat,
    rate: Fixed,
) -> BankData
    decreases k,
{
    if k == 0 {
        bank
    } else {
        let before = bank_after_defaults(bank, firms, (k - 1) as nat, rate);
        let firm = firms[k - 1];
        if in_default(firm) && before.loans.raw > 0 {
            before.spec_record_default(firm.debt.min(before.loans).times(rate))
        } else {
            before
        }
    }
}

/// The number of firms in default among the first `k`.
pub open spec fn default_count(firms: Seq<FirmData>, k: nat) -> nat
    decreases k,
{
    if k == 0 {
        0
    } else {
        default_count(firms, (k - 1) as nat) + if in_default(firms[k - 1]) {
            1nat
        } else {
            0nat
        }
    }
}

/// The number of banks with loans among the first `k`.
pub open spec fn lender_count(banks: Seq<BankData>, k: nat) -> nat
    decreases k,
{
    if k == 0 {
        0
    } else {
        lender_count(banks, (k - 1) as nat) + if banks[k - 1].loans.raw > 0 {
            1nat
        } else {
            0nat
        }
    }
}

/// The state of the application round after some firms have been served.
pub struct LendingRun {
    pub firms: Seq<FirmData>,
    pub banks: Seq<BankData>,
    pub applications: nat,
    pub approvals: nat,
    pub rejections: nat,
    pub total_lending: Fixed,
    pub rate_sum: Fixed,
}

/// The firm after it has drawn a loan of `amount`.
pub open spec fn firm_with_loan(firm: FirmData, amount: Fixed) -> FirmData {
    FirmData { cash: firm.cash.plus(amount), debt: firm.debt.plus(amount), ..firm }
}

/// Serves firm `i`. A firm that seeks credit applies to the bank whose turn
/// it is (banks take turns, one application each). The loan is extended if
/// the bank approves it or if there is no rationing; otherwise the
/// application is rejected.
pub open spec fn lending_step(run: LendingRun, i: int, config: Config) -> LendingRun {
    let firm = run.firms[i];
    if !seeks_credit(firm) {
        run
    } else {
        let amount = financing_need(firm);
        let b = (run.applications % run.banks.len()) as int;
        let bank = run.banks[b];
        if bank.evaluate_loan(
            amount,
            firm.equity,
            firm.turnover,
            config.capital_requirement,
            config.capital_buffer,
            config.risk_weight,
            config.lending_threshold,
        ) || !config.rationing {
            LendingRun {
                firms: run.firms.update(i, firm_with_loan(firm, amount)),
                banks: run.banks.update(b, bank.spec_extend_loan(amount)),
                applications: run.applications + 1,
                approvals: run.approvals + 1,
                total_lending: run.total_lending.plus(amount),
                rate_sum: run.rate_sum.plus(bank.interest_rate),
                ..run
            }
        } else {
            LendingRun {
                applications: run.applications + 1,
                rejections: run.rejections + 1,
                ..run
            }
        }
    }
}

/// The application round after the first `k` firms have been served, in
/// order.
pub open spec fn lending(
    firms: Seq<FirmData>,
    banks: Seq<BankData>,
    config: Config,
    k: nat,
) -> LendingRun
    decreases k,
{
    if k == 0 {
        LendingRun {
            firms,
            banks,
            applications: 0,
            approvals: 0,
            rejections: 0,
            total_lending: Fixed::zero(),
            rate_sum: Fixed::zero(),
        }
    } else {
        lending_step(lending(firms, banks, config, (k - 1) as nat), k - 1, config)
    }
}

/// The firms after all defaults of the period: every source of defaults
/// is settled.
pub open spec fn firms_after_defaults(v: EconomyView) -> Seq<FirmData> {
    Seq::new(v.firms.len(), |i: int| firm_after_settlement(v.firms[i]))
}

/// The banks after all defaults of the period.
pub open spec fn banks_after_defaults(v: EconomyView) -> Seq<BankData> {
    Seq::new(
        v.banks.len(),
        |j: int|
            bank_after_defaults(v.banks[j], v.firms, v.firms.len(), v.config.default_rate_base),
    )
}

/// A count as the machine holds it: at most the largest count.
pub open spec fn capped(n: nat) -> int {
    if n > usize::MAX {
        usize::MAX as int
    } else {
        n as int
    }
}

/// The number of default bookings: one for each pair of a firm in default
/// and a bank with loans, counted up to the largest count.
pub open spec fn default_bookings(v: EconomyView) -> int {
    capped(default_count(v.firms, v.firms.len()) * lender_count(v.banks, v.banks.len()))
}

/// The economy after the credit market has cleared. Without banks nothing
/// happens and the outcome is empty. Otherwise the banks absorb the
/// defaults of the failed firms that owe and are not settled yet, which
/// settles those firms for good; then the firms are served in order, and
/// the outcome holds the totals and the mean of the rates charged.
#[verifier::opaque]
pub open spec fn credit_cleared(v: EconomyView) -> EconomyView {
    if v.banks.len() == 0 {
        EconomyView { credit_last: CreditOutcome::empty(), ..v }
    } else {
        let run = lending(
            firms_after_defaults(v),
            banks_after_defaults(v),
            v.config,
            v.firms.len(),
        );
        EconomyView {
            firms: run.firms,
            banks: run.banks,
            credit_last: outcome_of(run, default_bookings(v) as usize),
            ..v
        }
    }
}

/// Where none of the first `k` firms is a source of defaults, a bank books
/// nothing on their account. So a default is booked in one clearing only:
/// the clearing that books it leaves no firm a source of defaults.
pub proof fn lemma_settled_firms_book_nothing(
    bank: BankData,
    firms: Seq<FirmData>,
    k: nat,
    rate: Fixed,
)
    requires
        k <= firms.len(),
        forall|i: int| 0 <= i < k ==> !in_default(#[trigger] firms[i]),
    ensures
        bank_after_defaults(bank, firms, k, rate) == bank,
        default_count(firms, k) == 0,
    decreases k,
{
    if k > 0 {
        lemma_settled_firms_book_nothing(bank, firms, (k - 1) as nat, rate);
    }
}

/// Banks with equal loan books are lenders alike.
proof fn lemma_lender_count_by_loans(a: Seq<BankData>, b: Seq<BankData>, k: nat)
    requires
        k <= a.len() == b.len(),
        forall|j: int| 0 <= j < k ==> a[j].loans == b[j].loans,
    ensures
        lender_count(a, k) == lender_count(b, k),
    decreases k,
{
    if k > 0 {
        lemma_lender_count_by_loans(a, b, (k - 1) as nat);
    }
}

/// Books the default of one firm with debt `firm_debt` at every bank that
/// has loans, and returns the number of bookings.
fn absorb_default(banks: &mut Vec<BankData>, firm_debt: Fixed, rate: Fixed) -> (booked: usize)
    ensures
        final(banks)@.len() == old(banks)@.len(),
        forall|j: int|
            0 <= j < old(banks)@.len() ==> #[trigger] final(banks)@[j] == if old(
                banks,
            )@[j].loans.raw > 0 {
                old(banks)@[j].spec_record_default(firm_debt.min(old(banks)@[j].loans).times(rate))
            } else {
                old(banks)@[j]
            },
        booked == lender_count(old(banks)@, old(banks)@.len()),
{
    let n: usize = banks.len();
    let mut booked: usize = 0;
    let mut j: usize = 0;
    while j < n
        invariant
            j <= n,
            banks@.len() == n,
            n == old(banks)@.len(),
            booked == lender_count(old(banks)@, j as nat),
            booked <= j,
            forall|t: int| j <= t < n ==> banks@[t] == old(banks)@[t],
            forall|t: int|
                0 <= t < j ==> #[trigger] banks@[t] == if old(banks)@[t].loans.raw > 0 {
                    old(banks)@[t].spec_record_default(
                        firm_debt.min(old(banks)@[t].loans).times(rate),
                    )
                } else {
                    old(banks)@[t]
                },
        decreases n - j,
    {
        if banks[j].loans.raw > 0 {
            let share = firm_debt.min(banks[j].loans);
            banks[j].record_default(share.times(rate));
            booked = booked + 1;
        }
        j = j + 1;
    }
    booked
}

/// Lets the banks absorb the defaults of all failed firms. Returns the
/// number of bookings.
fn absorb_defaults(state: &mut EconomyState) -> (total_defaults: usize)
    ensures
        final(state)@ == (EconomyView {
            firms: firms_after_defaults(old(state)@),
            banks: banks_after_defaults(old(state)@),
            ..old(state)@
        }),
        total_defaults == default_bookings(old(state)@),
        forall|j: int|
            0 <= j < old(state)@.banks.len() ==> {
                &&& (#[trigger] final(state)@.banks[j]).loans == old(state)@.banks[j].loans
                &&& final(state)@.banks[j].deposits == old(state)@.banks[j].deposits
            },
{
    let ghost v0 = state@;
    let default_base = state.config.default_rate_base;
    let n_banks: usize = state.banks.len();
    let n_firms: usize = state.firms.len();
    let ghost lenders = lender_count(v0.banks, n_banks as nat);
    let mut total_defaults: usize = 0;
    let mut firm_idx: usize = 0;
    assert(default_count(v0.firms, 0) * lenders == 0) by (nonlinear_arith)
        requires
            default_count(v0.firms, 0) == 0,
    ;
    while firm_idx < n_firms
        invariant
            firm_idx <= n_firms,
            n_firms == v0.firms.len(),
            n_banks == v0.banks.len(),
            default_base == v0.config.default_rate_base,
            lenders == lender_count(v0.banks, n_banks as nat),
            state@ == (EconomyView { firms: state.firms@, banks: state.banks@, ..v0 }),
            state.banks@.len() == n_banks,
            state.firms@.len() == n_firms,
            forall|t: int| firm_idx <= t < n_firms ==> state.firms@[t] == v0.firms[t],
            forall|t: int|
                0 <= t < firm_idx ==> #[trigger] state.firms@[t] == firm_after_settlement(
                    v0.firms[t],
                ),
            forall|j: int|
                0 <= j < n_banks ==> #[trigger] state.banks@[j] == bank_after_defaults(
                    v0.banks[j],
                    v0.firms,
                    firm_idx as nat,
                    default_base,
                ),
            forall|j: int|
                0 <= j < n_banks ==> {
                    &&& (#[trigger] state.banks@[j]).loans == v0.banks[j].loans
                    &&& state.banks@[j].deposits == v0.banks[j].deposits
                },
            total_defaults == capped(default_count(v0.firms, firm_idx as nat) * lenders),
        decreases n_firms - firm_idx,
    {
        let ghost before = state.banks@;
        let ghost count = default_count(v0.firms, firm_idx as nat);
        if state.firms[firm_idx].bankrupt && state.firms[firm_idx].debt.raw > 0
            && !state.firms[firm_idx].default_settled {
            let firm_debt = state.firms[firm_idx].debt;
            let booked = absorb_default(&mut state.banks, firm_debt, default_base);
            state.firms[firm_idx].default_settled = true;
            proof {
                lemma_lender_count_by_loans(before, v0.banks, n_banks as nat);
                assert((count + 1) * lenders == count * lenders + lenders) by (nonlinear_arith);
                assert(count * lenders >= 0) by (nonlinear_arith)
                    requires
                        count >= 0,
                        lenders >= 0,
                ;
            }
            total_defaults = total_defaults.saturating_add(booked);
        }
        firm_idx = firm_idx + 1;
    }
    assert(state.banks@ =~= banks_after_defaults(v0));
    assert(state.firms@ =~= firms_after_defaults(v0));
    total_defaults
}

/// The outcome of a finished application round, with `total_defaults`
/// default bookings before it.
pub open spec fn outcome_of(run: LendingRun, total_defaults: usize) -> CreditOutcome {
    CreditOutcome {
        total_lending: run.total_lending,
        total_applications: run.applications as usize,
        total_approvals: run.approvals as usize,
        total_rejections: run.rejections as usize,
        average_rate: if run.approvals == 0 {
            Fixed::zero()
        } else {
            run.rate_sum.over_count(run.approvals as u64)
        },
        total_defaults,
    }
}

/// Serves the loan applications of all firms, in order, and writes the
/// outcome of the market.
fn serve_applications(state: &mut EconomyState, total_defaults: usize)
    requires
        old(state)@.banks.len() > 0,
    ensures
        ({
            let v0 = old(state)@;
            let run = lending(v0.firms, v0.banks, v0.config, v0.firms.len());
            final(state)@ == (EconomyView {
                firms: run.firms,
                banks: run.banks,
                credit_last: outcome_of(run, total_defaults),
                ..v0
            })
        }),
        final(state)@.firms.len() == old(state)@.firms.len(),
        final(state)@.banks.len() == old(state)@.banks.len(),
        forall|i: int|
            0 <= i < old(state)@.firms.len() ==> #[trigger] final(state)@.firms[i] == (FirmData {
                cash: final(state)@.firms[i].cash,
                debt: final(state)@.firms[i].debt,
                ..old(state)@.firms[i]
            }),
        forall|i: int|
            0 <= i < old(state)@.firms.len() && old(state)@.firms[i].bankrupt
                ==> #[trigger] final(state)@.firms[i] == old(state)@.firms[i],
        forall|j: int|
            0 <= j < old(state)@.banks.len() && old(state)@.banks[j].loans.raw >= 0 ==> (
            #[trigger] final(state)@.banks[j]).loans.raw >= 0,
        forall|j: int|
            0 <= j < old(state)@.banks.len() && old(state)@.banks[j].loans.raw <= LIMIT ==> (
            #[trigger] final(state)@.banks[j]).loans.raw >= old(state)@.banks[j].loans.raw,
        forall|j: int|
            0 <= j < old(state)@.banks.len() && old(state)@.banks[j].deposits.raw <= LIMIT ==> (
            #[trigger] final(state)@.banks[j]).deposits.raw >= old(state)@.banks[j].deposits.raw,
        final(state).credit_last.total_applications == final(state).credit_last.total_approvals
            + final(state).credit_last.total_rejections,
        final(state).credit_last.total_applications <= old(state)@.firms.len(),
{
    let ghost v0 = state@;
    let rationing = state.config.rationing;
    let cap_req = state.config.capital_requirement;
    let cap_buf = state.config.capital_buffer;
    let risk_w = state.config.risk_weight;
    let lend_thresh = state.config.lending_threshold;
    let n_banks: usize = state.banks.len();
    let n_firms: usize = state.firms.len();
    let mut total_lending = Fixed::zero();
    let mut rate_sum = Fixed::zero();
    let mut applications: usize = 0;
    let mut approvals: usize = 0;
    let mut rejections: usize = 0;
    let mut i: usize = 0;
    while i < n_firms
        invariant
            i <= n_firms,
            n_firms == v0.firms.len(),
            n_banks == v0.banks.len(),
            n_banks > 0,
            rationing == v0.config.rationing,
            cap_req == v0.config.capital_requirement,
            cap_buf == v0.config.capital_buffer,
            risk_w == v0.config.risk_weight,
            lend_thresh == v0.config.lending_threshold,
            state@ == (EconomyView { firms: state.firms@, banks: state.banks@, ..v0 }),
            state.firms@.len() == n_firms,
            state.banks@.len() == n_banks,
            lending(v0.firms, v0.banks, v0.config, i as nat) == (LendingRun {
                firms: state.firms@,
                banks: state.banks@,
                applications: applications as nat,
                approvals: approvals as nat,
                rejections: rejections as nat,
                total_lending,
                rate_sum,
            }),
            applications == approvals + rejections,
            applications <= i,
            forall|t: int| i <= t < n_firms ==> state.firms@[t] == v0.firms[t],
            forall|t: int|
                0 <= t < n_firms ==> #[trigger] state.firms@[t] == (FirmData {
                    cash: state.firms@[t].cash,
                    debt: state.firms@[t].debt,
                    ..v0.firms[t]
                }),
            forall|t: int|
                0 <= t < n_firms && v0.firms[t].bankrupt ==> #[trigger] state.firms@[t]
                    == v0.firms[t],
            forall|j: int|
                0 <= j < n_banks && v0.banks[j].loans.raw >= 0 ==> (
                #[trigger] state.banks@[j]).loans.raw >= 0,
            forall|j: int|
                0 <= j < n_banks && v0.banks[j].loans.raw <= LIMIT ==> v0.banks[j].loans.raw <= (
                #[trigger] state.banks@[j]).loans.raw <= LIMIT,
            forall|j: int|
                0 <= j < n_banks && v0.banks[j].deposits.raw <= LIMIT
                    ==> v0.banks[j].deposits.raw <= (#[trigger] state.banks@[j]).deposits.raw
                    <= LIMIT,
        decreases n_firms - i,
    {
        let ghost run = lending(v0.firms, v0.banks, v0.config, i as nat);
        if !state.firms[i].bankrupt && state.firms[i].cash.raw < 0 {
            let amount = state.firms[i].cash.neg().abs();
            let b_idx: usize = applications % n_banks;
            applications = applications + 1;
            let approved = state.banks[b_idx].evaluate_loan(
                amount,
                state.firms[i].equity,
                state.firms[i].turnover,
                cap_req,
                cap_buf,
                risk_w,
                lend_thresh,
            );
            if approved || !rationing {
                let rate = state.banks[b_idx].extend_loan(amount);
                state.firms[i].cash = state.firms[i].cash.plus(amount);
                state.firms[i].debt = state.firms[i].debt.plus(amount);
                approvals = approvals + 1;
                total_lending = total_lending.plus(amount);
                rate_sum = rate_sum.plus(rate);
                assert(state.firms@ =~= run.firms.update(
                    i as int,
                    firm_with_loan(run.firms[i as int], amount),
                ));
                assert(state.banks@ =~= run.banks.update(
                    b_idx as int,
                    run.banks[b_idx as int].spec_extend_loan(amount),
                ));
            } else {
                rejections = rejections + 1;
            }
        }
        i = i + 1;
    }
    let average_rate = if approvals == 0 {
        Fixed::zero()
    } else {
        rate_sum.over_count(approvals as u64)
    };
    state.credit_last = CreditOutcome {
        total_lending,
        total_applications: applications,
        total_approvals: approvals,
        total_rejections: rejections,
        average_rate,
        total_defaults,
    };
}

/// Clears the credit market for one period.
pub fn clear_credit_market(state: &mut EconomyState)
    ensures
        final(state)@ == credit_cleared(old(state)@),
        final(state)@ == (EconomyView {
            firms: final(state)@.firms,
            banks: final(state)@.banks,
            credit_last: final(state).credit_last,
            ..old(state)@
        }),
        final(state)@.firms.len() == old(state)@.firms.len(),
        final(state)@.banks.len() == old(state)@.banks.len(),
        old(state)@.banks.len() == 0 ==> final(state)@ == (EconomyView {
            credit_last: CreditOutcome::empty(),
            ..old(state)@
        }),
        forall|i: int|
            0 <= i < old(state)@.firms.len() ==> #[trigger] final(state)@.firms[i] == (FirmData {
                cash: final(state)@.firms[i].cash,
                debt: final(state)@.firms[i].debt,
                default_settled: final(state)@.firms[i].default_settled,
                ..old(state)@.firms[i]
            }),
        forall|i: int|
            0 <= i < old(state)@.firms.len() && old(state)@.firms[i].bankrupt
                ==> #[trigger] final(state)@.firms[i] == if old(state)@.banks.len() == 0 {
                old(state)@.firms[i]
            } else {
                firm_after_settlement(old(state)@.firms[i])
            },
        old(state)@.banks.len() > 0 ==> forall|i: int|
            0 <= i < old(state)@.firms.len() ==> !in_default(#[trigger] final(state)@.firms[i]),
        forall|j: int|
            0 <= j < old(state)@.banks.len() && old(state)@.banks[j].loans.raw >= 0 ==> (
            #[trigger] final(state)@.banks[j]).loans.raw >= 0,
        forall|j: int|
            0 <= j < old(state)@.banks.len() && old(state)@.banks[j].loans.raw <= LIMIT ==> (
            #[trigger] final(state)@.banks[j]).loans.raw >= old(state)@.banks[j].loans.raw,
        forall|j: int|
            0 <= j < old(state)@.banks.len() && old(state)@.banks[j].deposits.raw <= LIMIT ==> (
            #[trigger] final(state)@.banks[j]).deposits.raw >= old(state)@.banks[j].deposits.raw,
        final(state).credit_last.total_applications == final(state).credit_last.total_approvals
            + final(state).credit_last.total_rejections,
        final(state).credit_last.total_applications <= old(state)@.firms.len(),
{
    reveal(credit_cleared);
    if state.banks.len() == 0 {
        state.credit_last = CreditOutcome::default();
        return ;
    }
    let ghost v0 = state@;
    let total_defaults = absorb_defaults(state);
    let ghost v1 = state@;
    serve_applications(state, total_defaults);
    proof {
        let after = state@;
        assert forall|j: int| 0 <= j < v0.banks.len() implies {
            &&& v0.banks[j].loans.raw >= 0 ==> (#[trigger] after.banks[j]).loans.raw >= 0
            &&& v0.banks[j].loans.raw <= LIMIT ==> after.banks[j].loans.raw
                >= v0.banks[j].loans.raw
            &&& v0.banks[j].deposits.raw <= LIMIT ==> after.banks[j].deposits.raw
                >= v0.banks[j].deposits.raw
        } by {
            assert(v1.banks[j].loans == v0.banks[j].loans);
            assert(v1.banks[j].deposits == v0.banks[j].deposits);
        }
        assert forall|i: int| 0 <= i < v0.firms.len() implies {
            &&& (#[trigger] after.firms[i]) == (FirmData {
                cash: after.firms[i].cash,
                debt: after.firms[i].debt,
                default_settled: after.firms[i].default_settled,
                ..v0.firms[i]
            })
            &&& v0.firms[i].bankrupt ==> after.firms[i] == firm_after_settlement(v0.firms[i])
            &&& !in_default(after.firms[i])
        } by {
            assert(v1.firms[i] == firm_after_settlement(v0.firms[i]));
            assert(after.firms[i] == (FirmData {
                cash: after.firms[i].cash,
                debt: after.firms[i].debt,
                ..v1.firms[i]
            }));
        }
    }
}

} // verus!
