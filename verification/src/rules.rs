//! The arithmetic of the contract: fees, loan-to-value tiers, forfeiture,
//! pool utilization and reputation. Amounts are `i128` and every quotient is
//! rounded toward zero, as integer division does.
use vstd::prelude::*;
use crate::tag::{Tag, fraud_text, breach_text};

verus! {

/// The review period after delivery: 3 days.
pub const REVIEW_PERIOD_SECONDS: u64 = 259_200;
/// How long after the review deadline the escrow may be released
/// automatically: 2 days.
pub const AUTO_RELEASE_SECONDS: u64 = 172_800;
/// The share of every escrowed down payment that feeds the liquidity pool, in percent.
pub const POOL_CONTRIBUTION_RATIO: i128 = 30;
/// Below this utilization (basis points) the platform fee rises.
pub const UTILIZATION_MIN_BPS: i128 = 2000;
/// Above this utilization (basis points) the platform fee falls.
pub const UTILIZATION_MAX_BPS: i128 = 8000;
/// Fee surcharge, in percentage points, when liquidity is low.
pub const LIQUIDITY_SURCHARGE_PERCENT: i128 = 5;
/// Fee discount, in percentage points, when liquidity is high.
pub const LIQUIDITY_DISCOUNT_PERCENT: i128 = 5;
/// The pool utilization of a fresh pool: 50.00%.
pub const INITIAL_UTILIZATION_BPS: i128 = 5000;
/// Share of platform fees allocated to the guarantee reserve, in percent.
pub const DEFAULT_GUARANTEE_ALLOC: i128 = 1;
/// Number of milestones of a construction contract.
pub const MAX_MILESTONES: u32 = 10;
/// Number of installments of a tuition contract.
pub const MAX_INSTALLMENTS: u32 = 9;
/// Reputation points lost for fraud.
pub const FRAUD_POINTS: i128 = -10;
/// Reputation points lost for a breach.
pub const BREACH_POINTS: i128 = -5;
/// Reputation points lost for neglect.
pub const NEGLECT_POINTS: i128 = -2;
/// Reputation points gained for a completed commitment.
pub const REWARD_POINTS: i128 = 2;
/// Share of the escrow forfeited for fraud, in percent.
pub const FORFEITURE_FRAUD_PERCENT: i128 = 50;
/// Share of the escrow forfeited for a breach, in percent.
pub const FORFEITURE_BREACH_PERCENT: i128 = 20;
/// Share of the escrow forfeited for neglect, in percent.
pub const FORFEITURE_NEGLECT_PERCENT: i128 = 0;
/// Share of a forfeiture that goes to the platform, in percent.
pub const FORFEITURE_PLATFORM_PERCENT: i128 = 50;
/// Share of a forfeiture that goes to the guarantee reserve, in percent.
pub const FORFEITURE_RESERVE_PERCENT: i128 = 40;

/// Whether `x` is a value of `i128`.
pub open spec fn fits(x: int) -> bool {
    i128::MIN <= x <= i128::MAX
}

/// The quotient of `a` by a positive `b`, rounded toward zero.
pub open spec fn quot(a: int, b: int) -> int {
    if a >= 0 {
        a / b
    } else {
        -((-a) / b)
    }
}

/// `percent` percent of `amount`, rounded toward zero.
pub open spec fn percent_of(amount: int, percent: int) -> int {
    quot(amount * percent, 100)
}

/// Computes `percent` percent of `amount`, or `None` where `amount * percent`
/// leaves `i128`.
pub fn checked_percent_of(amount: i128, percent: i128) -> (r: Option<i128>)
    ensures
        r is Some <==> fits(amount * percent),
        r matches Some(v) ==> v == percent_of(amount as int, percent as int),
{
    match amount.checked_mul(percent) {
        Some(p) => Some(p / 100),
        None => None,
    }
}

/// The platform fee, in percent, that a reputation earns before liquidity is
/// considered: 1% from 100 points, 4% under 20 points, 2% between.
pub open spec fn reputation_fee_percent(rep: int) -> int {
    if rep >= 100 {
        1
    } else if rep < 20 {
        4
    } else {
        2
    }
}

/// The platform fee, in percent, for a creator with reputation `rep` when the
/// pool's utilization is `utilization` basis points: 5 points more below 20%,
/// 5 points less (never below 0) above 80%.
pub open spec fn platform_fee_percent_spec(rep: int, utilization: int) -> int {
    let base = reputation_fee_percent(rep);
    if utilization < UTILIZATION_MIN_BPS {
        base + LIQUIDITY_SURCHARGE_PERCENT
    } else if utilization > UTILIZATION_MAX_BPS {
        if base - LIQUIDITY_DISCOUNT_PERCENT > 0 {
            base - LIQUIDITY_DISCOUNT_PERCENT
        } else {
            0
        }
    } else {
        base
    }
}

/// Computes the platform fee percent from the creator's reputation and the
/// pool's utilization.
pub fn platform_fee_percent(rep: i128, utilization: i128) -> (fee: i128)
    ensures
        fee == platform_fee_percent_spec(rep as int, utilization as int),
        0 <= fee <= 9,
{
    let mut fee: i128 = 2;
    if rep >= 100 {
        fee = 1;
    } else if rep < 20 {
        fee = 4;
    }
    if utilization < UTILIZATION_MIN_BPS {
        fee = fee + LIQUIDITY_SURCHARGE_PERCENT;
    } else if utilization > UTILIZATION_MAX_BPS {
        let reduced = fee - LIQUIDITY_DISCOUNT_PERCENT;
        fee = if reduced > 0 { reduced } else { 0 };
    }
    fee
}

/// The largest loan-to-value ratio, in percent, granted to a reputation:
/// 95% from 95 points, 75% from 90, 50% from 80; below 80 no credit.
pub open spec fn max_ltv_percent_spec(rep: int) -> Option<int> {
    if rep >= 95 {
        Some(95)
    } else if rep >= 90 {
        Some(75)
    } else if rep >= 80 {
        Some(50)
    } else {
        None
    }
}

/// Looks up the loan-to-value tier of a reputation.
pub fn max_ltv_percent(rep: i128) -> (r: Option<i128>)
    ensures
        r is Some <==> max_ltv_percent_spec(rep as int) is Some,
        r matches Some(v) ==> max_ltv_percent_spec(rep as int) == Some(v as int),
{
    if rep >= 95 {
        Some(95)
    } else if rep >= 90 {
        Some(75)
    } else if rep >= 80 {
        Some(50)
    } else {
        None
    }
}

/// The reputation after `points` are added to `rep`; it never goes below 0.
pub open spec fn next_reputation(rep: int, points: int) -> int {
    if rep + points > 0 {
        rep + points
    } else {
        0
    }
}

/// Adds `points` to a reputation, or `None` where the sum leaves `i128`.
pub fn checked_next_reputation(rep: i128, points: i128) -> (r: Option<i128>)
    ensures
        r is Some <==> fits(rep + points),
        r matches Some(v) ==> v == next_reputation(rep as int, points as int),
{
    match rep.checked_add(points) {
        Some(s) => Some(if s > 0 { s } else { 0 }),
        None => None,
    }
}

/// The pool's utilization in basis points: what is pooled as a share of all
/// escrow, or 0 while nothing is in escrow.
pub open spec fn utilization_bps(total_pooled: int, total_escrow: int) -> int {
    if total_escrow > 0 {
        quot(total_pooled * 10000, total_escrow)
    } else {
        0
    }
}

/// Whether the utilization can be computed within `i128`.
pub open spec fn utilization_fits(total_pooled: int, total_escrow: int) -> bool {
    total_escrow > 0 ==> fits(total_pooled * 10000)
}

/// Computes the pool's utilization, or `None` where it leaves `i128`.
pub fn checked_utilization(total_pooled: i128, total_escrow: i128) -> (r: Option<i128>)
    ensures
        r is Some <==> utilization_fits(total_pooled as int, total_escrow as int),
        r matches Some(v) ==> v == utilization_bps(total_pooled as int, total_escrow as int),
{
    if total_escrow > 0 {
        match total_pooled.checked_mul(10000) {
            Some(p) => Some(p / total_escrow),
            None => None,
        }
    } else {
        Some(0)
    }
}

/// The reputation points a penalty costs the losing party.
pub open spec fn penalty_points_spec(penalty: Seq<u8>) -> int {
    if penalty == fraud_text() {
        FRAUD_POINTS as int
    } else if penalty == breach_text() {
        BREACH_POINTS as int
    } else {
        NEGLECT_POINTS as int
    }
}

/// The share of the escrow, in percent, a penalty forfeits.
pub open spec fn forfeiture_percent_spec(penalty: Seq<u8>) -> int {
    if penalty == fraud_text() {
        FORFEITURE_FRAUD_PERCENT as int
    } else if penalty == breach_text() {
        FORFEITURE_BREACH_PERCENT as int
    } else {
        FORFEITURE_NEGLECT_PERCENT as int
    }
}

/// Looks up what a penalty costs: reputation points and the forfeited share.
pub fn penalty_terms(penalty: &Tag) -> (r: (i128, i128))
    ensures
        r.0 == penalty_points_spec(penalty@),
        r.1 == forfeiture_percent_spec(penalty@),
{
    if penalty.same_as(&Tag::fraud()) {
        (FRAUD_POINTS, FORFEITURE_FRAUD_PERCENT)
    } else if penalty.same_as(&Tag::breach()) {
        (BREACH_POINTS, FORFEITURE_BREACH_PERCENT)
    } else {
        (NEGLECT_POINTS, FORFEITURE_NEGLECT_PERCENT)
    }
}

/// The platform's part of a forfeited `amount`: 50%.
pub open spec fn forfeiture_platform_share(amount: int) -> int {
    percent_of(amount, FORFEITURE_PLATFORM_PERCENT as int)
}

/// The guarantee reserve's part of a forfeited `amount`: 40%.
pub open spec fn forfeiture_reserve_share(amount: int) -> int {
    percent_of(amount, FORFEITURE_RESERVE_PERCENT as int)
}

/// The DAO treasury's part of a forfeited `amount`: what the other two leave.
pub open spec fn forfeiture_dao_share(amount: int) -> int {
    amount - forfeiture_platform_share(amount) - forfeiture_reserve_share(amount)
}

/// Whether a forfeiture of `amount` can be split within `i128`.
pub open spec fn forfeiture_split_fits(amount: int) -> bool {
    fits(amount * FORFEITURE_PLATFORM_PERCENT) && fits(amount * FORFEITURE_RESERVE_PERCENT)
}

/// Splits a forfeited amount 50/40/10 between the platform, the guarantee
/// reserve and the DAO treasury.
pub fn split_forfeiture(amount: i128) -> (r: (i128, i128, i128))
    requires
        forfeiture_split_fits(amount as int),
    ensures
        r.0 == forfeiture_platform_share(amount as int),
        r.1 == forfeiture_reserve_share(amount as int),
        r.2 == forfeiture_dao_share(amount as int),
{
    let platform = (amount * FORFEITURE_PLATFORM_PERCENT) / 100;
    let reserve = (amount * FORFEITURE_RESERVE_PERCENT) / 100;
    proof {
        lemma_forfeiture_shares_bounded(amount as int);
    }
    let dao = amount - platform - reserve;
    (platform, reserve, dao)
}

/// The two shares of a forfeiture lie between 0 and the amount, on the same
/// side of 0 as the amount.
pub proof fn lemma_forfeiture_shares_bounded(amount: int)
    ensures
        amount >= 0 ==> 0 <= forfeiture_platform_share(amount) && 0 <= forfeiture_reserve_share(amount)
            && forfeiture_platform_share(amount) + forfeiture_reserve_share(amount) <= amount,
        amount < 0 ==> forfeiture_platform_share(amount) <= 0 && forfeiture_reserve_share(amount) <= 0
            && forfeiture_platform_share(amount) + forfeiture_reserve_share(amount) >= amount,
{
    if amount >= 0 {
        assert(0 <= (amount * 50) / 100 <= amount / 2) by (nonlinear_arith)
            requires amount >= 0;
        assert(0 <= (amount * 40) / 100 <= (amount * 4) / 10) by (nonlinear_arith)
            requires amount >= 0;
        assert(amount / 2 + (amount * 4) / 10 <= amount) by (nonlinear_arith)
            requires amount >= 0;
    } else {
        let b = -amount;
        assert(0 <= (b * 50) / 100 <= b / 2) by (nonlinear_arith)
            requires b >= 0;
        assert(0 <= (b * 40) / 100 <= (b * 4) / 10) by (nonlinear_arith)
            requires b >= 0;
        assert(b / 2 + (b * 4) / 10 <= b) by (nonlinear_arith)
            requires b >= 0;
        assert(-amount * 50 == b * 50);
        assert(-(amount * 50) == b * 50) by (nonlinear_arith)
            requires b == -amount;
        assert(-(amount * 40) == b * 40) by (nonlinear_arith)
            requires b == -amount;
    }
}

} // verus!
