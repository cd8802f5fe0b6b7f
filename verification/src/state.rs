//! The contract as a state machine over plain values: its state, and for every
//! entry point the outcome it owes, an error or the next state together with
//! the actions to perform.
use vstd::prelude::*;
use crate::types::{
    CommitmentParamsView, CommitmentView, ConfigView, DisputeStatus, DisputeView, ExtraDataView,
    LiquidityPoolState, MithaqError, Status,
};
use crate::events::{
    ActionView, AutoReleased, ContractCompleted, EventView, FeesDistributed, HolderView, Imprint,
    InstallmentPaid, MilestoneReleased,
};
use crate::rules::{
    fits, forfeiture_dao_share, forfeiture_percent_spec, forfeiture_platform_share,
    forfeiture_reserve_share, forfeiture_split_fits, max_ltv_percent_spec, next_reputation,
    penalty_points_spec, percent_of, platform_fee_percent_spec, quot, utilization_bps,
    utilization_fits, AUTO_RELEASE_SECONDS, DEFAULT_GUARANTEE_ALLOC, INITIAL_UTILIZATION_BPS,
    MAX_INSTALLMENTS, MAX_MILESTONES, NEGLECT_POINTS, POOL_CONTRIBUTION_RATIO, REVIEW_PERIOD_SECONDS,
    REWARD_POINTS,
};
use crate::tag::{
    construction_text, force_majeure_text, mutual_text, payment_cancelled_text,
    payment_pending_text, penalty_pending_text, reputation_lending_text, tuition_text,
};

verus! {

/// The whole state of the contract.
pub struct MithaqState {
    /// The recorded addresses; `None` until `initialize`.
    pub config: Option<ConfigView>,
    /// The commitments; the one with id `i` is at index `i - 1`.
    pub commitments: Seq<CommitmentView>,
    /// The disputes; the one with id `i` is at index `i - 1`.
    pub disputes: Seq<DisputeView>,
    /// The reputation of every party that has one; others have 0.
    pub reputation: Map<Seq<u8>, i128>,
    /// The sum recorded as held in escrow.
    pub total_escrow: i128,
    /// The liquidity pool; `None` until `initialize`.
    pub pool: Option<LiquidityPoolState>,
    /// The reentrancy lock.
    pub locked: bool,
}

/// The outcome of an entry point: the next state and what to perform, or why
/// the call is refused.
pub enum Outcome {
    Done(MithaqState, Seq<ActionView>),
    Refused(MithaqError),
}

/// The pool as it reads before anything was stored.
pub open spec fn fresh_pool(now: u64) -> LiquidityPoolState {
    LiquidityPoolState {
        total_pooled: 0,
        total_recycled_fees: 0,
        active_contributors: 0,
        pool_utilization: INITIAL_UTILIZATION_BPS,
        last_updated: now,
    }
}

/// The reputation of `p` in `m`: 0 where it has none.
pub open spec fn rep_in(m: Map<Seq<u8>, i128>, p: Seq<u8>) -> int {
    if m.contains_key(p) {
        m[p] as int
    } else {
        0
    }
}

/// Adds `points` to the reputation of `p` (never below 0); `None` where the
/// sum leaves `i128`.
pub open spec fn add_reputation(m: Map<Seq<u8>, i128>, p: Seq<u8>, points: int) -> Option<
    Map<Seq<u8>, i128>,
> {
    let r = rep_in(m, p);
    if fits(r + points) {
        Some(m.insert(p, next_reputation(r, points) as i128))
    } else {
        None
    }
}

/// Adds `pa` points to `a`, then `pb` points to `b`.
pub open spec fn add_reputation_twice(
    m: Map<Seq<u8>, i128>,
    a: Seq<u8>,
    pa: int,
    b: Seq<u8>,
    pb: int,
) -> Option<Map<Seq<u8>, i128>> {
    match add_reputation(m, a, pa) {
        Some(m1) => add_reputation(m1, b, pb),
        None => None,
    }
}

/// A payment of `amount` from the contract to `to`; none unless positive.
pub open spec fn transfer_out(to: Seq<u8>, amount: int) -> Seq<ActionView> {
    if amount > 0 {
        seq![ActionView::Transfer { from: HolderView::Contract, to: HolderView::Account(to), amount: amount as i128 }]
    } else {
        seq![]
    }
}

/// The distribution of `fees`; none unless positive.
pub open spec fn fee_distribution(fees: int, alloc: i128) -> Seq<ActionView> {
    if fees > 0 {
        seq![ActionView::DistributeFees { fees: fees as i128, guarantee_alloc_percent: alloc }]
    } else {
        seq![]
    }
}

/// The split of a forfeited `amount` between the wallets of `config`, and the
/// event that reports it; nothing unless positive.
pub open spec fn forfeiture_actions(amount: int, config: ConfigView) -> Seq<ActionView> {
    if amount > 0 {
        let platform = forfeiture_platform_share(amount);
        let reserve = forfeiture_reserve_share(amount);
        let dao = forfeiture_dao_share(amount);
        transfer_out(config.platform_wallet, platform) + transfer_out(config.reserve_wallet, reserve)
            + transfer_out(config.dao_wallet, dao) + seq![
            ActionView::Publish(
                EventView::ForfeitureDistributed(
                    FeesDistributed {
                        total: amount as i128,
                        platform: platform as i128,
                        reserve: reserve as i128,
                        dao: dao as i128,
                    },
                ),
            ),
        ]
    } else {
        seq![]
    }
}

/// The commitment that `create_commitment` records.
pub open spec fn new_commitment(
    id: u64,
    creator: Seq<u8>,
    counterparty: Seq<u8>,
    p: CommitmentParamsView,
    fee: i128,
    now: u64,
) -> CommitmentView {
    CommitmentView {
        id,
        creator,
        counterparty,
        original_value: p.original_value,
        net_value: p.net_value,
        down_payment: p.down_payment,
        first_release_amount: p.first_release_amount,
        second_release_amount: p.second_release_amount,
        contract_type: p.contract_type,
        status: Status::Pending,
        deadline: p.deadline,
        accepted_at: 0,
        review_deadline: 0,
        auto_release_deadline: 0,
        first_release_done: false,
        payment_status: payment_pending_text(),
        custom_step: 0,
        escrow_balance: 0,
        platform_fee_percent: fee,
        guarantee_reserve_alloc_percent: DEFAULT_GUARANTEE_ALLOC,
        legal_doc_hash: p.legal_doc_hash,
        extra_data: ExtraDataView { proof: None, milestone: None, installment: None },
        created_at: now,
        contributes_to_pool: false,
        liquidity_contribution: 0,
    }
}

/// The last milestone released, 0 before the first.
pub open spec fn last_milestone(c: CommitmentView) -> int {
    match c.extra_data.milestone {
        Some(m) => m as int,
        None => 0,
    }
}

/// The last installment paid, 0 before the first.
pub open spec fn last_installment(c: CommitmentView) -> int {
    match c.extra_data.installment {
        Some(m) => m as int,
        None => 0,
    }
}

impl MithaqState {
    /// The state before `initialize`.
    pub open spec fn empty() -> MithaqState {
        MithaqState {
            config: None,
            commitments: Seq::empty(),
            disputes: Seq::empty(),
            reputation: Map::empty(),
            total_escrow: 0,
            pool: None,
            locked: false,
        }
    }

    pub open spec fn reputation_of(self, p: Seq<u8>) -> int {
        rep_in(self.reputation, p)
    }

    /// The pool, or a fresh one where none is stored.
    pub open spec fn pool_or_default(self, now: u64) -> LiquidityPoolState {
        match self.pool {
            Some(p) => p,
            None => fresh_pool(now),
        }
    }

    pub open spec fn has_commitment(self, id: u64) -> bool {
        1 <= id && id <= self.commitments.len()
    }

    pub open spec fn commitment(self, id: u64) -> CommitmentView {
        self.commitments[id - 1]
    }

    pub open spec fn has_dispute(self, id: u64) -> bool {
        1 <= id && id <= self.disputes.len()
    }

    pub open spec fn dispute(self, id: u64) -> DisputeView {
        self.disputes[id - 1]
    }

    /// `initialize`: records the addresses, an empty escrow and a fresh pool.
    pub open spec fn initialize_spec(self, config: ConfigView, now: u64) -> Outcome {
        if self.config is Some {
            Outcome::Refused(MithaqError::AlreadyInitialized)
        } else {
            Outcome::Done(
                MithaqState {
                    config: Some(config),
                    total_escrow: 0,
                    pool: Some(fresh_pool(now)),
                    locked: false,
                    ..self
                },
                seq![],
            )
        }
    }

    /// `create_commitment`: validates the terms and records a pending commitment
    /// under the next id.
    pub open spec fn create_spec(
        self,
        creator: Seq<u8>,
        counterparty: Seq<u8>,
        p: CommitmentParamsView,
        now: u64,
    ) -> Outcome {
        let net = p.net_value as int;
        let dp = p.down_payment as int;
        let lending = p.contract_type == reputation_lending_text();
        let rep = self.reputation_of(creator);
        let loan_scaled = (net - dp) * 100;
        if self.locked {
            Outcome::Refused(MithaqError::ReentrancyDetected)
        } else if self.config is None {
            Outcome::Refused(MithaqError::NotInitialized)
        } else if net <= 0 {
            Outcome::Refused(MithaqError::NetValueNotPositive)
        } else if dp < 0 || dp > net {
            Outcome::Refused(MithaqError::InvalidDownPayment)
        } else if creator == counterparty {
            Outcome::Refused(MithaqError::SelfDealingProhibited)
        } else if !fits(p.first_release_amount + p.second_release_amount) {
            Outcome::Refused(MithaqError::ArithmeticOverflow)
        } else if p.first_release_amount + p.second_release_amount != net {
            Outcome::Refused(MithaqError::ReleaseSumMismatch)
        } else if p.first_release_amount > dp {
            Outcome::Refused(MithaqError::FirstReleaseExceedsDownPayment)
        } else if p.deadline <= now {
            Outcome::Refused(MithaqError::DeadlineNotInFuture)
        } else if lending && max_ltv_percent_spec(rep) is None {
            Outcome::Refused(MithaqError::ReputationTooLow)
        } else if lending && !fits(loan_scaled) {
            Outcome::Refused(MithaqError::ArithmeticOverflow)
        } else if lending && quot(loan_scaled, net) > max_ltv_percent_spec(rep).unwrap() {
            Outcome::Refused(MithaqError::LtvExceedsLimit)
        } else if self.commitments.len() >= u64::MAX {
            Outcome::Refused(MithaqError::ArithmeticOverflow)
        } else {
            let id = (self.commitments.len() + 1) as u64;
            let fee = platform_fee_percent_spec(rep, self.pool_or_default(now).pool_utilization as int);
            let c = new_commitment(id, creator, counterparty, p, fee as i128, now);
            Outcome::Done(
                MithaqState { commitments: self.commitments.push(c), locked: true, ..self },
                seq![
                    ActionView::Publish(
                        EventView::Created {
                            id,
                            creator,
                            contract_type: p.contract_type,
                            net_value: p.net_value,
                            down_payment: p.down_payment,
                        },
                    ),
                ],
            )
        }
    }

    /// `accept`: the counterparty funds the down payment into escrow, part of
    /// which feeds the liquidity pool.
    pub open spec fn accept_spec(self, id: u64, funder: Seq<u8>, doc_hash: Seq<u8>, now: u64) -> Outcome {
        if self.locked {
            Outcome::Refused(MithaqError::ReentrancyDetected)
        } else if !self.has_commitment(id) {
            Outcome::Refused(MithaqError::CommitmentNotFound)
        } else {
            let c = self.commitment(id);
            let dp = c.down_payment as int;
            let total = self.total_escrow + dp;
            let contribution = percent_of(dp, POOL_CONTRIBUTION_RATIO as int);
            let pool = self.pool_or_default(now);
            let pooled = pool.total_pooled + contribution;
            if c.status != Status::Pending || now > c.deadline {
                Outcome::Refused(MithaqError::InvalidState)
            } else if c.legal_doc_hash != doc_hash || funder != c.counterparty {
                Outcome::Refused(MithaqError::AuthFailed)
            } else if self.config is None {
                Outcome::Refused(MithaqError::NotInitialized)
            } else if !fits(total) || !fits(dp * POOL_CONTRIBUTION_RATIO) {
                Outcome::Refused(MithaqError::ArithmeticOverflow)
            } else if contribution > 0 && (!fits(pooled) || pool.active_contributors + 1 > u32::MAX
                || !utilization_fits(pooled, total)) {
                Outcome::Refused(MithaqError::ArithmeticOverflow)
            } else {
                let funded = CommitmentView {
                    escrow_balance: c.down_payment,
                    status: Status::Active,
                    accepted_at: now,
                    ..c
                };
                let c2 = if contribution > 0 {
                    CommitmentView {
                        contributes_to_pool: true,
                        liquidity_contribution: contribution as i128,
                        ..funded
                    }
                } else {
                    funded
                };
                let pool2 = if contribution > 0 {
                    Some(
                        LiquidityPoolState {
                            total_pooled: pooled as i128,
                            active_contributors: (pool.active_contributors + 1) as u32,
                            pool_utilization: utilization_bps(pooled, total) as i128,
                            last_updated: now,
                            ..pool
                        },
                    )
                } else {
                    self.pool
                };
                Outcome::Done(
                    MithaqState {
                        commitments: self.commitments.update(id - 1, c2),
                        total_escrow: total as i128,
                        pool: pool2,
                        locked: true,
                        ..self
                    },
                    seq![
                        ActionView::Transfer {
                            from: HolderView::Account(funder),
                            to: HolderView::Contract,
                            amount: c.down_payment,
                        },
                        ActionView::Publish(
                            EventView::Accepted {
                                id,
                                counterparty: c.counterparty,
                                escrowed_amount: c.down_payment,
                            },
                        ),
                    ],
                )
            }
        }
    }

    /// `cancel_commitment`: a party cancels; what is in escrow goes back to the
    /// counterparty and the commitment's pool contribution is withdrawn.
    pub open spec fn cancel_spec(self, id: u64, caller: Seq<u8>, reason: Seq<u8>, now: u64) -> Outcome {
        if self.locked {
            Outcome::Refused(MithaqError::ReentrancyDetected)
        } else if !self.has_commitment(id) {
            Outcome::Refused(MithaqError::CommitmentNotFound)
        } else {
            let c = self.commitment(id);
            let refunded = c.escrow_balance as int;
            let pool = self.pool_or_default(now);
            let pooled0 = pool.total_pooled - c.liquidity_contribution;
            let pooled = if pooled0 > 0 {
                pooled0
            } else {
                0
            };
            let active = if pool.active_contributors > 0 {
                pool.active_contributors - 1
            } else {
                0
            };
            let total = self.total_escrow as int;
            if c.status != Status::Pending && reason != mutual_text() && reason != force_majeure_text() {
                Outcome::Refused(MithaqError::ConsentRequired)
            } else if caller != c.creator && caller != c.counterparty {
                Outcome::Refused(MithaqError::NotAParty)
            } else if c.contributes_to_pool && (!fits(pooled0) || !utilization_fits(pooled, total)) {
                Outcome::Refused(MithaqError::ArithmeticOverflow)
            } else if refunded > 0 && self.config is None {
                Outcome::Refused(MithaqError::NotInitialized)
            } else if refunded > 0 && !fits(total - refunded) {
                Outcome::Refused(MithaqError::ArithmeticOverflow)
            } else {
                let c1 = CommitmentView { status: Status::Cancelled, ..c };
                let c2 = if c.contributes_to_pool {
                    CommitmentView { contributes_to_pool: false, liquidity_contribution: 0, ..c1 }
                } else {
                    c1
                };
                let c3 = if refunded > 0 {
                    CommitmentView { escrow_balance: 0, ..c2 }
                } else {
                    c2
                };
                let pool2 = if c.contributes_to_pool {
                    Some(
                        LiquidityPoolState {
                            total_pooled: pooled as i128,
                            active_contributors: active as u32,
                            pool_utilization: utilization_bps(pooled, total) as i128,
                            last_updated: now,
                            ..pool
                        },
                    )
                } else {
                    self.pool
                };
                let total2 = if refunded > 0 {
                    total - refunded
                } else {
                    total
                };
                Outcome::Done(
                    MithaqState {
                        commitments: self.commitments.update(id - 1, c3),
                        total_escrow: total2 as i128,
                        pool: pool2,
                        locked: true,
                        ..self
                    },
                    transfer_out(c.counterparty, refunded) + seq![
                        ActionView::Publish(
                            EventView::Cancelled { id, by: caller, refunded: c.escrow_balance },
                        ),
                    ],
                )
            }
        }
    }

    /// `update_payment_status`: the payment server reports the payment's state;
    /// a cancelled payment cancels the commitment.
    pub open spec fn update_payment_status_spec(self, id: u64, status: Seq<u8>) -> Outcome {
        if self.locked {
            Outcome::Refused(MithaqError::ReentrancyDetected)
        } else if self.config is None {
            Outcome::Refused(MithaqError::NotInitialized)
        } else if !self.has_commitment(id) {
            Outcome::Refused(MithaqError::CommitmentNotFound)
        } else {
            let c = self.commitment(id);
            let c2 = CommitmentView {
                payment_status: status,
                status: if status == payment_cancelled_text() {
                    Status::Cancelled
                } else {
                    c.status
                },
                ..c
            };
            Outcome::Done(
                MithaqState { commitments: self.commitments.update(id - 1, c2), locked: true, ..self },
                seq![ActionView::Publish(EventView::PaymentUpdated { id, status })],
            )
        }
    }

    /// `confirm_delivery`: the counterparty confirms delivery; the first release
    /// is paid to the creator and the review period starts.
    pub open spec fn confirm_delivery_spec(
        self,
        id: u64,
        counterparty: Seq<u8>,
        proof: Seq<u8>,
        now: u64,
    ) -> Outcome {
        if self.locked {
            Outcome::Refused(MithaqError::ReentrancyDetected)
        } else if !self.has_commitment(id) {
            Outcome::Refused(MithaqError::CommitmentNotFound)
        } else {
            let c = self.commitment(id);
            let amount = c.first_release_amount as int;
            let escrow2 = c.escrow_balance - amount;
            let total2 = self.total_escrow - amount;
            let review = now + REVIEW_PERIOD_SECONDS;
            let auto = review + AUTO_RELEASE_SECONDS;
            if counterparty != c.counterparty || c.status != Status::Active || c.first_release_done {
                Outcome::Refused(MithaqError::InvalidCaller)
            } else if amount > c.escrow_balance {
                Outcome::Refused(MithaqError::InsufficientEscrow)
            } else if self.config is None {
                Outcome::Refused(MithaqError::NotInitialized)
            } else if !fits(escrow2) || !fits(total2) || auto > u64::MAX {
                Outcome::Refused(MithaqError::ArithmeticOverflow)
            } else {
                let c2 = CommitmentView {
                    escrow_balance: escrow2 as i128,
                    first_release_done: true,
                    status: Status::AwaitingReview,
                    review_deadline: review as u64,
                    auto_release_deadline: auto as u64,
                    extra_data: ExtraDataView { proof: Some(proof), ..c.extra_data },
                    ..c
                };
                Outcome::Done(
                    MithaqState {
                        commitments: self.commitments.update(id - 1, c2),
                        total_escrow: total2 as i128,
                        locked: true,
                        ..self
                    },
                    transfer_out(c.creator, amount) + seq![
                        ActionView::Publish(
                            EventView::Delivered { id, amount: c.first_release_amount, proof_hash: proof },
                        ),
                    ],
                )
            }
        }
    }

    /// Settles the escrow of commitment `id` into the creator's payout and the
    /// platform fees: `review` when the counterparty confirms it, otherwise the
    /// release after the review period.
    pub open spec fn settle_spec(self, id: u64, review: bool) -> Outcome {
        let c = self.commitment(id);
        let balance = c.escrow_balance as int;
        let fees = percent_of(balance, c.platform_fee_percent as int);
        let payout = balance - fees;
        let reps = if review {
            add_reputation_twice(self.reputation, c.creator, REWARD_POINTS as int, c.counterparty, REWARD_POINTS as int)
        } else {
            add_reputation_twice(self.reputation, c.counterparty, NEGLECT_POINTS as int, c.creator, REWARD_POINTS as int)
        };
        if !fits(balance * c.platform_fee_percent) || !fits(payout) {
            Outcome::Refused(MithaqError::ArithmeticOverflow)
        } else if reps is None {
            Outcome::Refused(MithaqError::ArithmeticOverflow)
        } else if self.config is None {
            Outcome::Refused(MithaqError::NotInitialized)
        } else if !fits(self.total_escrow - balance) {
            Outcome::Refused(MithaqError::ArithmeticOverflow)
        } else {
            let c2 = CommitmentView {
                escrow_balance: 0,
                status: if review {
                    Status::Completed
                } else {
                    Status::AutoReleased
                },
                ..c
            };
            let event = if review {
                EventView::Completed(
                    ContractCompleted { id, final_payout: payout as i128, fees_paid: fees as i128 },
                )
            } else {
                EventView::AutoReleased(AutoReleased { id, payout: payout as i128 })
            };
            Outcome::Done(
                MithaqState {
                    commitments: self.commitments.update(id - 1, c2),
                    reputation: reps.unwrap(),
                    total_escrow: (self.total_escrow - balance) as i128,
                    locked: true,
                    ..self
                },
                seq![
                    ActionView::IssueCertificate {
                        commitment_id: c.id,
                        creator: c.creator,
                        counterparty: c.counterparty,
                        imprint: if review {
                            Imprint::Verified
                        } else {
                            Imprint::AutoVerified
                        },
                    },
                ] + fee_distribution(fees, c.guarantee_reserve_alloc_percent) + transfer_out(c.creator, payout)
                    + seq![ActionView::Publish(event)],
            )
        }
    }

    /// `confirm_review`: the counterparty accepts the delivery; the escrow goes
    /// to the creator less the platform fee and both parties gain reputation.
    pub open spec fn confirm_review_spec(self, id: u64, counterparty: Seq<u8>) -> Outcome {
        if self.locked {
            Outcome::Refused(MithaqError::ReentrancyDetected)
        } else if !self.has_commitment(id) {
            Outcome::Refused(MithaqError::CommitmentNotFound)
        } else if counterparty != self.commitment(id).counterparty || self.commitment(id).status
            != Status::AwaitingReview {
            Outcome::Refused(MithaqError::InvalidCaller)
        } else {
            self.settle_spec(id, true)
        }
    }

    /// `auto_release`: once the auto-release deadline has passed, the escrow goes
    /// to the creator less the platform fee; the silent counterparty loses
    /// reputation.
    pub open spec fn auto_release_spec(self, id: u64, now: u64) -> Outcome {
        if self.locked {
            Outcome::Refused(MithaqError::ReentrancyDetected)
        } else if !self.has_commitment(id) {
            Outcome::Refused(MithaqError::CommitmentNotFound)
        } else if self.commitment(id).status != Status::AwaitingReview || now
            < self.commitment(id).auto_release_deadline {
            Outcome::Refused(MithaqError::NotReady)
        } else {
            self.settle_spec(id, false)
        }
    }

    /// `open_dispute`: a party freezes an active or delivered commitment and
    /// opens a dispute under the next dispute id.
    pub open spec fn open_dispute_spec(self, id: u64, caller: Seq<u8>, reason: Seq<u8>, now: u64) -> Outcome {
        if self.locked {
            Outcome::Refused(MithaqError::ReentrancyDetected)
        } else if !self.has_commitment(id) {
            Outcome::Refused(MithaqError::CommitmentNotFound)
        } else {
            let c = self.commitment(id);
            if caller != c.creator && caller != c.counterparty {
                Outcome::Refused(MithaqError::NoStanding)
            } else if c.status != Status::AwaitingReview && c.status != Status::Active {
                Outcome::Refused(MithaqError::IneligibleState)
            } else if self.disputes.len() >= u64::MAX {
                Outcome::Refused(MithaqError::ArithmeticOverflow)
            } else {
                let dispute_id = (self.disputes.len() + 1) as u64;
                let d = DisputeView {
                    id: dispute_id,
                    contract_id: id,
                    plaintiff: caller,
                    defendant: if caller == c.creator {
                        c.counterparty
                    } else {
                        c.creator
                    },
                    status: DisputeStatus::Open,
                    penalty: penalty_pending_text(),
                    opened_at: now,
                    resolved_at: 0,
                };
                Outcome::Done(
                    MithaqState {
                        commitments: self.commitments.update(
                            id - 1,
                            CommitmentView { status: Status::Disputed, ..c },
                        ),
                        disputes: self.disputes.push(d),
                        locked: true,
                        ..self
                    },
                    seq![
                        ActionView::Publish(
                            EventView::DisputeOpened { dispute_id, contract_id: id, by: caller, reason },
                        ),
                    ],
                )
            }
        }
    }

    /// `resolve_dispute`: the admin names the winner and the penalty; the loser
    /// loses reputation, the penalty's share of the escrow is forfeited, and
    /// the rest goes to the winner less the platform fee.
    pub open spec fn resolve_dispute_spec(
        self,
        dispute_id: u64,
        winner: Seq<u8>,
        verdict: Seq<u8>,
        penalty: Seq<u8>,
        now: u64,
    ) -> Outcome {
        if self.locked {
            Outcome::Refused(MithaqError::ReentrancyDetected)
        } else if self.config is None {
            Outcome::Refused(MithaqError::NotInitialized)
        } else if !self.has_dispute(dispute_id) {
            Outcome::Refused(MithaqError::DisputeNotFound)
        } else if self.dispute(dispute_id).status != DisputeStatus::Open {
            Outcome::Refused(MithaqError::CaseClosed)
        } else if !self.has_commitment(self.dispute(dispute_id).contract_id) {
            Outcome::Refused(MithaqError::CommitmentNotFound)
        } else {
            let d = self.dispute(dispute_id);
            let c = self.commitment(d.contract_id);
            let loser = if winner == c.creator {
                c.counterparty
            } else {
                c.creator
            };
            let reps = add_reputation_twice(
                self.reputation,
                loser,
                penalty_points_spec(penalty),
                winner,
                REWARD_POINTS as int,
            );
            let balance = c.escrow_balance as int;
            let fp = forfeiture_percent_spec(penalty);
            let forfeiture = percent_of(balance, fp);
            let remaining = balance - forfeiture;
            let fees = percent_of(remaining, c.platform_fee_percent as int);
            let payout = remaining - fees;
            if winner != c.creator && winner != c.counterparty {
                Outcome::Refused(MithaqError::WinnerNotAParty)
            } else if reps is None {
                Outcome::Refused(MithaqError::ArithmeticOverflow)
            } else if !fits(balance * fp) || !fits(remaining) || !fits(remaining * c.platform_fee_percent)
                || !fits(payout) {
                Outcome::Refused(MithaqError::ArithmeticOverflow)
            } else if forfeiture > 0 && !forfeiture_split_fits(forfeiture) {
                Outcome::Refused(MithaqError::ArithmeticOverflow)
            } else if !fits(self.total_escrow - balance) {
                Outcome::Refused(MithaqError::ArithmeticOverflow)
            } else {
                let d2 = DisputeView {
                    status: DisputeStatus::Arbitrated,
                    penalty,
                    resolved_at: now,
                    ..d
                };
                let c2 = CommitmentView { status: Status::Completed, escrow_balance: 0, ..c };
                Outcome::Done(
                    MithaqState {
                        commitments: self.commitments.update(d.contract_id - 1, c2),
                        disputes: self.disputes.update(dispute_id - 1, d2),
                        reputation: reps.unwrap(),
                        total_escrow: (self.total_escrow - balance) as i128,
                        locked: true,
                        ..self
                    },
                    seq![
                        ActionView::IssueCertificate {
                            commitment_id: c.id,
                            creator: c.creator,
                            counterparty: c.counterparty,
                            imprint: Imprint::DisputeResolved,
                        },
                    ] + forfeiture_actions(forfeiture, self.config.unwrap()) + fee_distribution(
                        fees,
                        c.guarantee_reserve_alloc_percent,
                    ) + transfer_out(winner, payout) + seq![
                        ActionView::Publish(
                            EventView::DisputeResolved {
                                dispute_id,
                                winner,
                                verdict,
                                payout: payout as i128,
                            },
                        ),
                    ],
                )
            }
        }
    }

    /// `release_milestone`: the counterparty releases construction milestone
    /// `milestone`, worth a tenth of the down payment, to the creator; the
    /// last one completes the commitment.
    pub open spec fn release_milestone_spec(self, id: u64, caller: Seq<u8>, milestone: u32) -> Outcome {
        if self.locked {
            Outcome::Refused(MithaqError::ReentrancyDetected)
        } else if !self.has_commitment(id) {
            Outcome::Refused(MithaqError::CommitmentNotFound)
        } else {
            let c = self.commitment(id);
            let per = quot(c.down_payment as int, MAX_MILESTONES as int);
            let fee = percent_of(per, c.platform_fee_percent as int);
            let net = per - fee;
            let escrow2 = c.escrow_balance - per;
            let total2 = self.total_escrow - per;
            let complete = milestone >= MAX_MILESTONES;
            let reps = if complete {
                add_reputation_twice(self.reputation, c.creator, REWARD_POINTS as int, c.counterparty, REWARD_POINTS as int)
            } else {
                Some(self.reputation)
            };
            if c.contract_type != construction_text() {
                Outcome::Refused(MithaqError::NotConstruction)
            } else if caller != c.counterparty {
                Outcome::Refused(MithaqError::OnlyCounterparty)
            } else if c.status != Status::Active && c.status != Status::AwaitingReview {
                Outcome::Refused(MithaqError::ContractFrozen)
            } else if milestone > MAX_MILESTONES {
                Outcome::Refused(MithaqError::MilestoneOutOfRange)
            } else if milestone <= last_milestone(c) {
                Outcome::Refused(MithaqError::DoubleSpending)
            } else if !fits(per * c.platform_fee_percent) || !fits(net) {
                Outcome::Refused(MithaqError::ArithmeticOverflow)
            } else if self.config is None {
                Outcome::Refused(MithaqError::NotInitialized)
            } else if !fits(escrow2) || !fits(total2) || reps is None {
                Outcome::Refused(MithaqError::ArithmeticOverflow)
            } else {
                let c2 = CommitmentView {
                    extra_data: ExtraDataView { milestone: Some(milestone), ..c.extra_data },
                    escrow_balance: escrow2 as i128,
                    status: if complete {
                        Status::Completed
                    } else {
                        c.status
                    },
                    ..c
                };
                Outcome::Done(
                    MithaqState {
                        commitments: self.commitments.update(id - 1, c2),
                        reputation: reps.unwrap(),
                        total_escrow: total2 as i128,
                        locked: true,
                        ..self
                    },
                    fee_distribution(fee, c.guarantee_reserve_alloc_percent) + transfer_out(c.creator, net)
                        + seq![
                        ActionView::Publish(
                            EventView::MilestoneReleased(
                                MilestoneReleased { id, milestone, amount: net as i128 },
                            ),
                        ),
                    ],
                )
            }
        }
    }

    /// `pay_installment`: the counterparty pays tuition installment
    /// `installment`, a ninth of the down payment, through the contract to the
    /// creator; the last one completes the commitment.
    pub open spec fn pay_installment_spec(self, id: u64, caller: Seq<u8>, installment: u32) -> Outcome {
        if self.locked {
            Outcome::Refused(MithaqError::ReentrancyDetected)
        } else if !self.has_commitment(id) {
            Outcome::Refused(MithaqError::CommitmentNotFound)
        } else {
            let c = self.commitment(id);
            let per = quot(c.down_payment as int, MAX_INSTALLMENTS as int);
            let fee = percent_of(per, c.platform_fee_percent as int);
            let net = per - fee;
            let complete = installment >= MAX_INSTALLMENTS;
            let reps = if complete {
                add_reputation_twice(self.reputation, c.creator, REWARD_POINTS as int, c.counterparty, REWARD_POINTS as int)
            } else {
                Some(self.reputation)
            };
            if c.contract_type != tuition_text() {
                Outcome::Refused(MithaqError::NotTuition)
            } else if caller != c.counterparty {
                Outcome::Refused(MithaqError::UnauthorizedPayer)
            } else if c.status != Status::Active {
                Outcome::Refused(MithaqError::NotInGoodStanding)
            } else if installment > MAX_INSTALLMENTS {
                Outcome::Refused(MithaqError::InstallmentOutOfRange)
            } else if installment <= last_installment(c) {
                Outcome::Refused(MithaqError::InstallmentCleared)
            } else if !fits(per * c.platform_fee_percent) || !fits(net) {
                Outcome::Refused(MithaqError::ArithmeticOverflow)
            } else if self.config is None {
                Outcome::Refused(MithaqError::NotInitialized)
            } else if reps is None {
                Outcome::Refused(MithaqError::ArithmeticOverflow)
            } else {
                let c2 = CommitmentView {
                    extra_data: ExtraDataView { installment: Some(installment), ..c.extra_data },
                    status: if complete {
                        Status::Completed
                    } else {
                        c.status
                    },
                    ..c
                };
                Outcome::Done(
                    MithaqState {
                        commitments: self.commitments.update(id - 1, c2),
                        reputation: reps.unwrap(),
                        locked: true,
                        ..self
                    },
                    seq![
                        ActionView::Transfer {
                            from: HolderView::Account(caller),
                            to: HolderView::Contract,
                            amount: per as i128,
                        },
                    ] + fee_distribution(fee, c.guarantee_reserve_alloc_percent) + transfer_out(c.creator, net)
                        + seq![
                        ActionView::Publish(
                            EventView::InstallmentPaid(
                                InstallmentPaid { id, installment, amount: net as i128 },
                            ),
                        ),
                    ],
                )
            }
        }
    }

    /// Whether `admin` may change the wallets: the contract is initialized and
    /// `admin` is its recorded admin. `None` where it may.
    pub open spec fn admin_check(self, admin: Seq<u8>) -> Option<MithaqError> {
        if self.config is None {
            Some(MithaqError::NotInitialized)
        } else if admin != self.config.unwrap().admin {
            Some(MithaqError::Unauthorized)
        } else {
            None
        }
    }

    /// `update_platform_wallet`, `update_reserve_wallet`, `update_dao_wallet`:
    /// the admin replaces one of the three wallets (`which` 0, 1, 2).
    pub open spec fn update_wallet_spec(self, which: int, admin: Seq<u8>, wallet: Seq<u8>) -> Outcome {
        if self.locked {
            Outcome::Refused(MithaqError::ReentrancyDetected)
        } else if self.admin_check(admin) is Some {
            Outcome::Refused(self.admin_check(admin).unwrap())
        } else {
            let cfg = self.config.unwrap();
            let (cfg2, event) = if which == 0 {
                (ConfigView { platform_wallet: wallet, ..cfg }, EventView::PlatformWalletUpdated(wallet))
            } else if which == 1 {
                (ConfigView { reserve_wallet: wallet, ..cfg }, EventView::ReserveWalletUpdated(wallet))
            } else {
                (ConfigView { dao_wallet: wallet, ..cfg }, EventView::DaoWalletUpdated(wallet))
            };
            Outcome::Done(
                MithaqState { config: Some(cfg2), locked: true, ..self },
                seq![ActionView::Publish(event)],
            )
        }
    }

    /// `admin_force_unlock`: the admin releases the reentrancy lock.
    pub open spec fn force_unlock_spec(self, admin: Seq<u8>) -> Outcome {
        if self.admin_check(admin) is Some {
            Outcome::Refused(self.admin_check(admin).unwrap())
        } else {
            Outcome::Done(MithaqState { locked: false, ..self }, seq![])
        }
    }
}

} // verus!
