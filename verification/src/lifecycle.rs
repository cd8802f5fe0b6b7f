//! Creating, funding, cancelling and delivering commitments.
use vstd::prelude::*;
use crate::party::Party;
use crate::tag::Tag;
use crate::bytes::{bytes_equal, copy_bytes};
use crate::types::{
    Commitment, CommitmentParams, ExtraData, LiquidityPoolState, MithaqError, Status,
};
use crate::events::{actions_view, Action, ContractAccepted, ContractCancelled, ContractCreated, DeliveryConfirmed, Event, Holder, PaymentUpdated};
use crate::rules::{
    checked_percent_of, checked_utilization, max_ltv_percent, platform_fee_percent, AUTO_RELEASE_SECONDS,
    DEFAULT_GUARANTEE_ALLOC, POOL_CONTRIBUTION_RATIO, REVIEW_PERIOD_SECONDS,
};
use crate::state::MithaqState;
use crate::contract::{answers, commitments_view, push_action, push_transfer_out, result_view, MithaqContract};

verus! {

impl MithaqContract {
    /// The payment server records a commitment between `creator` and
    /// `counterparty` on the terms of `params`; it waits for the counterparty
    /// to fund it. Returns the new commitment's id. (`create_commitment`)
    pub fn create_commitment(
        &mut self,
        creator: Party,
        counterparty: Party,
        params: CommitmentParams,
        now: u64,
    ) -> (r: Result<(u64, Vec<Action>), MithaqError>)
        requires
            old(self).wf(),
        ensures
            final(self).wf(),
            answers(
                old(self)@.create_spec(creator@, counterparty@, params@, now),
                old(self)@,
                final(self)@,
                match r {
                    Ok((_, acts)) => Ok(actions_view(acts@)),
                    Err(e) => Err(e),
                },
            ),
            r matches Ok((id, _)) ==> id == old(self)@.commitments.len() + 1,
    {
        if self.locked {
            return Err(MithaqError::ReentrancyDetected);
        }
        if self.config.is_none() {
            return Err(MithaqError::NotInitialized);
        }
        let CommitmentParams {
            original_value,
            net_value,
            down_payment,
            contract_type,
            deadline,
            pi_payment_id: _,
            first_release_amount,
            second_release_amount,
            legal_doc_hash,
        } = params;
        if net_value <= 0 {
            return Err(MithaqError::NetValueNotPositive);
        }
        if down_payment < 0 || down_payment > net_value {
            return Err(MithaqError::InvalidDownPayment);
        }
        if creator.same_as(&counterparty) {
            return Err(MithaqError::SelfDealingProhibited);
        }
        let release_sum = match first_release_amount.checked_add(second_release_amount) {
            Some(s) => s,
            None => return Err(MithaqError::ArithmeticOverflow),
        };
        if release_sum != net_value {
            return Err(MithaqError::ReleaseSumMismatch);
        }
        if first_release_amount > down_payment {
            return Err(MithaqError::FirstReleaseExceedsDownPayment);
        }
        if deadline <= now {
            return Err(MithaqError::DeadlineNotInFuture);
        }
        let rep = self.get_reputation(&creator);
        if contract_type.same_as(&Tag::reputation_lending()) {
            let max_ltv = match max_ltv_percent(rep) {
                Some(v) => v,
                None => return Err(MithaqError::ReputationTooLow),
            };
            let loan_amount = net_value - down_payment;
            let scaled = match loan_amount.checked_mul(100) {
                Some(v) => v,
                None => return Err(MithaqError::ArithmeticOverflow),
            };
            let requested_ltv = scaled / net_value;
            if requested_ltv > max_ltv {
                return Err(MithaqError::LtvExceedsLimit);
            }
        }
        let len = self.commitments.len();
        if len as u64 >= u64::MAX {
            return Err(MithaqError::ArithmeticOverflow);
        }
        let id = len as u64 + 1;
        let pool = self.get_pool(now);
        let fee = platform_fee_percent(rep, pool.pool_utilization);
        let event = Event::Created(
            ContractCreated {
                id,
                creator: creator.duplicate(),
                contract_type: contract_type.duplicate(),
                net_value,
                down_payment,
            },
        );
        let c = Commitment {
            id,
            creator,
            counterparty,
            original_value,
            net_value,
            down_payment,
            first_release_amount,
            second_release_amount,
            contract_type,
            status: Status::Pending,
            deadline,
            accepted_at: 0,
            review_deadline: 0,
            auto_release_deadline: 0,
            first_release_done: false,
            payment_status: Tag::payment_pending(),
            custom_step: 0,
            escrow_balance: 0,
            platform_fee_percent: fee,
            guarantee_reserve_alloc_percent: DEFAULT_GUARANTEE_ALLOC,
            legal_doc_hash,
            extra_data: ExtraData { proof: None, milestone: None, installment: None },
            created_at: now,
            contributes_to_pool: false,
            liquidity_contribution: 0,
        };
        let ghost cv = c@;
        self.commitments.push(c);
        self.locked = true;
        let mut acts: Vec<Action> = Vec::new();
        push_action(&mut acts, Action::Publish(event));
        proof {
            assert(commitments_view(self.commitments@) =~= commitments_view(old(self).commitments@).push(cv));
            assert(actions_view(acts@) =~= seq![actions_view(acts@)[0]]);
            assert(self@ == (MithaqState { commitments: old(self)@.commitments.push(cv), locked: true, ..old(self)@ }));
        }
        Ok((id, acts))
    }

    /// The counterparty funds commitment `id`: the down payment moves into
    /// escrow and 30% of it is counted into the liquidity pool. (`accept`)
    pub fn accept(&mut self, id: u64, funder: Party, doc_hash: &Vec<u8>, now: u64) -> (r: Result<Vec<Action>, MithaqError>)
        requires
            old(self).wf(),
        ensures
            final(self).wf(),
            answers(old(self)@.accept_spec(id, funder@, doc_hash@, now), old(self)@, final(self)@, result_view(r)),
    {
        if self.locked {
            return Err(MithaqError::ReentrancyDetected);
        }
        let i = match self.commitment_index(id) {
            Some(i) => i,
            None => return Err(MithaqError::CommitmentNotFound),
        };
        let ghost c0 = self.commitments@[i as int]@;
        if self.commitments[i].status != Status::Pending || now > self.commitments[i].deadline {
            return Err(MithaqError::InvalidState);
        }
        if !bytes_equal(&self.commitments[i].legal_doc_hash, doc_hash) || !funder.same_as(
            &self.commitments[i].counterparty,
        ) {
            return Err(MithaqError::AuthFailed);
        }
        if self.config.is_none() {
            return Err(MithaqError::NotInitialized);
        }
        let dp = self.commitments[i].down_payment;
        let total = match self.total_escrow.checked_add(dp) {
            Some(t) => t,
            None => return Err(MithaqError::ArithmeticOverflow),
        };
        let contribution = match checked_percent_of(dp, POOL_CONTRIBUTION_RATIO) {
            Some(v) => v,
            None => return Err(MithaqError::ArithmeticOverflow),
        };
        let mut new_pool = self.pool;
        if contribution > 0 {
            let pool = self.get_pool(now);
            let pooled = match pool.total_pooled.checked_add(contribution) {
                Some(v) => v,
                None => return Err(MithaqError::ArithmeticOverflow),
            };
            if pool.active_contributors == u32::MAX {
                return Err(MithaqError::ArithmeticOverflow);
            }
            let utilization = match checked_utilization(pooled, total) {
                Some(v) => v,
                None => return Err(MithaqError::ArithmeticOverflow),
            };
            new_pool = Some(
                LiquidityPoolState {
                    total_pooled: pooled,
                    active_contributors: pool.active_contributors + 1,
                    pool_utilization: utilization,
                    last_updated: now,
                    ..pool
                },
            );
        }
        let counterparty = self.commitments[i].counterparty.duplicate();
        self.commitments[i].escrow_balance = dp;
        self.commitments[i].status = Status::Active;
        self.commitments[i].accepted_at = now;
        if contribution > 0 {
            self.commitments[i].contributes_to_pool = true;
            self.commitments[i].liquidity_contribution = contribution;
        }
        self.total_escrow = total;
        self.pool = new_pool;
        self.locked = true;
        let ghost c2 = self.commitments@[i as int]@;
        let ghost f = funder@;
        let mut acts: Vec<Action> = Vec::new();
        push_action(&mut acts, Action::Transfer { from: Holder::Account(funder), to: Holder::Contract, amount: dp });
        push_action(
            &mut acts,
            Action::Publish(Event::Accepted(ContractAccepted { id, counterparty, escrowed_amount: dp })),
        );
        proof {
            assert(commitments_view(self.commitments@) =~= commitments_view(old(self).commitments@).update(i as int, c2));
            assert(actions_view(acts@) =~= seq![actions_view(acts@)[0], actions_view(acts@)[1]]);
        }
        Ok(acts)
    }

    /// A party cancels commitment `id`; once funded only by mutual consent or
    /// for force majeure. What is in escrow goes back to the counterparty and
    /// the commitment's pool contribution is withdrawn. (`cancel_commitment`)
    pub fn cancel_commitment(&mut self, id: u64, caller: Party, reason: &Tag, now: u64) -> (r: Result<Vec<Action>, MithaqError>)
        requires
            old(self).wf(),
        ensures
            final(self).wf(),
            answers(old(self)@.cancel_spec(id, caller@, reason@, now), old(self)@, final(self)@, result_view(r)),
    {
        if self.locked {
            return Err(MithaqError::ReentrancyDetected);
        }
        let i = match self.commitment_index(id) {
            Some(i) => i,
            None => return Err(MithaqError::CommitmentNotFound),
        };
        if self.commitments[i].status != Status::Pending && !reason.same_as(&Tag::mutual())
            && !reason.same_as(&Tag::force_majeure()) {
            return Err(MithaqError::ConsentRequired);
        }
        if !caller.same_as(&self.commitments[i].creator) && !caller.same_as(&self.commitments[i].counterparty) {
            return Err(MithaqError::NotAParty);
        }
        let refunded = self.commitments[i].escrow_balance;
        let contributes = self.commitments[i].contributes_to_pool;
        let total = self.total_escrow;
        let mut new_pool = self.pool;
        if contributes {
            let pool = self.get_pool(now);
            let pooled0 = match pool.total_pooled.checked_sub(self.commitments[i].liquidity_contribution) {
                Some(v) => v,
                None => return Err(MithaqError::ArithmeticOverflow),
            };
            let pooled = if pooled0 > 0 { pooled0 } else { 0 };
            let active = if pool.active_contributors > 0 { pool.active_contributors - 1 } else { 0 };
            let utilization = match checked_utilization(pooled, total) {
                Some(v) => v,
                None => return Err(MithaqError::ArithmeticOverflow),
            };
            new_pool = Some(
                LiquidityPoolState {
                    total_pooled: pooled,
                    active_contributors: active,
                    pool_utilization: utilization,
                    last_updated: now,
                    ..pool
                },
            );
        }
        let mut new_total = total;
        if refunded > 0 {
            if self.config.is_none() {
                return Err(MithaqError::NotInitialized);
            }
            new_total = match total.checked_sub(refunded) {
                Some(v) => v,
                None => return Err(MithaqError::ArithmeticOverflow),
            };
        }
        self.commitments[i].status = Status::Cancelled;
        if contributes {
            self.commitments[i].contributes_to_pool = false;
            self.commitments[i].liquidity_contribution = 0;
        }
        if refunded > 0 {
            self.commitments[i].escrow_balance = 0;
        }
        self.pool = new_pool;
        self.total_escrow = new_total;
        self.locked = true;
        let ghost c2 = self.commitments@[i as int]@;
        let mut acts: Vec<Action> = Vec::new();
        push_transfer_out(&mut acts, &self.commitments[i].counterparty, refunded);
        let ghost before = actions_view(acts@);
        push_action(
            &mut acts,
            Action::Publish(Event::Cancelled(ContractCancelled { id, by: caller, refunded })),
        );
        proof {
            assert(commitments_view(self.commitments@) =~= commitments_view(old(self).commitments@).update(i as int, c2));
            assert(actions_view(acts@) =~= before + seq![actions_view(acts@).last()]);
        }
        Ok(acts)
    }

    /// The payment server reports the payment state of commitment `id`; `CANC`
    /// cancels the commitment. (`update_payment_status`)
    pub fn update_payment_status(&mut self, id: u64, payment_status: Tag) -> (r: Result<Vec<Action>, MithaqError>)
        requires
            old(self).wf(),
        ensures
            final(self).wf(),
            answers(old(self)@.update_payment_status_spec(id, payment_status@), old(self)@, final(self)@, result_view(r)),
    {
        if self.locked {
            return Err(MithaqError::ReentrancyDetected);
        }
        if self.config.is_none() {
            return Err(MithaqError::NotInitialized);
        }
        let i = match self.commitment_index(id) {
            Some(i) => i,
            None => return Err(MithaqError::CommitmentNotFound),
        };
        let cancelled = payment_status.same_as(&Tag::payment_cancelled());
        let event_status = payment_status.duplicate();
        self.commitments[i].payment_status = payment_status;
        if cancelled {
            self.commitments[i].status = Status::Cancelled;
        }
        self.locked = true;
        let ghost c2 = self.commitments@[i as int]@;
        let mut acts: Vec<Action> = Vec::new();
        push_action(&mut acts, Action::Publish(Event::PaymentUpdated(PaymentUpdated { id, status: event_status })));
        proof {
            assert(commitments_view(self.commitments@) =~= commitments_view(old(self).commitments@).update(i as int, c2));
            assert(actions_view(acts@) =~= seq![actions_view(acts@)[0]]);
        }
        Ok(acts)
    }

    /// The counterparty confirms delivery of commitment `id`: the first release
    /// goes to the creator, the proof is recorded and the review period of 3
    /// days starts, followed by 2 days until automatic release.
    /// (`confirm_delivery`)
    pub fn confirm_delivery(&mut self, id: u64, counterparty: &Party, proof: Vec<u8>, now: u64) -> (r: Result<Vec<Action>, MithaqError>)
        requires
            old(self).wf(),
        ensures
            final(self).wf(),
            answers(old(self)@.confirm_delivery_spec(id, counterparty@, proof@, now), old(self)@, final(self)@, result_view(r)),
    {
        if self.locked {
            return Err(MithaqError::ReentrancyDetected);
        }
        let i = match self.commitment_index(id) {
            Some(i) => i,
            None => return Err(MithaqError::CommitmentNotFound),
        };
        if !counterparty.same_as(&self.commitments[i].counterparty) || self.commitments[i].status
            != Status::Active || self.commitments[i].first_release_done {
            return Err(MithaqError::InvalidCaller);
        }
        let amount = self.commitments[i].first_release_amount;
        if amount > self.commitments[i].escrow_balance {
            return Err(MithaqError::InsufficientEscrow);
        }
        if self.config.is_none() {
            return Err(MithaqError::NotInitialized);
        }
        let escrow2 = match self.commitments[i].escrow_balance.checked_sub(amount) {
            Some(v) => v,
            None => return Err(MithaqError::ArithmeticOverflow),
        };
        let total2 = match self.total_escrow.checked_sub(amount) {
            Some(v) => v,
            None => return Err(MithaqError::ArithmeticOverflow),
        };
        let review = match now.checked_add(REVIEW_PERIOD_SECONDS) {
            Some(v) => v,
            None => return Err(MithaqError::ArithmeticOverflow),
        };
        let auto = match review.checked_add(AUTO_RELEASE_SECONDS) {
            Some(v) => v,
            None => return Err(MithaqError::ArithmeticOverflow),
        };
        let proof_copy = copy_bytes(&proof);
        self.commitments[i].escrow_balance = escrow2;
        self.commitments[i].first_release_done = true;
        self.commitments[i].status = Status::AwaitingReview;
        self.commitments[i].review_deadline = review;
        self.commitments[i].auto_release_deadline = auto;
        self.commitments[i].extra_data.proof = Some(proof_copy);
        self.total_escrow = total2;
        self.locked = true;
        let ghost c2 = self.commitments@[i as int]@;
        let mut acts: Vec<Action> = Vec::new();
        push_transfer_out(&mut acts, &self.commitments[i].creator, amount);
        let ghost before = actions_view(acts@);
        push_action(
            &mut acts,
            Action::Publish(Event::Delivered(DeliveryConfirmed { id, amount, proof_hash: proof })),
        );
        proof {
            assert(commitments_view(self.commitments@) =~= commitments_view(old(self).commitments@).update(i as int, c2));
            assert(actions_view(acts@) =~= before + seq![actions_view(acts@).last()]);
        }
        Ok(acts)
    }
}

} // verus!
