//! Paying a commitment in parts: construction milestones out of escrow and
//! tuition installments through the contract.
use vstd::prelude::*;
use crate::party::Party;
use crate::tag::Tag;
use crate::types::{MithaqError, Status};
use crate::events::{actions_view, Action, Event, Holder, InstallmentPaid, MilestoneReleased};
use crate::rules::{checked_percent_of, MAX_INSTALLMENTS, MAX_MILESTONES, REWARD_POINTS};
use crate::contract::{
    answers, commitments_view, push_action, push_fee_distribution, push_transfer_out, result_view,
    MithaqContract,
};

verus! {

impl MithaqContract {
    /// The counterparty of construction commitment `id` releases milestone
    /// `milestone` (1 to 10, each later than the last released): a tenth of the
    /// down payment leaves escrow, the platform fee is distributed and the rest
    /// goes to the creator. Milestone 10 completes the commitment and gives both
    /// parties 2 reputation points. (`release_milestone`)
    pub fn release_milestone(&mut self, id: u64, caller: &Party, milestone: u32) -> (r: Result<Vec<Action>, MithaqError>)
        requires
            old(self).wf(),
        ensures
            final(self).wf(),
            answers(old(self)@.release_milestone_spec(id, caller@, milestone), old(self)@, final(self)@, result_view(r)),
    {
        if self.locked {
            return Err(MithaqError::ReentrancyDetected);
        }
        let i = match self.commitment_index(id) {
            Some(i) => i,
            None => return Err(MithaqError::CommitmentNotFound),
        };
        if !self.commitments[i].contract_type.same_as(&Tag::construction()) {
            return Err(MithaqError::NotConstruction);
        }
        if !caller.same_as(&self.commitments[i].counterparty) {
            return Err(MithaqError::OnlyCounterparty);
        }
        if self.commitments[i].status != Status::Active && self.commitments[i].status != Status::AwaitingReview {
            return Err(MithaqError::ContractFrozen);
        }
        if milestone > MAX_MILESTONES {
            return Err(MithaqError::MilestoneOutOfRange);
        }
        let current: u32 = match self.commitments[i].extra_data.milestone {
            Some(m) => m,
            None => 0,
        };
        if milestone <= current {
            return Err(MithaqError::DoubleSpending);
        }
        let per = self.commitments[i].down_payment / (MAX_MILESTONES as i128);
        let fee = match checked_percent_of(per, self.commitments[i].platform_fee_percent) {
            Some(v) => v,
            None => return Err(MithaqError::ArithmeticOverflow),
        };
        let net = match per.checked_sub(fee) {
            Some(v) => v,
            None => return Err(MithaqError::ArithmeticOverflow),
        };
        if self.config.is_none() {
            return Err(MithaqError::NotInitialized);
        }
        let escrow2 = match self.commitments[i].escrow_balance.checked_sub(per) {
            Some(v) => v,
            None => return Err(MithaqError::ArithmeticOverflow),
        };
        let total2 = match self.total_escrow.checked_sub(per) {
            Some(v) => v,
            None => return Err(MithaqError::ArithmeticOverflow),
        };
        let complete = milestone >= MAX_MILESTONES;
        let creator = self.commitments[i].creator.duplicate();
        let counterparty = self.commitments[i].counterparty.duplicate();
        let mut planned: (i128, i128) = (0, 0);
        if complete {
            planned = match self.plan_reputation_twice(&creator, REWARD_POINTS, &counterparty, REWARD_POINTS) {
                Some(v) => v,
                None => return Err(MithaqError::ArithmeticOverflow),
            };
        }
        let alloc = self.commitments[i].guarantee_reserve_alloc_percent;
        self.commitments[i].extra_data.milestone = Some(milestone);
        self.commitments[i].escrow_balance = escrow2;
        if complete {
            self.commitments[i].status = Status::Completed;
        }
        let ghost c2 = self.commitments@[i as int]@;
        proof {
            assert(commitments_view(self.commitments@) =~= commitments_view(old(self).commitments@).update(i as int, c2));
        }
        if complete {
            self.apply_reputation_twice(&creator, planned.0, &counterparty, planned.1);
        }
        self.total_escrow = total2;
        self.locked = true;
        let ghost spec_out = old(self)@.release_milestone_spec(id, caller@, milestone);
        assert(spec_out matches crate::state::Outcome::Done(st, _) && self@ == st);
        let mut acts: Vec<Action> = Vec::new();
        push_fee_distribution(&mut acts, fee, alloc);
        push_transfer_out(&mut acts, &creator, net);
        let ghost before = actions_view(acts@);
        push_action(
            &mut acts,
            Action::Publish(Event::MilestoneReleased(MilestoneReleased { id, milestone, amount: net })),
        );
        proof {
            assert(actions_view(acts@) =~= before + seq![actions_view(acts@).last()]);
        }
        Ok(acts)
    }

    /// The counterparty of tuition commitment `id` pays installment
    /// `installment` (1 to 9, each later than the last paid): a ninth of the
    /// down payment comes into the contract, the platform fee is distributed
    /// and the rest goes to the creator. Installment 9 completes the commitment
    /// and gives both parties 2 reputation points. (`pay_installment`)
    pub fn pay_installment(&mut self, id: u64, caller: Party, installment: u32) -> (r: Result<Vec<Action>, MithaqError>)
        requires
            old(self).wf(),
        ensures
            final(self).wf(),
            answers(old(self)@.pay_installment_spec(id, caller@, installment), old(self)@, final(self)@, result_view(r)),
    {
        if self.locked {
            return Err(MithaqError::ReentrancyDetected);
        }
        let i = match self.commitment_index(id) {
            Some(i) => i,
            None => return Err(MithaqError::CommitmentNotFound),
        };
        if !self.commitments[i].contract_type.same_as(&Tag::tuition()) {
            return Err(MithaqError::NotTuition);
        }
        if !caller.same_as(&self.commitments[i].counterparty) {
            return Err(MithaqError::UnauthorizedPayer);
        }
        if self.commitments[i].status != Status::Active {
            return Err(MithaqError::NotInGoodStanding);
        }
        if installment > MAX_INSTALLMENTS {
            return Err(MithaqError::InstallmentOutOfRange);
        }
        let current: u32 = match self.commitments[i].extra_data.installment {
            Some(m) => m,
            None => 0,
        };
        if installment <= current {
            return Err(MithaqError::InstallmentCleared);
        }
        let per = self.commitments[i].down_payment / (MAX_INSTALLMENTS as i128);
        let fee = match checked_percent_of(per, self.commitments[i].platform_fee_percent) {
            Some(v) => v,
            None => return Err(MithaqError::ArithmeticOverflow),
        };
        let net = match per.checked_sub(fee) {
            Some(v) => v,
            None => return Err(MithaqError::ArithmeticOverflow),
        };
        if self.config.is_none() {
            return Err(MithaqError::NotInitialized);
        }
        let complete = installment >= MAX_INSTALLMENTS;
        let creator = self.commitments[i].creator.duplicate();
        let counterparty = self.commitments[i].counterparty.duplicate();
        let mut planned: (i128, i128) = (0, 0);
        if complete {
            planned = match self.plan_reputation_twice(&creator, REWARD_POINTS, &counterparty, REWARD_POINTS) {
                Some(v) => v,
                None => return Err(MithaqError::ArithmeticOverflow),
            };
        }
        let alloc = self.commitments[i].guarantee_reserve_alloc_percent;
        self.commitments[i].extra_data.installment = Some(installment);
        if complete {
            self.commitments[i].status = Status::Completed;
        }
        let ghost c2 = self.commitments@[i as int]@;
        proof {
            assert(commitments_view(self.commitments@) =~= commitments_view(old(self).commitments@).update(i as int, c2));
        }
        if complete {
            self.apply_reputation_twice(&creator, planned.0, &counterparty, planned.1);
        }
        self.locked = true;
        let ghost spec_out = old(self)@.pay_installment_spec(id, caller@, installment);
        assert(spec_out matches crate::state::Outcome::Done(st, _) && self@ == st);
        let mut acts: Vec<Action> = Vec::new();
        push_action(&mut acts, Action::Transfer { from: Holder::Account(caller), to: Holder::Contract, amount: per });
        assert(actions_view(acts@) =~= seq![actions_view(acts@)[0]]);
        push_fee_distribution(&mut acts, fee, alloc);
        push_transfer_out(&mut acts, &creator, net);
        let ghost before = actions_view(acts@);
        push_action(
            &mut acts,
            Action::Publish(Event::InstallmentPaid(InstallmentPaid { id, installment, amount: net })),
        );
        proof {
            assert(actions_view(acts@) =~= before + seq![actions_view(acts@).last()]);
        }
        Ok(acts)
    }
}

} // verus!
