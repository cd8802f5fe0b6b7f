//! Settling a delivered commitment: after the counterparty's review, or
//! automatically once the review period has run out.
use vstd::prelude::*;
use crate::party::Party;
use crate::types::{MithaqError, Status};
use crate::events::{actions_view, Action, AutoReleased, ContractCompleted, Event, Imprint};
use crate::rules::{checked_percent_of, NEGLECT_POINTS, REWARD_POINTS};
use crate::contract::{
    answers, commitments_view, push_action, push_fee_distribution, push_transfer_out, result_view,
    MithaqContract,
};

verus! {

impl MithaqContract {
    /// Pays out the escrow of the commitment at index `i` (id `id`) to its
    /// creator, less the platform fee, and completes it.
    fn settle(&mut self, i: usize, id: u64, review: bool) -> (r: Result<Vec<Action>, MithaqError>)
        requires
            old(self).wf(),
            old(self)@.has_commitment(id),
            i == id - 1,
        ensures
            final(self).wf(),
            answers(old(self)@.settle_spec(id, review), old(self)@, final(self)@, result_view(r)),
    {
        let balance = self.commitments[i].escrow_balance;
        let fees = match checked_percent_of(balance, self.commitments[i].platform_fee_percent) {
            Some(v) => v,
            None => return Err(MithaqError::ArithmeticOverflow),
        };
        let payout = match balance.checked_sub(fees) {
            Some(v) => v,
            None => return Err(MithaqError::ArithmeticOverflow),
        };
        let creator = self.commitments[i].creator.duplicate();
        let counterparty = self.commitments[i].counterparty.duplicate();
        let plan = if review {
            self.plan_reputation_twice(&creator, REWARD_POINTS, &counterparty, REWARD_POINTS)
        } else {
            self.plan_reputation_twice(&counterparty, NEGLECT_POINTS, &creator, REWARD_POINTS)
        };
        let (va, vb) = match plan {
            Some(v) => v,
            None => return Err(MithaqError::ArithmeticOverflow),
        };
        if self.config.is_none() {
            return Err(MithaqError::NotInitialized);
        }
        let total2 = match self.total_escrow.checked_sub(balance) {
            Some(v) => v,
            None => return Err(MithaqError::ArithmeticOverflow),
        };
        let cid = self.commitments[i].id;
        let alloc = self.commitments[i].guarantee_reserve_alloc_percent;
        self.commitments[i].escrow_balance = 0;
        self.commitments[i].status = if review { Status::Completed } else { Status::AutoReleased };
        let ghost c2 = self.commitments@[i as int]@;
        proof {
            assert(commitments_view(self.commitments@) =~= commitments_view(old(self).commitments@).update(i as int, c2));
        }
        if review {
            self.apply_reputation_twice(&creator, va, &counterparty, vb);
        } else {
            self.apply_reputation_twice(&counterparty, va, &creator, vb);
        }
        self.total_escrow = total2;
        self.locked = true;
        let ghost spec_out = old(self)@.settle_spec(id, review);
        assert(spec_out matches crate::state::Outcome::Done(st, _) && self@ == st);
        let mut acts: Vec<Action> = Vec::new();
        push_action(
            &mut acts,
            Action::IssueCertificate {
                commitment_id: cid,
                creator: creator.duplicate(),
                counterparty,
                imprint: if review { Imprint::Verified } else { Imprint::AutoVerified },
            },
        );
        assert(actions_view(acts@) =~= seq![actions_view(acts@)[0]]);
        push_fee_distribution(&mut acts, fees, alloc);
        push_transfer_out(&mut acts, &creator, payout);
        let ghost before = actions_view(acts@);
        let event = if review {
            Event::Completed(ContractCompleted { id, final_payout: payout, fees_paid: fees })
        } else {
            Event::AutoReleased(AutoReleased { id, payout })
        };
        push_action(&mut acts, Action::Publish(event));
        proof {
            assert(actions_view(acts@) =~= before + seq![actions_view(acts@).last()]);
        }
        Ok(acts)
    }

    /// The counterparty accepts the delivery of commitment `id`: the escrow goes
    /// to the creator less the platform fee, both parties gain 2 reputation
    /// points and a certificate is issued. (`confirm_review`)
    pub fn confirm_review(&mut self, id: u64, counterparty: &Party) -> (r: Result<Vec<Action>, MithaqError>)
        requires
            old(self).wf(),
        ensures
            final(self).wf(),
            answers(old(self)@.confirm_review_spec(id, counterparty@), old(self)@, final(self)@, result_view(r)),
    {
        if self.locked {
            return Err(MithaqError::ReentrancyDetected);
        }
        let i = match self.commitment_index(id) {
            Some(i) => i,
            None => return Err(MithaqError::CommitmentNotFound),
        };
        if !counterparty.same_as(&self.commitments[i].counterparty) || self.commitments[i].status
            != Status::AwaitingReview {
            return Err(MithaqError::InvalidCaller);
        }
        self.settle(i, id, true)
    }

    /// Once the auto-release deadline of commitment `id` has passed, the escrow
    /// goes to the creator less the platform fee; the creator gains 2 reputation
    /// points, the silent counterparty loses 2. (`auto_release`)
    pub fn auto_release(&mut self, id: u64, now: u64) -> (r: Result<Vec<Action>, MithaqError>)
        requires
            old(self).wf(),
        ensures
            final(self).wf(),
            answers(old(self)@.auto_release_spec(id, now), old(self)@, final(self)@, result_view(r)),
    {
        if self.locked {
            return Err(MithaqError::ReentrancyDetected);
        }
        let i = match self.commitment_index(id) {
            Some(i) => i,
            None => return Err(MithaqError::CommitmentNotFound),
        };
        if self.commitments[i].status != Status::AwaitingReview || now < self.commitments[i].auto_release_deadline {
            return Err(MithaqError::NotReady);
        }
        self.settle(i, id, false)
    }
}

} // verus!
