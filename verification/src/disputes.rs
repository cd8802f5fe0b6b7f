//! Disputes: opened by a party, resolved by the admin.
use vstd::prelude::*;
use crate::party::Party;
use crate::tag::Tag;
use crate::types::{Dispute, DisputeStatus, MithaqError, Status};
use crate::events::{actions_view, Action, DisputeOpened, DisputeResolved, Event, Imprint};
use crate::rules::{checked_percent_of, penalty_terms, REWARD_POINTS};
use crate::contract::{
    answers, commitments_view, disputes_view, push_action, push_fee_distribution, push_forfeiture,
    push_transfer_out, result_view, MithaqContract,
};

verus! {

impl MithaqContract {
    /// A party freezes commitment `id`, active or awaiting review, and opens a
    /// dispute against the other party. Returns the dispute's id.
    /// (`open_dispute`)
    pub fn open_dispute(&mut self, id: u64, caller: Party, reason: Vec<u8>, now: u64) -> (r: Result<(u64, Vec<Action>), MithaqError>)
        requires
            old(self).wf(),
        ensures
            final(self).wf(),
            answers(
                old(self)@.open_dispute_spec(id, caller@, reason@, now),
                old(self)@,
                final(self)@,
                match r {
                    Ok((_, acts)) => Ok(actions_view(acts@)),
                    Err(e) => Err(e),
                },
            ),
            r matches Ok((dispute_id, _)) ==> dispute_id == old(self)@.disputes.len() + 1,
    {
        if self.locked {
            return Err(MithaqError::ReentrancyDetected);
        }
        let i = match self.commitment_index(id) {
            Some(i) => i,
            None => return Err(MithaqError::CommitmentNotFound),
        };
        let is_creator = caller.same_as(&self.commitments[i].creator);
        if !is_creator && !caller.same_as(&self.commitments[i].counterparty) {
            return Err(MithaqError::NoStanding);
        }
        if self.commitments[i].status != Status::AwaitingReview && self.commitments[i].status != Status::Active {
            return Err(MithaqError::IneligibleState);
        }
        let len = self.disputes.len();
        if len as u64 >= u64::MAX {
            return Err(MithaqError::ArithmeticOverflow);
        }
        let dispute_id = len as u64 + 1;
        let defendant = if is_creator {
            self.commitments[i].counterparty.duplicate()
        } else {
            self.commitments[i].creator.duplicate()
        };
        self.commitments[i].status = Status::Disputed;
        let ghost c2 = self.commitments@[i as int]@;
        let d = Dispute {
            id: dispute_id,
            contract_id: id,
            plaintiff: caller.duplicate(),
            defendant,
            status: DisputeStatus::Open,
            penalty: Tag::penalty_pending(),
            opened_at: now,
            resolved_at: 0,
        };
        let ghost dv = d@;
        self.disputes.push(d);
        self.locked = true;
        let mut acts: Vec<Action> = Vec::new();
        push_action(
            &mut acts,
            Action::Publish(Event::DisputeOpened(DisputeOpened { dispute_id, contract_id: id, by: caller, reason })),
        );
        proof {
            assert(commitments_view(self.commitments@) =~= commitments_view(old(self).commitments@).update(i as int, c2));
            assert(disputes_view(self.disputes@) =~= disputes_view(old(self).disputes@).push(dv));
            assert(actions_view(acts@) =~= seq![actions_view(acts@)[0]]);
        }
        Ok((dispute_id, acts))
    }

    /// The admin resolves open dispute `dispute_id` for `winner`. The loser
    /// loses 10, 5 or 2 reputation points for `FRAU`, `BREA` or any other
    /// penalty and the winner gains 2; 50%, 20% or 0% of the escrow is
    /// forfeited and split between the platform, the reserve and the DAO; the
    /// rest goes to the winner less the platform fee. (`resolve_dispute`)
    pub fn resolve_dispute(
        &mut self,
        dispute_id: u64,
        winner: Party,
        verdict_text: Vec<u8>,
        penalty_type: Tag,
        now: u64,
    ) -> (r: Result<Vec<Action>, MithaqError>)
        requires
            old(self).wf(),
        ensures
            final(self).wf(),
            answers(
                old(self)@.resolve_dispute_spec(dispute_id, winner@, verdict_text@, penalty_type@, now),
                old(self)@,
                final(self)@,
                result_view(r),
            ),
    {
        if self.locked {
            return Err(MithaqError::ReentrancyDetected);
        }
        if self.config.is_none() {
            return Err(MithaqError::NotInitialized);
        }
        let di = match self.dispute_index(dispute_id) {
            Some(i) => i,
            None => return Err(MithaqError::DisputeNotFound),
        };
        if self.disputes[di].status != DisputeStatus::Open {
            return Err(MithaqError::CaseClosed);
        }
        let ci = match self.commitment_index(self.disputes[di].contract_id) {
            Some(i) => i,
            None => return Err(MithaqError::CommitmentNotFound),
        };
        let ghost cid_spec = self.disputes@[di as int].contract_id;
        let creator = self.commitments[ci].creator.duplicate();
        let counterparty = self.commitments[ci].counterparty.duplicate();
        let winner_is_creator = winner.same_as(&creator);
        if !winner_is_creator && !winner.same_as(&counterparty) {
            return Err(MithaqError::WinnerNotAParty);
        }
        let (points, forfeiture_percent) = penalty_terms(&penalty_type);
        let loser = if winner_is_creator { counterparty.duplicate() } else { creator.duplicate() };
        let (va, vb) = match self.plan_reputation_twice(&loser, points, &winner, REWARD_POINTS) {
            Some(v) => v,
            None => return Err(MithaqError::ArithmeticOverflow),
        };
        let balance = self.commitments[ci].escrow_balance;
        let forfeiture = match checked_percent_of(balance, forfeiture_percent) {
            Some(v) => v,
            None => return Err(MithaqError::ArithmeticOverflow),
        };
        let remaining = match balance.checked_sub(forfeiture) {
            Some(v) => v,
            None => return Err(MithaqError::ArithmeticOverflow),
        };
        let fees = match checked_percent_of(remaining, self.commitments[ci].platform_fee_percent) {
            Some(v) => v,
            None => return Err(MithaqError::ArithmeticOverflow),
        };
        let payout = match remaining.checked_sub(fees) {
            Some(v) => v,
            None => return Err(MithaqError::ArithmeticOverflow),
        };
        if forfeiture > 0 && (forfeiture.checked_mul(50).is_none() || forfeiture.checked_mul(40).is_none()) {
            return Err(MithaqError::ArithmeticOverflow);
        }
        let total2 = match self.total_escrow.checked_sub(balance) {
            Some(v) => v,
            None => return Err(MithaqError::ArithmeticOverflow),
        };
        let cid = self.commitments[ci].id;
        let alloc = self.commitments[ci].guarantee_reserve_alloc_percent;
        self.disputes[di].status = DisputeStatus::Arbitrated;
        self.disputes[di].penalty = penalty_type;
        self.disputes[di].resolved_at = now;
        self.commitments[ci].status = Status::Completed;
        self.commitments[ci].escrow_balance = 0;
        let ghost c2 = self.commitments@[ci as int]@;
        let ghost d2 = self.disputes@[di as int]@;
        proof {
            assert(commitments_view(self.commitments@) =~= commitments_view(old(self).commitments@).update(ci as int, c2));
            assert(disputes_view(self.disputes@) =~= disputes_view(old(self).disputes@).update(di as int, d2));
        }
        self.apply_reputation_twice(&loser, va, &winner, vb);
        self.total_escrow = total2;
        self.locked = true;
        let ghost spec_out = old(self)@.resolve_dispute_spec(dispute_id, winner@, verdict_text@, penalty_type@, now);
        assert(spec_out matches crate::state::Outcome::Done(st, _) && self@ == st);
        let mut acts: Vec<Action> = Vec::new();
        push_action(
            &mut acts,
            Action::IssueCertificate {
                commitment_id: cid,
                creator,
                counterparty,
                imprint: Imprint::DisputeResolved,
            },
        );
        assert(actions_view(acts@) =~= seq![actions_view(acts@)[0]]);
        match &self.config {
            Some(cfg) => push_forfeiture(&mut acts, forfeiture, cfg),
            None => {},
        }
        push_fee_distribution(&mut acts, fees, alloc);
        push_transfer_out(&mut acts, &winner, payout);
        let ghost before = actions_view(acts@);
        push_action(
            &mut acts,
            Action::Publish(
                Event::DisputeResolved(DisputeResolved { dispute_id, winner, verdict: verdict_text, payout }),
            ),
        );
        proof {
            assert(actions_view(acts@) =~= before + seq![actions_view(acts@).last()]);
        }
        Ok(acts)
    }
}

} // verus!
