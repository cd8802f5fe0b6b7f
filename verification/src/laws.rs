//! What holds of the contract across its entry points: the invariant every
//! entry point keeps, the reentrancy lock, and what one call means for the
//! next.
use vstd::prelude::*;
use crate::types::{CommitmentParamsView, CommitmentView, ConfigView, MithaqError, Status};
use crate::state::{add_reputation, add_reputation_twice, fee_distribution, forfeiture_actions, transfer_out, MithaqState, Outcome};
use crate::events::ActionView;
use crate::rules::{
    forfeiture_dao_share, forfeiture_platform_share, forfeiture_reserve_share,
    lemma_forfeiture_shares_bounded, max_ltv_percent_spec, percent_of, platform_fee_percent_spec,
};

verus! {

/// A call of one entry point, with its arguments as plain values.
pub enum Call {
    Initialize { config: ConfigView, now: u64 },
    CreateCommitment { creator: Seq<u8>, counterparty: Seq<u8>, params: CommitmentParamsView, now: u64 },
    Accept { id: u64, funder: Seq<u8>, doc_hash: Seq<u8>, now: u64 },
    CancelCommitment { id: u64, caller: Seq<u8>, reason: Seq<u8>, now: u64 },
    UpdatePaymentStatus { id: u64, status: Seq<u8> },
    ConfirmDelivery { id: u64, counterparty: Seq<u8>, proof: Seq<u8>, now: u64 },
    ConfirmReview { id: u64, counterparty: Seq<u8> },
    AutoRelease { id: u64, now: u64 },
    OpenDispute { id: u64, caller: Seq<u8>, reason: Seq<u8>, now: u64 },
    ResolveDispute { dispute_id: u64, winner: Seq<u8>, verdict: Seq<u8>, penalty: Seq<u8>, now: u64 },
    ReleaseMilestone { id: u64, caller: Seq<u8>, milestone: u32 },
    PayInstallment { id: u64, caller: Seq<u8>, installment: u32 },
    UpdateWallet { which: int, admin: Seq<u8>, wallet: Seq<u8> },
    AdminForceUnlock { admin: Seq<u8> },
    ReleaseLock,
}

/// What `call` does to `s`.
pub open spec fn step(s: MithaqState, call: Call) -> Outcome {
    match call {
        Call::Initialize { config, now } => s.initialize_spec(config, now),
        Call::CreateCommitment { creator, counterparty, params, now } => s.create_spec(creator, counterparty, params, now),
        Call::Accept { id, funder, doc_hash, now } => s.accept_spec(id, funder, doc_hash, now),
        Call::CancelCommitment { id, caller, reason, now } => s.cancel_spec(id, caller, reason, now),
        Call::UpdatePaymentStatus { id, status } => s.update_payment_status_spec(id, status),
        Call::ConfirmDelivery { id, counterparty, proof, now } => s.confirm_delivery_spec(id, counterparty, proof, now),
        Call::ConfirmReview { id, counterparty } => s.confirm_review_spec(id, counterparty),
        Call::AutoRelease { id, now } => s.auto_release_spec(id, now),
        Call::OpenDispute { id, caller, reason, now } => s.open_dispute_spec(id, caller, reason, now),
        Call::ResolveDispute { dispute_id, winner, verdict, penalty, now } => s.resolve_dispute_spec(
            dispute_id,
            winner,
            verdict,
            penalty,
            now,
        ),
        Call::ReleaseMilestone { id, caller, milestone } => s.release_milestone_spec(id, caller, milestone),
        Call::PayInstallment { id, caller, installment } => s.pay_installment_spec(id, caller, installment),
        Call::UpdateWallet { which, admin, wallet } => s.update_wallet_spec(which, admin, wallet),
        Call::AdminForceUnlock { admin } => s.force_unlock_spec(admin),
        Call::ReleaseLock => Outcome::Done(MithaqState { locked: false, ..s }, seq![]),
    }
}

/// The entry points that take the reentrancy lock.
pub open spec fn is_guarded(call: Call) -> bool {
    !(call is Initialize || call is AdminForceUnlock || call is ReleaseLock)
}

/// The sum of the escrow balances of `cs`.
pub open spec fn escrow_sum(cs: Seq<CommitmentView>) -> int
    decreases cs.len(),
{
    if cs.len() == 0 {
        0
    } else {
        escrow_sum(cs.drop_last()) + cs.last().escrow_balance
    }
}

/// What every reachable state satisfies.
pub open spec fn inv(s: MithaqState) -> bool {
    &&& s.total_escrow == escrow_sum(s.commitments)
    &&& forall|i: int| 0 <= i < s.commitments.len() ==> #[trigger] s.commitments[i].id == i + 1
    &&& forall|i: int|
        0 <= i < s.commitments.len() && #[trigger] s.commitments[i].status == Status::Pending
            ==> s.commitments[i].escrow_balance == 0
    &&& forall|i: int|
        0 <= i < s.commitments.len() ==> 0 <= #[trigger] s.commitments[i].platform_fee_percent <= 9
    &&& forall|i: int| 0 <= i < s.commitments.len() ==> 0 <= #[trigger] s.commitments[i].down_payment
    &&& forall|j: int| 0 <= j < s.disputes.len() ==> #[trigger] s.disputes[j].id == j + 1
    &&& forall|j: int|
        0 <= j < s.disputes.len() ==> 1 <= #[trigger] s.disputes[j].contract_id <= s.commitments.len()
    &&& forall|k: Seq<u8>| #[trigger] s.reputation.contains_key(k) ==> s.reputation[k] >= 0
    &&& s.commitments.len() > 0 ==> s.config is Some
    &&& s.config is Some ==> s.pool is Some
    &&& s.pool matches Some(p) ==> p.total_pooled >= 0
    &&& forall|i: int|
        0 <= i < s.commitments.len() ==> #[trigger] s.commitments[i].creator != s.commitments[i].counterparty
}

pub proof fn lemma_escrow_sum_update(cs: Seq<CommitmentView>, i: int, c: CommitmentView)
    requires
        0 <= i < cs.len(),
    ensures
        escrow_sum(cs.update(i, c)) == escrow_sum(cs) - cs[i].escrow_balance + c.escrow_balance,
    decreases cs.len(),
{
    let t = cs.update(i, c);
    if i == cs.len() - 1 {
        assert(t.drop_last() =~= cs.drop_last());
    } else {
        assert(t.drop_last() =~= cs.drop_last().update(i, c));
        lemma_escrow_sum_update(cs.drop_last(), i, c);
    }
}

pub proof fn lemma_escrow_sum_push(cs: Seq<CommitmentView>, c: CommitmentView)
    ensures
        escrow_sum(cs.push(c)) == escrow_sum(cs) + c.escrow_balance,
{
    assert(cs.push(c).drop_last() =~= cs);
}

pub proof fn lemma_add_reputation_nonneg(m: Map<Seq<u8>, i128>, p: Seq<u8>, points: int)
    requires
        forall|k: Seq<u8>| #[trigger] m.contains_key(k) ==> m[k] >= 0,
        add_reputation(m, p, points) is Some,
    ensures
        forall|k: Seq<u8>| #[trigger] add_reputation(m, p, points).unwrap().contains_key(k)
            ==> add_reputation(m, p, points).unwrap()[k] >= 0,
{
}

pub proof fn lemma_add_reputation_twice_nonneg(m: Map<Seq<u8>, i128>, a: Seq<u8>, pa: int, b: Seq<u8>, pb: int)
    requires
        forall|k: Seq<u8>| #[trigger] m.contains_key(k) ==> m[k] >= 0,
        add_reputation_twice(m, a, pa, b, pb) is Some,
    ensures
        forall|k: Seq<u8>| #[trigger] add_reputation_twice(m, a, pa, b, pb).unwrap().contains_key(k)
            ==> add_reputation_twice(m, a, pa, b, pb).unwrap()[k] >= 0,
{
    lemma_add_reputation_nonneg(m, a, pa);
    lemma_add_reputation_nonneg(add_reputation(m, a, pa).unwrap(), b, pb);
}

/// Replacing one commitment keeps the invariant's part about commitments
/// when the replacement keeps the id and the fee, holds no escrow while
/// pending, and the recorded escrow moves by the change of its balance.
pub proof fn lemma_inv_replace_commitment(s: MithaqState, s2: MithaqState, idx: int, c2: CommitmentView)
    requires
        inv(s),
        0 <= idx < s.commitments.len(),
        s2.commitments == s.commitments.update(idx, c2),
        c2.id == s.commitments[idx].id,
        c2.platform_fee_percent == s.commitments[idx].platform_fee_percent,
        c2.down_payment == s.commitments[idx].down_payment,
        c2.creator == s.commitments[idx].creator,
        c2.counterparty == s.commitments[idx].counterparty,
        c2.status == Status::Pending ==> c2.escrow_balance == 0,
        s2.total_escrow == s.total_escrow - s.commitments[idx].escrow_balance + c2.escrow_balance,
        s2.disputes == s.disputes,
        forall|k: Seq<u8>| #[trigger] s2.reputation.contains_key(k) ==> s2.reputation[k] >= 0,
        s2.config == s.config,
        s2.pool matches Some(p) ==> p.total_pooled >= 0,
        s.pool is Some ==> s2.pool is Some,
    ensures
        inv(s2),
{
    lemma_escrow_sum_update(s.commitments, idx, c2);
    assert forall|i: int| 0 <= i < s2.commitments.len() implies #[trigger] s2.commitments[i].id == i + 1 by {
        if i != idx {
            assert(s2.commitments[i] == s.commitments[i]);
        }
    }
    assert forall|i: int|
        0 <= i < s2.commitments.len() && #[trigger] s2.commitments[i].status == Status::Pending
            implies s2.commitments[i].escrow_balance == 0 by {
        if i != idx {
            assert(s2.commitments[i] == s.commitments[i]);
        }
    }
    assert forall|i: int| 0 <= i < s2.commitments.len() implies 0 <= #[trigger] s2.commitments[i].platform_fee_percent <= 9 by {
        if i != idx {
            assert(s2.commitments[i] == s.commitments[i]);
        }
    }
    assert forall|i: int| 0 <= i < s2.commitments.len() implies #[trigger] s2.commitments[i].creator != s2.commitments[i].counterparty by {
        if i != idx {
            assert(s2.commitments[i] == s.commitments[i]);
        }
    }
    assert forall|i: int| 0 <= i < s2.commitments.len() implies 0 <= #[trigger] s2.commitments[i].down_payment by {
        if i != idx {
            assert(s2.commitments[i] == s.commitments[i]);
        }
    }
}

proof fn lemma_inv_create(s: MithaqState, creator: Seq<u8>, counterparty: Seq<u8>, params: CommitmentParamsView, now: u64)
    requires
        inv(s),
    ensures
        s.create_spec(creator, counterparty, params, now) matches Outcome::Done(s2, _) ==> inv(s2),
{
    if let Outcome::Done(s2, _) = s.create_spec(creator, counterparty, params, now) {
        let c = s2.commitments.last();
        assert(s2.commitments == s.commitments.push(c));
        lemma_escrow_sum_push(s.commitments, c);
        assert forall|i: int| 0 <= i < s2.commitments.len() implies #[trigger] s2.commitments[i].id == i + 1 by {
            if i < s.commitments.len() {
                assert(s2.commitments[i] == s.commitments[i]);
            }
        }
        assert forall|i: int|
            0 <= i < s2.commitments.len() && #[trigger] s2.commitments[i].status == Status::Pending
                implies s2.commitments[i].escrow_balance == 0 by {
            if i < s.commitments.len() {
                assert(s2.commitments[i] == s.commitments[i]);
            }
        }
        assert forall|i: int| 0 <= i < s2.commitments.len() implies 0 <= #[trigger] s2.commitments[i].platform_fee_percent <= 9 by {
            if i < s.commitments.len() {
                assert(s2.commitments[i] == s.commitments[i]);
            }
        }
        assert forall|i: int| 0 <= i < s2.commitments.len() implies #[trigger] s2.commitments[i].creator != s2.commitments[i].counterparty by {
            if i < s.commitments.len() {
                assert(s2.commitments[i] == s.commitments[i]);
            }
        }
        assert forall|i: int| 0 <= i < s2.commitments.len() implies 0 <= #[trigger] s2.commitments[i].down_payment by {
            if i < s.commitments.len() {
                assert(s2.commitments[i] == s.commitments[i]);
            }
        }
    }
}

proof fn lemma_inv_accept(s: MithaqState, id: u64, funder: Seq<u8>, doc_hash: Seq<u8>, now: u64)
    requires
        inv(s),
    ensures
        s.accept_spec(id, funder, doc_hash, now) matches Outcome::Done(s2, _) ==> inv(s2),
{
    if let Outcome::Done(s2, _) = s.accept_spec(id, funder, doc_hash, now) {
        lemma_inv_replace_commitment(s, s2, id - 1, s2.commitments[id - 1]);
    }
}

proof fn lemma_inv_cancel(s: MithaqState, id: u64, caller: Seq<u8>, reason: Seq<u8>, now: u64)
    requires
        inv(s),
    ensures
        s.cancel_spec(id, caller, reason, now) matches Outcome::Done(s2, _) ==> inv(s2),
{
    if let Outcome::Done(s2, _) = s.cancel_spec(id, caller, reason, now) {
        lemma_inv_replace_commitment(s, s2, id - 1, s2.commitments[id - 1]);
    }
}

proof fn lemma_inv_payment_status(s: MithaqState, id: u64, status: Seq<u8>)
    requires
        inv(s),
    ensures
        s.update_payment_status_spec(id, status) matches Outcome::Done(s2, _) ==> inv(s2),
{
    if let Outcome::Done(s2, _) = s.update_payment_status_spec(id, status) {
        lemma_inv_replace_commitment(s, s2, id - 1, s2.commitments[id - 1]);
    }
}

proof fn lemma_inv_delivery(s: MithaqState, id: u64, counterparty: Seq<u8>, proof: Seq<u8>, now: u64)
    requires
        inv(s),
    ensures
        s.confirm_delivery_spec(id, counterparty, proof, now) matches Outcome::Done(s2, _) ==> inv(s2),
{
    if let Outcome::Done(s2, _) = s.confirm_delivery_spec(id, counterparty, proof, now) {
        lemma_inv_replace_commitment(s, s2, id - 1, s2.commitments[id - 1]);
    }
}

proof fn lemma_inv_settle(s: MithaqState, id: u64, review: bool)
    requires
        inv(s),
        s.has_commitment(id),
    ensures
        s.settle_spec(id, review) matches Outcome::Done(s2, _) ==> inv(s2),
{
    if let Outcome::Done(s2, _) = s.settle_spec(id, review) {
        let c = s.commitment(id);
        if review {
            lemma_add_reputation_twice_nonneg(s.reputation, c.creator, 2, c.counterparty, 2);
        } else {
            lemma_add_reputation_twice_nonneg(s.reputation, c.counterparty, -2, c.creator, 2);
        }
        lemma_inv_replace_commitment(s, s2, id - 1, s2.commitments[id - 1]);
    }
}

proof fn lemma_inv_open_dispute(s: MithaqState, id: u64, caller: Seq<u8>, reason: Seq<u8>, now: u64)
    requires
        inv(s),
    ensures
        s.open_dispute_spec(id, caller, reason, now) matches Outcome::Done(s2, _) ==> inv(s2),
{
    if let Outcome::Done(s2, _) = s.open_dispute_spec(id, caller, reason, now) {
        let s1 = MithaqState { commitments: s2.commitments, ..s };
        lemma_inv_replace_commitment(s, s1, id - 1, s2.commitments[id - 1]);
        assert(s2.disputes.drop_last() == s.disputes);
        assert forall|j: int| 0 <= j < s2.disputes.len() implies #[trigger] s2.disputes[j].id == j + 1 by {
            if j < s.disputes.len() {
                assert(s2.disputes[j] == s.disputes[j]);
            }
        }
        assert forall|j: int| 0 <= j < s2.disputes.len() implies 1 <= #[trigger] s2.disputes[j].contract_id
            <= s2.commitments.len() by {
            if j < s.disputes.len() {
                assert(s2.disputes[j] == s.disputes[j]);
            }
        }
    }
}

proof fn lemma_inv_resolve(s: MithaqState, dispute_id: u64, winner: Seq<u8>, verdict: Seq<u8>, penalty: Seq<u8>, now: u64)
    requires
        inv(s),
    ensures
        s.resolve_dispute_spec(dispute_id, winner, verdict, penalty, now) matches Outcome::Done(s2, _) ==> inv(s2),
{
    if let Outcome::Done(s2, _) = s.resolve_dispute_spec(dispute_id, winner, verdict, penalty, now) {
        let d = s.dispute(dispute_id);
        let c = s.commitment(d.contract_id);
        let loser = if winner == c.creator { c.counterparty } else { c.creator };
        lemma_add_reputation_twice_nonneg(s.reputation, loser, crate::rules::penalty_points_spec(penalty), winner, 2);
        let s1 = MithaqState { disputes: s.disputes, ..s2 };
        lemma_inv_replace_commitment(s, s1, d.contract_id - 1, s2.commitments[d.contract_id - 1]);
        assert forall|j: int| 0 <= j < s2.disputes.len() implies #[trigger] s2.disputes[j].id == j + 1 by {
            if j != dispute_id - 1 {
                assert(s2.disputes[j] == s.disputes[j]);
            }
        }
        assert forall|j: int| 0 <= j < s2.disputes.len() implies 1 <= #[trigger] s2.disputes[j].contract_id
            <= s2.commitments.len() by {
            if j != dispute_id - 1 {
                assert(s2.disputes[j] == s.disputes[j]);
            }
        }
    }
}

proof fn lemma_inv_milestone(s: MithaqState, id: u64, caller: Seq<u8>, milestone: u32)
    requires
        inv(s),
    ensures
        s.release_milestone_spec(id, caller, milestone) matches Outcome::Done(s2, _) ==> inv(s2),
{
    if let Outcome::Done(s2, _) = s.release_milestone_spec(id, caller, milestone) {
        let c = s.commitment(id);
        if milestone >= 10 {
            lemma_add_reputation_twice_nonneg(s.reputation, c.creator, 2, c.counterparty, 2);
        }
        lemma_inv_replace_commitment(s, s2, id - 1, s2.commitments[id - 1]);
    }
}

proof fn lemma_inv_installment(s: MithaqState, id: u64, caller: Seq<u8>, installment: u32)
    requires
        inv(s),
    ensures
        s.pay_installment_spec(id, caller, installment) matches Outcome::Done(s2, _) ==> inv(s2),
{
    if let Outcome::Done(s2, _) = s.pay_installment_spec(id, caller, installment) {
        let c = s.commitment(id);
        if installment >= 9 {
            lemma_add_reputation_twice_nonneg(s.reputation, c.creator, 2, c.counterparty, 2);
        }
        lemma_inv_replace_commitment(s, s2, id - 1, s2.commitments[id - 1]);
    }
}

/// The state before `initialize` satisfies the invariant.
pub proof fn law_initial_state_satisfies_invariant()
    ensures
        inv(MithaqState::empty()),
{
}

/// Every entry point keeps the invariant: the recorded escrow is the sum of
/// the commitments' escrow balances, ids run from 1 without gaps, a pending
/// commitment holds no escrow, fees stay between 0% and 9%, down payments are not negative, every dispute
/// names an existing commitment, no reputation is negative, no commitment binds
/// a party to itself, and commitments exist only once the contract is
/// initialized.
pub proof fn law_entry_points_keep_invariant(s: MithaqState, call: Call)
    requires
        inv(s),
    ensures
        step(s, call) matches Outcome::Done(s2, _) ==> inv(s2),
{
    match call {
        Call::Initialize { config, now } => {},
        Call::CreateCommitment { creator, counterparty, params, now } => lemma_inv_create(s, creator, counterparty, params, now),
        Call::Accept { id, funder, doc_hash, now } => lemma_inv_accept(s, id, funder, doc_hash, now),
        Call::CancelCommitment { id, caller, reason, now } => lemma_inv_cancel(s, id, caller, reason, now),
        Call::UpdatePaymentStatus { id, status } => lemma_inv_payment_status(s, id, status),
        Call::ConfirmDelivery { id, counterparty, proof, now } => lemma_inv_delivery(s, id, counterparty, proof, now),
        Call::ConfirmReview { id, counterparty } => {
            if s.has_commitment(id) {
                lemma_inv_settle(s, id, true);
            }
        },
        Call::AutoRelease { id, now } => {
            if s.has_commitment(id) {
                lemma_inv_settle(s, id, false);
            }
        },
        Call::OpenDispute { id, caller, reason, now } => lemma_inv_open_dispute(s, id, caller, reason, now),
        Call::ResolveDispute { dispute_id, winner, verdict, penalty, now } => lemma_inv_resolve(s, dispute_id, winner, verdict, penalty, now),
        Call::ReleaseMilestone { id, caller, milestone } => lemma_inv_milestone(s, id, caller, milestone),
        Call::PayInstallment { id, caller, installment } => lemma_inv_installment(s, id, caller, installment),
        Call::UpdateWallet { which, admin, wallet } => {},
        Call::AdminForceUnlock { admin } => {},
        Call::ReleaseLock => {},
    }
}

/// `s` with the reentrancy lock released, as `release_lock` leaves it.
pub open spec fn unlocked(s: MithaqState) -> MithaqState {
    MithaqState { locked: false, ..s }
}

/// While the lock is held, every entry point that takes it is refused with
/// `ReentrancyDetected`, which leaves the state as it was.
pub proof fn law_lock_refuses_reentry(s: MithaqState, call: Call)
    requires
        s.locked,
        is_guarded(call),
    ensures
        step(s, call) == Outcome::Refused(MithaqError::ReentrancyDetected),
{
}

/// An entry point that takes the lock still holds it when it succeeds, until
/// `release_lock`; `release_lock`, `admin_force_unlock` and `initialize` leave
/// it released.
pub proof fn law_success_holds_lock(s: MithaqState, call: Call)
    ensures
        step(s, call) matches Outcome::Done(s2, _) ==> (is_guarded(call) ==> s2.locked) && (!is_guarded(call)
            ==> !s2.locked),
{
}

/// What a commitment is created with and never changes.
pub open spec fn same_terms(a: CommitmentView, b: CommitmentView) -> bool {
    &&& a.id == b.id
    &&& a.creator == b.creator
    &&& a.counterparty == b.counterparty
    &&& a.original_value == b.original_value
    &&& a.net_value == b.net_value
    &&& a.down_payment == b.down_payment
    &&& a.first_release_amount == b.first_release_amount
    &&& a.second_release_amount == b.second_release_amount
    &&& a.contract_type == b.contract_type
    &&& a.deadline == b.deadline
    &&& a.platform_fee_percent == b.platform_fee_percent
    &&& a.guarantee_reserve_alloc_percent == b.guarantee_reserve_alloc_percent
    &&& a.legal_doc_hash == b.legal_doc_hash
    &&& a.created_at == b.created_at
}

proof fn lemma_terms_kept_by_replace(cs: Seq<CommitmentView>, idx: int, c2: CommitmentView)
    requires
        0 <= idx < cs.len(),
        same_terms(cs[idx], c2),
    ensures
        forall|i: int| 0 <= i < cs.len() ==> same_terms(#[trigger] cs[i], cs.update(idx, c2)[i]),
{
}

/// No entry point removes a commitment or changes the terms it was created
/// with: its parties, amounts, type, deadline, fee, document hash and
/// creation time.
pub proof fn law_terms_never_change(s: MithaqState, call: Call)
    ensures
        step(s, call) matches Outcome::Done(s2, _) ==> s2.commitments.len() >= s.commitments.len() && forall|i: int|
            0 <= i < s.commitments.len() ==> same_terms(#[trigger] s.commitments[i], s2.commitments[i]),
{
    match call {
        Call::CreateCommitment { creator, counterparty, params, now } => {
            if let Outcome::Done(s2, _) = step(s, call) {
                assert forall|i: int| 0 <= i < s.commitments.len() implies same_terms(#[trigger] s.commitments[i], s2.commitments[i]) by {
                    assert(s2.commitments[i] == s.commitments[i]);
                }
            }
        },
        Call::OpenDispute { id, caller, reason, now } => {
            if let Outcome::Done(s2, _) = step(s, call) {
                lemma_terms_kept_by_replace(s.commitments, id - 1, s2.commitments[id - 1]);
            }
        },
        Call::ResolveDispute { dispute_id, winner, verdict, penalty, now } => {
            if let Outcome::Done(s2, _) = step(s, call) {
                let cid = s.dispute(dispute_id).contract_id;
                lemma_terms_kept_by_replace(s.commitments, cid - 1, s2.commitments[cid - 1]);
            }
        },
        Call::Accept { id, .. } | Call::CancelCommitment { id, .. } | Call::UpdatePaymentStatus { id, .. }
        | Call::ConfirmDelivery { id, .. } | Call::ConfirmReview { id, .. } | Call::AutoRelease { id, .. }
        | Call::ReleaseMilestone { id, .. } | Call::PayInstallment { id, .. } => {
            if let Outcome::Done(s2, _) = step(s, call) {
                lemma_terms_kept_by_replace(s.commitments, id - 1, s2.commitments[id - 1]);
            }
        },
        _ => {},
    }
}

/// A commitment reads back as it was created: under the next id, pending,
/// with nothing in escrow, the given parties and terms, and the platform fee
/// that the creator's reputation and the pool's utilization gave.
pub proof fn law_created_commitment_reads_back(
    s: MithaqState,
    creator: Seq<u8>,
    counterparty: Seq<u8>,
    params: CommitmentParamsView,
    now: u64,
)
    ensures
        s.create_spec(creator, counterparty, params, now) matches Outcome::Done(s2, _) ==> {
            let id = (s.commitments.len() + 1) as u64;
            &&& s2.has_commitment(id)
            &&& s2.commitment(id) == crate::state::new_commitment(
                id,
                creator,
                counterparty,
                params,
                platform_fee_percent_spec(
                    s.reputation_of(creator),
                    s.pool_or_default(now).pool_utilization as int,
                ) as i128,
                now,
            )
            &&& s2.commitment(id).status == Status::Pending
            &&& s2.commitment(id).escrow_balance == 0
        },
{
}

/// A loan against reputation is granted only to a reputation of at least 80
/// and only up to its tier's loan-to-value ratio (95%, 75% or 50%).
pub proof fn law_credit_within_tier(
    s: MithaqState,
    creator: Seq<u8>,
    counterparty: Seq<u8>,
    params: CommitmentParamsView,
    now: u64,
)
    ensures
        s.create_spec(creator, counterparty, params, now) is Done && params.contract_type
            == crate::tag::reputation_lending_text() ==> {
            &&& s.reputation_of(creator) >= 80
            &&& crate::rules::quot((params.net_value - params.down_payment) * 100, params.net_value as int)
                <= crate::rules::max_ltv_percent_spec(s.reputation_of(creator)).unwrap()
        },
{
}

/// A commitment is funded at most once: after `accept` succeeds, accepting
/// it again is refused as `InvalidState`.
pub proof fn law_commitment_funded_once(
    s: MithaqState,
    id: u64,
    funder: Seq<u8>,
    doc_hash: Seq<u8>,
    now: u64,
    funder2: Seq<u8>,
    doc_hash2: Seq<u8>,
    now2: u64,
)
    ensures
        s.accept_spec(id, funder, doc_hash, now) matches Outcome::Done(s2, _) ==> unlocked(s2).accept_spec(
            id,
            funder2,
            doc_hash2,
            now2,
        ) == Outcome::Refused(MithaqError::InvalidState),
{
}

/// Funding feeds the pool: 30% of the down payment, when positive, is added
/// to the pooled total and recorded on the commitment, the pool gains a
/// contributor and its utilization is recomputed against the new escrow total.
pub proof fn law_accept_feeds_pool(s: MithaqState, id: u64, funder: Seq<u8>, doc_hash: Seq<u8>, now: u64)
    ensures
        s.accept_spec(id, funder, doc_hash, now) matches Outcome::Done(s2, _) ==> {
            let dp = s.commitment(id).down_payment as int;
            let contribution = crate::rules::percent_of(dp, 30);
            let old_pool = s.pool_or_default(now);
            &&& s2.total_escrow == s.total_escrow + dp
            &&& s2.commitment(id).escrow_balance == dp
            &&& contribution > 0 ==> (s2.pool matches Some(p) && p.total_pooled == old_pool.total_pooled + contribution
                && p.active_contributors == old_pool.active_contributors + 1 && p.pool_utilization
                == crate::rules::utilization_bps(p.total_pooled as int, s2.total_escrow as int)
                && s2.commitment(id).liquidity_contribution == contribution)
            &&& contribution <= 0 ==> s2.pool == s.pool
        },
{
}

/// Cancelling returns what is in escrow to the counterparty: a positive
/// balance is transferred to the counterparty first and leaves the escrow
/// total; the commitment ends cancelled.
pub proof fn law_cancel_refunds_escrow(s: MithaqState, id: u64, caller: Seq<u8>, reason: Seq<u8>, now: u64)
    ensures
        s.cancel_spec(id, caller, reason, now) matches Outcome::Done(s2, acts) ==> {
            let c = s.commitment(id);
            &&& s2.commitment(id).status == Status::Cancelled
            &&& c.escrow_balance > 0 ==> s2.commitment(id).escrow_balance == 0 && s2.total_escrow
                == s.total_escrow - c.escrow_balance && acts[0] == crate::events::ActionView::Transfer {
                from: crate::events::HolderView::Contract,
                to: crate::events::HolderView::Account(c.counterparty),
                amount: c.escrow_balance,
            }
        },
{
}

/// A milestone is released at most once: after milestone `m` is released, no
/// milestone up to `m` can be released again; before the last milestone the
/// refusal is `DoubleSpending`.
pub proof fn law_milestone_released_once(s: MithaqState, id: u64, caller: Seq<u8>, m: u32, caller2: Seq<u8>, m2: u32)
    requires
        m2 <= m,
    ensures
        s.release_milestone_spec(id, caller, m) matches Outcome::Done(s2, _) ==> {
            &&& unlocked(s2).release_milestone_spec(id, caller2, m2) is Refused
            &&& m < 10 && caller2 == caller ==> unlocked(s2).release_milestone_spec(id, caller2, m2)
                == Outcome::Refused(MithaqError::DoubleSpending)
        },
{
}

/// An installment is paid at most once: after installment `n` is paid, no
/// installment up to `n` can be paid again; before the last installment the
/// refusal is `InstallmentCleared`.
pub proof fn law_installment_paid_once(s: MithaqState, id: u64, caller: Seq<u8>, n: u32, caller2: Seq<u8>, n2: u32)
    requires
        n2 <= n,
    ensures
        s.pay_installment_spec(id, caller, n) matches Outcome::Done(s2, _) ==> {
            &&& unlocked(s2).pay_installment_spec(id, caller2, n2) is Refused
            &&& n < 9 && caller2 == caller ==> unlocked(s2).pay_installment_spec(id, caller2, n2)
                == Outcome::Refused(MithaqError::InstallmentCleared)
        },
{
}

/// A dispute is resolved at most once: once resolved, resolving it again is
/// refused as `CaseClosed`.
pub proof fn law_dispute_resolved_once(
    s: MithaqState,
    dispute_id: u64,
    winner: Seq<u8>,
    verdict: Seq<u8>,
    penalty: Seq<u8>,
    now: u64,
    winner2: Seq<u8>,
    verdict2: Seq<u8>,
    penalty2: Seq<u8>,
    now2: u64,
)
    ensures
        s.resolve_dispute_spec(dispute_id, winner, verdict, penalty, now) matches Outcome::Done(s2, _)
            ==> unlocked(s2).resolve_dispute_spec(dispute_id, winner2, verdict2, penalty2, now2)
            == Outcome::Refused(MithaqError::CaseClosed),
{
}

/// The contract is initialized at most once.
pub proof fn law_initialized_once(s: MithaqState, config: ConfigView, now: u64, config2: ConfigView, now2: u64)
    ensures
        s.initialize_spec(config, now) matches Outcome::Done(s2, _) ==> s2.initialize_spec(config2, now2)
            == Outcome::Refused(MithaqError::AlreadyInitialized),
{
}

/// Delivery is confirmed at most once: after it, confirming again is refused
/// as `InvalidCaller`.
pub proof fn law_delivery_confirmed_once(
    s: MithaqState,
    id: u64,
    counterparty: Seq<u8>,
    proof: Seq<u8>,
    now: u64,
    proof2: Seq<u8>,
    now2: u64,
)
    ensures
        s.confirm_delivery_spec(id, counterparty, proof, now) matches Outcome::Done(s2, _) ==> unlocked(
            s2,
        ).confirm_delivery_spec(id, counterparty, proof2, now2) == Outcome::Refused(MithaqError::InvalidCaller),
{
}

/// The platform fee lies between 0% and 9%; a higher reputation never pays a
/// higher fee, nor does a higher pool utilization.
pub proof fn law_platform_fee_bounded_and_monotone(rep1: int, rep2: int, util1: int, util2: int)
    ensures
        0 <= platform_fee_percent_spec(rep1, util1) <= 9,
        rep1 <= rep2 ==> platform_fee_percent_spec(rep2, util1) <= platform_fee_percent_spec(rep1, util1),
        util1 <= util2 ==> platform_fee_percent_spec(rep1, util2) <= platform_fee_percent_spec(rep1, util1),
{
}

/// A higher reputation never has a lower loan-to-value tier, and no tier
/// exceeds 95%.
pub proof fn law_ltv_tiers_monotone(rep1: int, rep2: int)
    ensures
        max_ltv_percent_spec(rep1) matches Some(t) ==> 50 <= t <= 95,
        rep1 <= rep2 && max_ltv_percent_spec(rep1) is Some ==> max_ltv_percent_spec(rep2) is Some
            && max_ltv_percent_spec(rep1).unwrap() <= max_ltv_percent_spec(rep2).unwrap(),
{
}

/// A forfeiture is split without loss: the platform's 50%, the reserve's 40%
/// and the DAO's rest are not negative and add up to the amount, and the DAO
/// receives at least a tenth of it.
pub proof fn law_forfeiture_split_conserves(amount: int)
    requires
        amount > 0,
    ensures
        forfeiture_platform_share(amount) >= 0,
        forfeiture_reserve_share(amount) >= 0,
        forfeiture_dao_share(amount) >= amount / 10,
        forfeiture_platform_share(amount) + forfeiture_reserve_share(amount) + forfeiture_dao_share(amount)
            == amount,
{
    lemma_forfeiture_shares_bounded(amount);
    assert(forfeiture_platform_share(amount) == (amount * 50) / 100);
    assert(forfeiture_reserve_share(amount) == (amount * 40) / 100);
    assert((amount * 50) / 100 + (amount * 40) / 100 <= amount - amount / 10) by (nonlinear_arith)
        requires amount > 0;
}

/// A share of a non-negative escrow never exceeds it: for a percent from 0 to
/// 100 the share and what remains are both non-negative and add up to the
/// balance.
pub proof fn law_share_within_balance(balance: int, percent: int)
    requires
        balance >= 0,
        0 <= percent <= 100,
    ensures
        0 <= percent_of(balance, percent) <= balance,
        percent_of(balance, percent) + (balance - percent_of(balance, percent)) == balance,
{
    assert(0 <= balance * percent <= balance * 100) by (nonlinear_arith)
        requires balance >= 0, 0 <= percent <= 100;
    assert((balance * percent) / 100 <= balance) by (nonlinear_arith)
        requires 0 <= balance * percent <= balance * 100;
}

/// What an action takes out of the contract's account: a transfer from the
/// contract or a fee distribution; a transfer into the contract counts
/// negatively.
pub open spec fn action_outflow(a: ActionView) -> int {
    match a {
        ActionView::Transfer { from, to, amount } => {
            (if from is Contract {
                amount as int
            } else {
                0
            }) - (if to is Contract {
                amount as int
            } else {
                0
            })
        },
        ActionView::DistributeFees { fees, .. } => fees as int,
        _ => 0,
    }
}

/// What a list of actions takes out of the contract's account, net.
pub open spec fn outflow(acts: Seq<ActionView>) -> int
    decreases acts.len(),
{
    if acts.len() == 0 {
        0
    } else {
        outflow(acts.drop_last()) + action_outflow(acts.last())
    }
}

pub proof fn lemma_outflow_concat(a: Seq<ActionView>, b: Seq<ActionView>)
    ensures
        outflow(a + b) == outflow(a) + outflow(b),
    decreases b.len(),
{
    if b.len() == 0 {
        assert(a + b =~= a);
    } else {
        assert((a + b).drop_last() =~= a + b.drop_last());
        lemma_outflow_concat(a, b.drop_last());
    }
}

pub proof fn lemma_outflow_single(x: ActionView)
    ensures
        outflow(seq![x]) == action_outflow(x),
{
    assert(seq![x].drop_last() =~= Seq::<ActionView>::empty());
    assert(outflow(Seq::<ActionView>::empty()) == 0);
    assert(seq![x].last() == x);
}

pub proof fn lemma_outflow_transfer_out(to: Seq<u8>, amount: int)
    requires
        crate::rules::fits(amount),
    ensures
        outflow(transfer_out(to, amount)) == if amount > 0 { amount } else { 0 },
{
    if amount > 0 {
        lemma_outflow_single(transfer_out(to, amount)[0]);
        assert(transfer_out(to, amount) =~= seq![transfer_out(to, amount)[0]]);
    }
}

pub proof fn lemma_outflow_fee_distribution(fees: int, alloc: i128)
    requires
        crate::rules::fits(fees),
    ensures
        outflow(fee_distribution(fees, alloc)) == if fees > 0 { fees } else { 0 },
{
    if fees > 0 {
        lemma_outflow_single(fee_distribution(fees, alloc)[0]);
        assert(fee_distribution(fees, alloc) =~= seq![fee_distribution(fees, alloc)[0]]);
    }
}

pub proof fn lemma_outflow_forfeiture(amount: int, config: ConfigView)
    requires
        crate::rules::fits(amount),
    ensures
        outflow(forfeiture_actions(amount, config)) == if amount > 0 { amount } else { 0 },
{
    if amount > 0 {
        let p = forfeiture_platform_share(amount);
        let r = forfeiture_reserve_share(amount);
        let d = forfeiture_dao_share(amount);
        law_forfeiture_split_conserves(amount);
        let a1 = transfer_out(config.platform_wallet, p);
        let a2 = transfer_out(config.reserve_wallet, r);
        let a3 = transfer_out(config.dao_wallet, d);
        let a4 = seq![forfeiture_actions(amount, config).last()];
        assert(forfeiture_actions(amount, config) =~= a1 + a2 + a3 + a4);
        lemma_outflow_transfer_out(config.platform_wallet, p);
        lemma_outflow_transfer_out(config.reserve_wallet, r);
        lemma_outflow_transfer_out(config.dao_wallet, d);
        lemma_outflow_single(forfeiture_actions(amount, config).last());
        lemma_outflow_concat(a1, a2);
        lemma_outflow_concat(a1 + a2, a3);
        lemma_outflow_concat(a1 + a2 + a3, a4);
    }
}

/// Every commitment holds a non-negative escrow and a non-negative first
/// release.
pub open spec fn balances_non_negative(s: MithaqState) -> bool {
    forall|i: int|
        0 <= i < s.commitments.len() ==> 0 <= #[trigger] s.commitments[i].escrow_balance && 0
            <= s.commitments[i].first_release_amount
}

proof fn lemma_settle_outflow(s: MithaqState, id: u64, review: bool)
    requires
        inv(s),
        balances_non_negative(s),
        s.has_commitment(id),
    ensures
        s.settle_spec(id, review) matches Outcome::Done(s2, acts) ==> outflow(acts) == s.total_escrow - s2.total_escrow,
{
    if let Outcome::Done(s2, acts) = s.settle_spec(id, review) {
        let c = s.commitment(id);
        let balance = c.escrow_balance as int;
        let pct = c.platform_fee_percent as int;
        let fees = percent_of(balance, pct);
        let payout = balance - fees;
        assert(0 <= balance && 0 <= pct <= 9);
        law_share_within_balance(balance, pct);
        let a1 = seq![acts[0]];
        let a2 = fee_distribution(fees, c.guarantee_reserve_alloc_percent);
        let a3 = transfer_out(c.creator, payout);
        let a4 = seq![acts.last()];
        assert(acts =~= a1 + a2 + a3 + a4);
        lemma_outflow_single(acts[0]);
        lemma_outflow_single(acts.last());
        lemma_outflow_fee_distribution(fees, c.guarantee_reserve_alloc_percent);
        lemma_outflow_transfer_out(c.creator, payout);
        lemma_outflow_concat(a1, a2);
        lemma_outflow_concat(a1 + a2, a3);
        lemma_outflow_concat(a1 + a2 + a3, a4);
    }
}

proof fn lemma_resolve_outflow(s: MithaqState, dispute_id: u64, winner: Seq<u8>, verdict: Seq<u8>, penalty: Seq<u8>, now: u64)
    requires
        inv(s),
        balances_non_negative(s),
    ensures
        s.resolve_dispute_spec(dispute_id, winner, verdict, penalty, now) matches Outcome::Done(s2, acts)
            ==> outflow(acts) == s.total_escrow - s2.total_escrow,
{
    if let Outcome::Done(s2, acts) = s.resolve_dispute_spec(dispute_id, winner, verdict, penalty, now) {
        let d = s.dispute(dispute_id);
        let c = s.commitment(d.contract_id);
        let balance = c.escrow_balance as int;
        let fp = crate::rules::forfeiture_percent_spec(penalty);
        let forfeiture = percent_of(balance, fp);
        let remaining = balance - forfeiture;
        let pct = c.platform_fee_percent as int;
        let fees = percent_of(remaining, pct);
        let payout = remaining - fees;
        assert(0 <= balance && 0 <= pct <= 9 && 0 <= fp <= 100);
        law_share_within_balance(balance, fp);
        law_share_within_balance(remaining, pct);
        let cfg = s.config.unwrap();
        let a1 = seq![acts[0]];
        let a2 = forfeiture_actions(forfeiture, cfg);
        let a3 = fee_distribution(fees, c.guarantee_reserve_alloc_percent);
        let a4 = transfer_out(winner, payout);
        let a5 = seq![acts.last()];
        assert(acts =~= a1 + a2 + a3 + a4 + a5);
        lemma_outflow_single(acts[0]);
        lemma_outflow_single(acts.last());
        lemma_outflow_forfeiture(forfeiture, cfg);
        lemma_outflow_fee_distribution(fees, c.guarantee_reserve_alloc_percent);
        lemma_outflow_transfer_out(winner, payout);
        lemma_outflow_concat(a1, a2);
        lemma_outflow_concat(a1 + a2, a3);
        lemma_outflow_concat(a1 + a2 + a3, a4);
        lemma_outflow_concat(a1 + a2 + a3 + a4, a5);
    }
}

proof fn lemma_milestone_outflow(s: MithaqState, id: u64, caller: Seq<u8>, milestone: u32)
    requires
        inv(s),
    ensures
        s.release_milestone_spec(id, caller, milestone) matches Outcome::Done(s2, acts) ==> outflow(acts)
            == s.total_escrow - s2.total_escrow,
{
    if let Outcome::Done(s2, acts) = s.release_milestone_spec(id, caller, milestone) {
        let c = s.commitment(id);
        let per = crate::rules::quot(c.down_payment as int, 10);
        let pct = c.platform_fee_percent as int;
        let fee = percent_of(per, pct);
        let net = per - fee;
        assert(0 <= per);
        law_share_within_balance(per, pct);
        let a1 = fee_distribution(fee, c.guarantee_reserve_alloc_percent);
        let a2 = transfer_out(c.creator, net);
        let a3 = seq![acts.last()];
        assert(acts =~= a1 + a2 + a3);
        lemma_outflow_single(acts.last());
        lemma_outflow_fee_distribution(fee, c.guarantee_reserve_alloc_percent);
        lemma_outflow_transfer_out(c.creator, net);
        lemma_outflow_concat(a1, a2);
        lemma_outflow_concat(a1 + a2, a3);
    }
}

proof fn lemma_installment_outflow(s: MithaqState, id: u64, caller: Seq<u8>, installment: u32)
    requires
        inv(s),
    ensures
        s.pay_installment_spec(id, caller, installment) matches Outcome::Done(s2, acts) ==> outflow(acts)
            == s.total_escrow - s2.total_escrow,
{
    if let Outcome::Done(s2, acts) = s.pay_installment_spec(id, caller, installment) {
        let c = s.commitment(id);
        let per = crate::rules::quot(c.down_payment as int, 9);
        let pct = c.platform_fee_percent as int;
        let fee = percent_of(per, pct);
        let net = per - fee;
        assert(0 <= per);
        law_share_within_balance(per, pct);
        let a1 = seq![acts[0]];
        let a2 = fee_distribution(fee, c.guarantee_reserve_alloc_percent);
        let a3 = transfer_out(c.creator, net);
        let a4 = seq![acts.last()];
        assert(acts =~= a1 + a2 + a3 + a4);
        lemma_outflow_single(acts[0]);
        lemma_outflow_single(acts.last());
        lemma_outflow_fee_distribution(fee, c.guarantee_reserve_alloc_percent);
        lemma_outflow_transfer_out(c.creator, net);
        lemma_outflow_concat(a1, a2);
        lemma_outflow_concat(a1 + a2, a3);
        lemma_outflow_concat(a1 + a2 + a3, a4);
    }
}

/// What the contract pays out is what leaves the recorded escrow: for every
/// entry point, the tokens that its actions move out of the contract's account
/// (transfers from it and fee distributions, less transfers into it) equal the
/// decrease of the escrow total, as long as no commitment holds a negative
/// escrow or a negative first release.
pub proof fn law_payments_match_escrow(s: MithaqState, call: Call)
    requires
        inv(s),
        balances_non_negative(s),
    ensures
        step(s, call) matches Outcome::Done(s2, acts) ==> outflow(acts) == s.total_escrow - s2.total_escrow,
{
    match call {
        Call::CreateCommitment { creator, counterparty, params, now } => {
            if let Outcome::Done(s2, acts) = step(s, call) {
                lemma_outflow_single(acts[0]);
                assert(acts =~= seq![acts[0]]);
            }
        },
        Call::Accept { id, funder, doc_hash, now } => {
            if let Outcome::Done(s2, acts) = step(s, call) {
                lemma_outflow_single(acts[0]);
                lemma_outflow_single(acts[1]);
                assert(acts =~= seq![acts[0]] + seq![acts[1]]);
                lemma_outflow_concat(seq![acts[0]], seq![acts[1]]);
            }
        },
        Call::CancelCommitment { id, caller, reason, now } => {
            if let Outcome::Done(s2, acts) = step(s, call) {
                let c = s.commitment(id);
                let a1 = transfer_out(c.counterparty, c.escrow_balance as int);
                let a2 = seq![acts.last()];
                assert(acts =~= a1 + a2);
                lemma_outflow_transfer_out(c.counterparty, c.escrow_balance as int);
                lemma_outflow_single(acts.last());
                lemma_outflow_concat(a1, a2);
            }
        },
        Call::UpdatePaymentStatus { id, status } => {
            if let Outcome::Done(s2, acts) = step(s, call) {
                lemma_outflow_single(acts[0]);
                assert(acts =~= seq![acts[0]]);
            }
        },
        Call::ConfirmDelivery { id, counterparty, proof, now } => {
            if let Outcome::Done(s2, acts) = step(s, call) {
                let c = s.commitment(id);
                let a1 = transfer_out(c.creator, c.first_release_amount as int);
                let a2 = seq![acts.last()];
                assert(acts =~= a1 + a2);
                lemma_outflow_transfer_out(c.creator, c.first_release_amount as int);
                lemma_outflow_single(acts.last());
                lemma_outflow_concat(a1, a2);
            }
        },
        Call::ConfirmReview { id, counterparty } => {
            if s.has_commitment(id) {
                lemma_settle_outflow(s, id, true);
            }
        },
        Call::AutoRelease { id, now } => {
            if s.has_commitment(id) {
                lemma_settle_outflow(s, id, false);
            }
        },
        Call::OpenDispute { id, caller, reason, now } => {
            if let Outcome::Done(s2, acts) = step(s, call) {
                lemma_outflow_single(acts[0]);
                assert(acts =~= seq![acts[0]]);
            }
        },
        Call::ResolveDispute { dispute_id, winner, verdict, penalty, now } => lemma_resolve_outflow(
            s,
            dispute_id,
            winner,
            verdict,
            penalty,
            now,
        ),
        Call::ReleaseMilestone { id, caller, milestone } => lemma_milestone_outflow(s, id, caller, milestone),
        Call::PayInstallment { id, caller, installment } => lemma_installment_outflow(s, id, caller, installment),
        Call::UpdateWallet { which, admin, wallet } => {
            if let Outcome::Done(s2, acts) = step(s, call) {
                lemma_outflow_single(acts[0]);
                assert(acts =~= seq![acts[0]]);
            }
        },
        _ => {},
    }
}

/// After delivery is confirmed, the escrow cannot be released automatically
/// before the 3-day review period and the 2 days after it have passed.
pub proof fn law_auto_release_waits_five_days(
    s: MithaqState,
    id: u64,
    counterparty: Seq<u8>,
    proof: Seq<u8>,
    now: u64,
    later: u64,
)
    requires
        later < now + crate::rules::REVIEW_PERIOD_SECONDS + crate::rules::AUTO_RELEASE_SECONDS,
    ensures
        s.confirm_delivery_spec(id, counterparty, proof, now) is Done ==> unlocked(
            match s.confirm_delivery_spec(id, counterparty, proof, now) {
                Outcome::Done(s2, _) => s2,
                Outcome::Refused(_) => s,
            },
        ).auto_release_spec(id, later) == Outcome::Refused(MithaqError::NotReady),
{
}

/// Only the recorded admin changes a wallet, and a change touches nothing
/// but that wallet.
pub proof fn law_only_admin_changes_wallets(s: MithaqState, which: int, admin: Seq<u8>, wallet: Seq<u8>)
    ensures
        s.update_wallet_spec(which, admin, wallet) matches Outcome::Done(s2, _) ==> {
            &&& s.config is Some && admin == s.config.unwrap().admin
            &&& s2.config.unwrap().admin == s.config.unwrap().admin
            &&& s2.commitments == s.commitments && s2.disputes == s.disputes && s2.reputation == s.reputation
            &&& s2.total_escrow == s.total_escrow && s2.pool == s.pool
        },
{
}

/// Only a party to a commitment can cancel it or open a dispute over it, and
/// only its counterparty can fund it, confirm its delivery or accept it.
pub proof fn law_only_parties_act(s: MithaqState, id: u64, who: Seq<u8>, text: Seq<u8>, now: u64)
    ensures
        s.cancel_spec(id, who, text, now) is Done ==> who == s.commitment(id).creator || who == s.commitment(
            id,
        ).counterparty,
        s.open_dispute_spec(id, who, text, now) is Done ==> who == s.commitment(id).creator || who
            == s.commitment(id).counterparty,
        s.accept_spec(id, who, text, now) is Done ==> who == s.commitment(id).counterparty,
        s.confirm_delivery_spec(id, who, text, now) is Done ==> who == s.commitment(id).counterparty,
        s.confirm_review_spec(id, who) is Done ==> who == s.commitment(id).counterparty,
{
}

/// The reputation points a penalty costs, by its text: 10 for `FRAU`, 5 for
/// `BREA`, 2 for anything else.
pub open spec fn penalty_cost(penalty: Seq<u8>) -> int {
    if penalty == crate::tag::fraud_text() {
        10
    } else if penalty == crate::tag::breach_text() {
        5
    } else {
        2
    }
}

/// Resolving a dispute penalizes the party that lost and rewards the winner,
/// whoever opened the dispute: the winner is a party of the commitment and
/// gains 2 points; the other party loses the penalty's cost (never going
/// below 0); nobody else's reputation changes.
pub proof fn law_resolve_penalizes_loser_rewards_winner(
    s: MithaqState,
    dispute_id: u64,
    winner: Seq<u8>,
    verdict: Seq<u8>,
    penalty: Seq<u8>,
    now: u64,
)
    requires
        inv(s),
    ensures
        s.resolve_dispute_spec(dispute_id, winner, verdict, penalty, now) matches Outcome::Done(s2, _) ==> {
            let c = s.commitment(s.dispute(dispute_id).contract_id);
            let cost = penalty_cost(penalty);
            &&& winner == c.creator || winner == c.counterparty
            &&& s2.reputation_of(winner) == s.reputation_of(winner) + 2
            &&& forall|p: Seq<u8>|
                (p == c.creator || p == c.counterparty) && p != winner ==> #[trigger] s2.reputation_of(p) == if s.reputation_of(p) - cost > 0 {
                    s.reputation_of(p) - cost
                } else {
                    0
                }
            &&& forall|p: Seq<u8>| p != c.creator && p != c.counterparty ==> #[trigger] s2.reputation_of(p) == s.reputation_of(p)
        },
{
    if let Outcome::Done(s2, _) = s.resolve_dispute_spec(dispute_id, winner, verdict, penalty, now) {
        let d = s.dispute(dispute_id);
        let c = s.commitment(d.contract_id);
        assert(s.commitments[d.contract_id - 1] == c);
        assert(c.creator != c.counterparty);
        assert(s.reputation.contains_key(winner) ==> s.reputation[winner] >= 0);
    }
}

/// Releasing a milestone takes a tenth of the down payment (rounded down) out
/// of the commitment's escrow and out of the escrow total, and pays exactly
/// that out: the fee distributed plus the creator's transfer. The recorded
/// milestone becomes the one released; the tenth one completes the commitment.
pub proof fn law_milestone_pays_a_tenth_of_down_payment(s: MithaqState, id: u64, caller: Seq<u8>, milestone: u32)
    requires
        inv(s),
    ensures
        s.release_milestone_spec(id, caller, milestone) matches Outcome::Done(s2, acts) ==> {
            let c = s.commitment(id);
            let per = c.down_payment / 10;
            &&& caller == c.counterparty
            &&& s2.commitment(id).escrow_balance == c.escrow_balance - per
            &&& s2.total_escrow == s.total_escrow - per
            &&& outflow(acts) == per
            &&& s2.commitment(id).extra_data.milestone == Some(milestone)
            &&& s2.commitment(id).status == if milestone == 10 { Status::Completed } else { c.status }
            &&& c.contract_type == crate::tag::construction_text()
            &&& c.status == Status::Active || c.status == Status::AwaitingReview
            &&& crate::state::last_milestone(c) < milestone <= 10
            &&& per - crate::rules::quot(per * c.platform_fee_percent, 100) > 0 ==> acts[acts.len() - 2]
                == ActionView::Transfer {
                from: crate::events::HolderView::Contract,
                to: crate::events::HolderView::Account(c.creator),
                amount: (per - crate::rules::quot(per * c.platform_fee_percent, 100)) as i128,
            }
        },
{
    lemma_milestone_outflow(s, id, caller, milestone);
    if let Outcome::Done(s2, acts) = s.release_milestone_spec(id, caller, milestone) {
        let c = s.commitment(id);
        assert(s.commitments[id - 1] == c);
        assert(0 <= c.down_payment);
    }
}

/// Paying an installment moves a ninth of the down payment (rounded down)
/// from the payer into the contract first, and pays exactly that amount out
/// again (the fee distributed plus the creator's transfer); the escrow is
/// untouched. The recorded installment becomes the one paid; the ninth one
/// completes the commitment.
pub proof fn law_installment_moves_a_ninth_of_down_payment(s: MithaqState, id: u64, caller: Seq<u8>, installment: u32)
    requires
        inv(s),
    ensures
        s.pay_installment_spec(id, caller, installment) matches Outcome::Done(s2, acts) ==> {
            let c = s.commitment(id);
            let per = c.down_payment / 9;
            &&& caller == c.counterparty
            &&& acts[0] == ActionView::Transfer {
                from: crate::events::HolderView::Account(caller),
                to: crate::events::HolderView::Contract,
                amount: per as i128,
            }
            &&& outflow(acts.subrange(1, acts.len() as int)) == per
            &&& s2.total_escrow == s.total_escrow
            &&& s2.commitment(id).escrow_balance == c.escrow_balance
            &&& s2.commitment(id).extra_data.installment == Some(installment)
            &&& s2.commitment(id).status == if installment == 9 { Status::Completed } else { c.status }
            &&& c.contract_type == crate::tag::tuition_text()
            &&& c.status == Status::Active
            &&& crate::state::last_installment(c) < installment <= 9
            &&& per - crate::rules::quot(per * c.platform_fee_percent, 100) > 0 ==> acts[acts.len() - 2]
                == ActionView::Transfer {
                from: crate::events::HolderView::Contract,
                to: crate::events::HolderView::Account(c.creator),
                amount: (per - crate::rules::quot(per * c.platform_fee_percent, 100)) as i128,
            }
        },
{
    lemma_installment_outflow(s, id, caller, installment);
    if let Outcome::Done(s2, acts) = s.pay_installment_spec(id, caller, installment) {
        let c = s.commitment(id);
        assert(s.commitments[id - 1] == c);
        assert(0 <= c.down_payment);
        let rest = acts.subrange(1, acts.len() as int);
        assert(acts =~= seq![acts[0]] + rest);
        lemma_outflow_concat(seq![acts[0]], rest);
        lemma_outflow_single(acts[0]);
    }
}

/// A party of an active commitment, or of one awaiting review, can always
/// open a dispute over it while the contract is unlocked: the commitment
/// becomes disputed and the dispute, under the next id, names the caller as
/// plaintiff and the other party as defendant. Any other status is refused
/// as `IneligibleState`.
pub proof fn law_parties_can_dispute_active_or_delivered(
    s: MithaqState,
    id: u64,
    caller: Seq<u8>,
    reason: Seq<u8>,
    now: u64,
)
    requires
        inv(s),
        !s.locked,
        s.has_commitment(id),
        caller == s.commitment(id).creator || caller == s.commitment(id).counterparty,
        s.disputes.len() < u64::MAX,
    ensures
        s.commitment(id).status == Status::Active || s.commitment(id).status == Status::AwaitingReview
            ==> (s.open_dispute_spec(id, caller, reason, now) matches Outcome::Done(s2, _) && {
            let c = s.commitment(id);
            let d = s2.dispute((s.disputes.len() + 1) as u64);
            &&& s2.commitment(id).status == Status::Disputed
            &&& s2.disputes.len() == s.disputes.len() + 1
            &&& d.contract_id == id
            &&& d.plaintiff == caller
            &&& d.defendant == (if caller == c.creator { c.counterparty } else { c.creator })
            &&& d.defendant != caller
            &&& d.status == crate::types::DisputeStatus::Open
        }),
        !(s.commitment(id).status == Status::Active || s.commitment(id).status == Status::AwaitingReview)
            ==> s.open_dispute_spec(id, caller, reason, now) == Outcome::Refused(MithaqError::IneligibleState),
{
    let c = s.commitment(id);
    assert(s.commitments[id - 1] == c);
    assert(c.creator != c.counterparty);
}

/// The fee table: 1% from 100 reputation points, 4% under 20, 2% between;
/// 5 points more while the pool's utilization is under 20.00%, and 0% above
/// 80.00%.
pub proof fn law_fee_table(rep: int, utilization: int)
    ensures
        platform_fee_percent_spec(rep, utilization) == if utilization < 2000 {
            (if rep >= 100 { 1int } else if rep < 20 { 4int } else { 2int }) + 5
        } else if utilization > 8000 {
            0
        } else if rep >= 100 {
            1
        } else if rep < 20 {
            4
        } else {
            2
        },
{
}

/// Funding a commitment: only its counterparty, while it is pending and not
/// past its deadline, with the agreed document hash. The down payment moves
/// from the funder into the contract and is recorded as the escrow, the escrow
/// total grows by it, and the commitment becomes active as of `now`. Where all
/// of this holds on an unlocked, initialized contract, the only possible
/// refusal is an arithmetic overflow.
pub proof fn law_accept_funds_escrow(s: MithaqState, id: u64, funder: Seq<u8>, doc_hash: Seq<u8>, now: u64)
    requires
        inv(s),
    ensures
        s.accept_spec(id, funder, doc_hash, now) matches Outcome::Done(s2, acts) ==> {
            let c = s.commitment(id);
            &&& c.status == Status::Pending && now <= c.deadline
            &&& doc_hash == c.legal_doc_hash && funder == c.counterparty
            &&& acts[0] == ActionView::Transfer {
                from: crate::events::HolderView::Account(funder),
                to: crate::events::HolderView::Contract,
                amount: c.down_payment,
            }
            &&& s2.commitment(id).status == Status::Active
            &&& s2.commitment(id).escrow_balance == c.down_payment
            &&& s2.commitment(id).accepted_at == now
            &&& s2.total_escrow == s.total_escrow + c.down_payment
        },
        !s.locked && s.config is Some && s.has_commitment(id) && s.commitment(id).status == Status::Pending && now
            <= s.commitment(id).deadline && doc_hash == s.commitment(id).legal_doc_hash && funder == s.commitment(
            id,
        ).counterparty ==> (s.accept_spec(id, funder, doc_hash, now) is Done || s.accept_spec(id, funder, doc_hash, now)
            == Outcome::Refused(MithaqError::ArithmeticOverflow)),
{
}

/// Confirming delivery: only the counterparty of an active commitment, once.
/// The first release moves from escrow to the creator (when positive), the
/// escrow and the escrow total fall by it, the proof is recorded, and the
/// review deadline is 3 days after `now`, the automatic release 5 days after.
pub proof fn law_delivery_releases_first_amount(
    s: MithaqState,
    id: u64,
    counterparty: Seq<u8>,
    proof: Seq<u8>,
    now: u64,
)
    requires
        inv(s),
    ensures
        s.confirm_delivery_spec(id, counterparty, proof, now) matches Outcome::Done(s2, acts) ==> {
            let c = s.commitment(id);
            let first = c.first_release_amount;
            &&& counterparty == c.counterparty && c.status == Status::Active && !c.first_release_done
            &&& first <= c.escrow_balance
            &&& first > 0 ==> acts[0] == ActionView::Transfer {
                from: crate::events::HolderView::Contract,
                to: crate::events::HolderView::Account(c.creator),
                amount: first,
            }
            &&& s2.commitment(id).escrow_balance == c.escrow_balance - first
            &&& s2.total_escrow == s.total_escrow - first
            &&& s2.commitment(id).status == Status::AwaitingReview
            &&& s2.commitment(id).first_release_done
            &&& s2.commitment(id).extra_data.proof == Some(proof)
            &&& s2.commitment(id).review_deadline == now + 259_200
            &&& s2.commitment(id).auto_release_deadline == now + 432_000
        },
{
}

/// Accepting a delivered commitment: only its counterparty, while it awaits
/// review. The whole escrow leaves it: the platform fee (the commitment's fee
/// percent of the balance, rounded toward zero) is distributed and the rest
/// goes to the creator; the commitment completes and both parties gain 2
/// reputation points.
pub proof fn law_review_pays_creator(s: MithaqState, id: u64, counterparty: Seq<u8>)
    requires
        inv(s),
    ensures
        s.confirm_review_spec(id, counterparty) matches Outcome::Done(s2, acts) ==> {
            let c = s.commitment(id);
            let balance = c.escrow_balance as int;
            let fees = crate::rules::quot(balance * c.platform_fee_percent, 100);
            &&& counterparty == c.counterparty && c.status == Status::AwaitingReview
            &&& s2.commitment(id).escrow_balance == 0
            &&& s2.commitment(id).status == Status::Completed
            &&& s2.total_escrow == s.total_escrow - balance
            &&& s2.reputation_of(c.creator) == s.reputation_of(c.creator) + 2
            &&& s2.reputation_of(c.counterparty) == s.reputation_of(c.counterparty) + 2
            &&& fees > 0 ==> acts[1] == ActionView::DistributeFees {
                fees: fees as i128,
                guarantee_alloc_percent: c.guarantee_reserve_alloc_percent,
            }
            &&& balance - fees > 0 ==> acts[acts.len() - 2] == ActionView::Transfer {
                from: crate::events::HolderView::Contract,
                to: crate::events::HolderView::Account(c.creator),
                amount: (balance - fees) as i128,
            }
        },
{
    if let Outcome::Done(s2, acts) = s.confirm_review_spec(id, counterparty) {
        let c = s.commitment(id);
        assert(s.commitments[id - 1] == c);
        assert(c.creator != c.counterparty);
        assert(s.reputation.contains_key(c.creator) ==> s.reputation[c.creator] >= 0);
        assert(s.reputation.contains_key(c.counterparty) ==> s.reputation[c.counterparty] >= 0);
    }
}

/// Releasing automatically: only a commitment awaiting review whose automatic
/// release deadline has come. The escrow leaves it as on review, the
/// commitment ends auto-released, the creator gains 2 reputation points and
/// the silent counterparty loses 2 (never going below 0).
pub proof fn law_auto_release_penalizes_silence(s: MithaqState, id: u64, now: u64)
    requires
        inv(s),
    ensures
        s.auto_release_spec(id, now) matches Outcome::Done(s2, acts) ==> {
            let c = s.commitment(id);
            &&& c.status == Status::AwaitingReview && now >= c.auto_release_deadline
            &&& s2.commitment(id).escrow_balance == 0
            &&& s2.commitment(id).status == Status::AutoReleased
            &&& s2.total_escrow == s.total_escrow - c.escrow_balance
            &&& s2.reputation_of(c.creator) == s.reputation_of(c.creator) + 2
            &&& s2.reputation_of(c.counterparty) == if s.reputation_of(c.counterparty) >= 2 {
                s.reputation_of(c.counterparty) - 2
            } else {
                0
            }
        },
{
    if let Outcome::Done(s2, acts) = s.auto_release_spec(id, now) {
        let c = s.commitment(id);
        assert(s.commitments[id - 1] == c);
        assert(c.creator != c.counterparty);
        assert(s.reputation.contains_key(c.creator) ==> s.reputation[c.creator] >= 0);
        assert(s.reputation.contains_key(c.counterparty) ==> s.reputation[c.counterparty] >= 0);
    }
}

/// Cancelling: a party may cancel a pending commitment for any reason, and a
/// funded one only by mutual consent (`MUTUAL`) or for force majeure
/// (`FORCE_MAJ`); the commitment ends cancelled and its pool contribution is
/// withdrawn.
pub proof fn law_cancel_needs_consent_once_funded(s: MithaqState, id: u64, caller: Seq<u8>, reason: Seq<u8>, now: u64)
    requires
        inv(s),
    ensures
        s.cancel_spec(id, caller, reason, now) matches Outcome::Done(s2, _) ==> {
            let c = s.commitment(id);
            &&& caller == c.creator || caller == c.counterparty
            &&& c.status == Status::Pending || reason == crate::tag::mutual_text() || reason
                == crate::tag::force_majeure_text()
            &&& s2.commitment(id).status == Status::Cancelled
            &&& !s2.commitment(id).contributes_to_pool
            &&& c.contributes_to_pool ==> s2.commitment(id).liquidity_contribution == 0 && (s2.pool matches Some(
                p,
            ) && p.total_pooled == if s.pool_or_default(now).total_pooled - c.liquidity_contribution > 0 {
                s.pool_or_default(now).total_pooled - c.liquidity_contribution
            } else {
                0
            })
        },
        !s.locked && s.has_commitment(id) && s.commitment(id).status != Status::Pending && reason
            != crate::tag::mutual_text() && reason != crate::tag::force_majeure_text() ==> s.cancel_spec(
            id,
            caller,
            reason,
            now,
        ) == Outcome::Refused(MithaqError::ConsentRequired),
{
}

/// Reporting a payment state records it on the commitment; `CANC` cancels the
/// commitment, any other state leaves its status alone.
pub proof fn law_payment_status_recorded(s: MithaqState, id: u64, status: Seq<u8>)
    ensures
        s.update_payment_status_spec(id, status) matches Outcome::Done(s2, _) ==> {
            &&& s2.commitment(id).payment_status == status
            &&& s2.commitment(id).status == if status == crate::tag::payment_cancelled_text() {
                Status::Cancelled
            } else {
                s.commitment(id).status
            }
            &&& s2.total_escrow == s.total_escrow
        },
{
}

/// A wallet update replaces exactly the wallet asked for (0 platform, 1
/// reserve, 2 DAO) with the new address and keeps the other addresses.
pub proof fn law_wallet_update_replaces_one_wallet(s: MithaqState, which: int, admin: Seq<u8>, wallet: Seq<u8>)
    requires
        0 <= which <= 2,
    ensures
        s.update_wallet_spec(which, admin, wallet) matches Outcome::Done(s2, _) ==> {
            let old = s.config.unwrap();
            let new = s2.config.unwrap();
            &&& new.platform_wallet == if which == 0 { wallet } else { old.platform_wallet }
            &&& new.reserve_wallet == if which == 1 { wallet } else { old.reserve_wallet }
            &&& new.dao_wallet == if which == 2 { wallet } else { old.dao_wallet }
            &&& new.admin == old.admin && new.pi_server == old.pi_server && new.azman_token == old.azman_token
            &&& new.certificate_registry == old.certificate_registry
        },
{
}

/// Resolving a dispute settles the whole escrow of its commitment: the
/// commitment completes with nothing in escrow, the escrow total falls by the
/// balance, the dispute is closed with the penalty and time recorded, and the
/// winner is paid the balance less the forfeited 50% (`FRAU`), 20% (`BREA`)
/// or 0% and less the platform fee on what remains.
pub proof fn law_resolve_settles_escrow(
    s: MithaqState,
    dispute_id: u64,
    winner: Seq<u8>,
    verdict: Seq<u8>,
    penalty: Seq<u8>,
    now: u64,
)
    requires
        inv(s),
    ensures
        s.resolve_dispute_spec(dispute_id, winner, verdict, penalty, now) matches Outcome::Done(s2, acts) ==> {
            let d = s.dispute(dispute_id);
            let c = s.commitment(d.contract_id);
            let balance = c.escrow_balance as int;
            let fp: int = if penalty == crate::tag::fraud_text() {
                50
            } else if penalty == crate::tag::breach_text() {
                20
            } else {
                0
            };
            let forfeited = crate::rules::quot(balance * fp, 100);
            let fees = crate::rules::quot((balance - forfeited) * c.platform_fee_percent, 100);
            &&& d.status == crate::types::DisputeStatus::Open
            &&& s2.dispute(dispute_id).status == crate::types::DisputeStatus::Arbitrated
            &&& s2.dispute(dispute_id).penalty == penalty
            &&& s2.dispute(dispute_id).resolved_at == now
            &&& s2.commitment(d.contract_id).status == Status::Completed
            &&& s2.commitment(d.contract_id).escrow_balance == 0
            &&& s2.total_escrow == s.total_escrow - balance
            &&& acts.last() == ActionView::Publish(
                crate::events::EventView::DisputeResolved {
                    dispute_id,
                    winner,
                    verdict,
                    payout: (balance - forfeited - fees) as i128,
                },
            )
        },
{
    if let Outcome::Done(s2, acts) = s.resolve_dispute_spec(dispute_id, winner, verdict, penalty, now) {
        let d = s.dispute(dispute_id);
        assert(s.disputes[dispute_id - 1] == d);
    }
}

/// A forfeiture goes half to the platform wallet, two fifths to the
/// guarantee reserve and the rest to the DAO treasury (each transfer made when
/// positive), and the split is published.
pub proof fn law_forfeiture_goes_to_wallets(amount: int, config: ConfigView)
    requires
        amount > 0,
        crate::rules::fits(amount),
    ensures
        ({
            let acts = forfeiture_actions(amount, config);
            let platform = amount / 2;
            let reserve = (2 * amount) / 5;
            let dao = amount - platform - reserve;
            &&& platform > 0 ==> acts.contains(
                ActionView::Transfer {
                    from: crate::events::HolderView::Contract,
                    to: crate::events::HolderView::Account(config.platform_wallet),
                    amount: platform as i128,
                },
            )
            &&& reserve > 0 ==> acts.contains(
                ActionView::Transfer {
                    from: crate::events::HolderView::Contract,
                    to: crate::events::HolderView::Account(config.reserve_wallet),
                    amount: reserve as i128,
                },
            )
            &&& dao > 0 ==> acts.contains(
                ActionView::Transfer {
                    from: crate::events::HolderView::Contract,
                    to: crate::events::HolderView::Account(config.dao_wallet),
                    amount: dao as i128,
                },
            )
            &&& acts.last() == ActionView::Publish(
                crate::events::EventView::ForfeitureDistributed(
                    crate::events::FeesDistributed {
                        total: amount as i128,
                        platform: platform as i128,
                        reserve: reserve as i128,
                        dao: dao as i128,
                    },
                ),
            )
        }),
{
    let acts = forfeiture_actions(amount, config);
    assert((amount * 50) / 100 == amount / 2) by (nonlinear_arith)
        requires amount > 0;
    assert((amount * 40) / 100 == (2 * amount) / 5) by (nonlinear_arith)
        requires amount > 0;
    law_forfeiture_split_conserves(amount);
    let p = forfeiture_platform_share(amount);
    let r = forfeiture_reserve_share(amount);
    let d = forfeiture_dao_share(amount);
    let a1 = transfer_out(config.platform_wallet, p);
    let a2 = transfer_out(config.reserve_wallet, r);
    let a3 = transfer_out(config.dao_wallet, d);
    if p > 0 {
        assert(acts[0] == a1[0]);
    }
    if r > 0 {
        assert(acts[a1.len() as int] == a2[0]);
    }
    if d > 0 {
        assert(acts[(a1.len() + a2.len()) as int] == a3[0]);
    }
}

/// A forfeiture arising in a dispute is the penalty's share of the escrow:
/// when positive, the resolution's actions hold its split.
pub proof fn law_resolve_forfeits_penalty_share(
    s: MithaqState,
    dispute_id: u64,
    winner: Seq<u8>,
    verdict: Seq<u8>,
    penalty: Seq<u8>,
    now: u64,
)
    requires
        inv(s),
    ensures
        s.resolve_dispute_spec(dispute_id, winner, verdict, penalty, now) matches Outcome::Done(s2, acts) ==> {
            let c = s.commitment(s.dispute(dispute_id).contract_id);
            let fp: int = if penalty == crate::tag::fraud_text() {
                50
            } else if penalty == crate::tag::breach_text() {
                20
            } else {
                0
            };
            let forfeited = crate::rules::quot(c.escrow_balance * fp, 100);
            forfeited > 0 ==> acts.contains(
                ActionView::Publish(
                    crate::events::EventView::ForfeitureDistributed(
                        crate::events::FeesDistributed {
                            total: forfeited as i128,
                            platform: (forfeited / 2) as i128,
                            reserve: ((2 * forfeited) / 5) as i128,
                            dao: (forfeited - forfeited / 2 - (2 * forfeited) / 5) as i128,
                        },
                    ),
                ),
            )
        },
{
    if let Outcome::Done(s2, acts) = s.resolve_dispute_spec(dispute_id, winner, verdict, penalty, now) {
        let c = s.commitment(s.dispute(dispute_id).contract_id);
        let fp = crate::rules::forfeiture_percent_spec(penalty);
        let forfeited = percent_of(c.escrow_balance as int, fp);
        if forfeited > 0 {
            let cfg = s.config.unwrap();
            law_forfeiture_goes_to_wallets(forfeited, cfg);
            let f = forfeiture_actions(forfeited, cfg);
            let k = f.len() - 1;
            assert(acts[1 + k] == f[k]);
        }
    }
}

/// Only the recorded admin forces the lock open.
pub proof fn law_only_admin_forces_unlock(s: MithaqState, admin: Seq<u8>)
    ensures
        s.force_unlock_spec(admin) matches Outcome::Done(s2, _) ==> s.config is Some && admin
            == s.config.unwrap().admin && !s2.locked && s2.commitments == s.commitments,
{
}

/// Initializing records exactly the given addresses, an empty escrow total
/// and a fresh pool (nothing pooled, utilization 50.00%, updated `now`).
pub proof fn law_initialize_records_addresses(s: MithaqState, config: ConfigView, now: u64)
    ensures
        s.initialize_spec(config, now) matches Outcome::Done(s2, _) ==> {
            &&& s.config is None
            &&& s2.config == Some(config)
            &&& s2.total_escrow == 0
            &&& s2.pool == Some(
                crate::types::LiquidityPoolState {
                    total_pooled: 0,
                    total_recycled_fees: 0,
                    active_contributors: 0,
                    pool_utilization: 5000,
                    last_updated: now,
                },
            )
            &&& !s2.locked
        },
{
}

/// A commitment is created only on valid terms: a positive net value, a down
/// payment between 0 and it, two distinct parties, releases that add up to the
/// net value with the first within the down payment, and a deadline after
/// `now`.
pub proof fn law_create_validates_terms(
    s: MithaqState,
    creator: Seq<u8>,
    counterparty: Seq<u8>,
    params: CommitmentParamsView,
    now: u64,
)
    ensures
        s.create_spec(creator, counterparty, params, now) is Done ==> {
            &&& !s.locked && s.config is Some
            &&& params.net_value > 0
            &&& 0 <= params.down_payment <= params.net_value
            &&& creator != counterparty
            &&& params.first_release_amount + params.second_release_amount == params.net_value
            &&& params.first_release_amount <= params.down_payment
            &&& params.deadline > now
        },
{
}

} // verus!
