use mithaq::contract::MithaqContract;
use mithaq::events::{Action, Event, Holder};
use mithaq::party::Party;
use mithaq::tag::Tag;
use mithaq::types::{CommitmentParams, MithaqError, ReputationEntry, Status};

const NOW: u64 = 1_000;

fn party(s: &str) -> Party {
    Party::new(s.as_bytes().to_vec())
}

fn tag(s: &str) -> Tag {
    Tag::new(s.as_bytes().to_vec())
}

fn initialized() -> MithaqContract {
    let mut c = MithaqContract::new();
    c.initialize(
        party("ADMIN"),
        party("PISERVER"),
        party("TOKEN"),
        party("REGISTRY"),
        party("PLATFORM"),
        party("RESERVE"),
        party("DAO"),
        NOW,
    )
    .unwrap();
    c
}

fn params(net: i128, dp: i128, first: i128, kind: &str, deadline: u64) -> CommitmentParams {
    CommitmentParams {
        original_value: net + 50,
        net_value: net,
        down_payment: dp,
        contract_type: tag(kind),
        deadline,
        pi_payment_id: b"pay-1".to_vec(),
        first_release_amount: first,
        second_release_amount: net - first,
        legal_doc_hash: b"doc".to_vec(),
    }
}

fn create(c: &mut MithaqContract, p: CommitmentParams) -> Result<u64, MithaqError> {
    let r = c.create_commitment(party("ALICE"), party("BOB"), p, NOW).map(|(id, _)| id);
    c.release_lock();
    r
}

fn funded(net: i128, dp: i128, first: i128) -> MithaqContract {
    let mut c = initialized();
    create(&mut c, params(net, dp, first, "GOOD", NOW + 100)).unwrap();
    c.accept(1, party("BOB"), &b"doc".to_vec(), NOW + 1).unwrap();
    c.release_lock();
    c
}

#[test]
fn initialize_records_fresh_pool_and_refuses_second_time() {
    let mut c = initialized();
    let pool = c.get_pool(5);
    assert_eq!(pool.total_pooled, 0);
    assert_eq!(pool.pool_utilization, 5000);
    assert_eq!(pool.last_updated, NOW);
    assert_eq!(c.get_total_escrow(), 0);
    assert_eq!(c.get_admin().unwrap().key, b"ADMIN".to_vec());
    let err = c
        .initialize(party("X"), party("X"), party("X"), party("X"), party("X"), party("X"), party("X"), 7)
        .unwrap_err();
    assert_eq!(err, MithaqError::AlreadyInitialized);
    assert_eq!(c.get_admin().unwrap().key, b"ADMIN".to_vec());
}

#[test]
fn uninitialized_contract_reads_defaults_and_refuses_creation() {
    let mut c = MithaqContract::new();
    assert_eq!(c.get_pool(42).last_updated, 42);
    assert_eq!(c.get_pool(42).pool_utilization, 5000);
    assert_eq!(c.get_admin().unwrap_err(), MithaqError::NotInitialized);
    assert_eq!(c.get_platform_wallet().unwrap_err(), MithaqError::NotInitialized);
    let err = c.create_commitment(party("ALICE"), party("BOB"), params(100, 50, 50, "GOOD", NOW + 10), NOW).unwrap_err();
    assert_eq!(err, MithaqError::NotInitialized);
    assert_eq!(c.get_commitment(1).unwrap_err(), MithaqError::CommitmentNotFound);
}

#[test]
fn create_records_pending_commitment_and_reads_back() {
    let mut c = initialized();
    let (id, acts) = c
        .create_commitment(party("ALICE"), party("BOB"), params(1000, 400, 300, "GOOD", NOW + 100), NOW)
        .unwrap();
    assert_eq!(id, 1);
    assert_eq!(acts.len(), 1);
    assert!(matches!(&acts[0], Action::Publish(Event::Created(e))
        if e.id == 1 && e.creator.key == b"ALICE".to_vec() && e.net_value == 1000 && e.down_payment == 400));
    assert!(matches!(&acts[0], Action::Publish(e) if e.topic() == "created"));
    let got = c.get_commitment(1).unwrap();
    assert_eq!(got.id, 1);
    assert_eq!(got.status, Status::Pending);
    assert_eq!(got.escrow_balance, 0);
    assert_eq!(got.original_value, 1050);
    assert_eq!(got.creator.key, b"ALICE".to_vec());
    assert_eq!(got.counterparty.key, b"BOB".to_vec());
    assert_eq!(got.payment_status.text, b"PEND".to_vec());
    // reputation 0 pays 4%, utilization 50% leaves it unchanged
    assert_eq!(got.platform_fee_percent, 4);
    assert_eq!(got.guarantee_reserve_alloc_percent, 1);
    assert_eq!(got.created_at, NOW);
    c.release_lock();
    let (id2, _) = c
        .create_commitment(party("CAROL"), party("BOB"), params(10, 5, 5, "GOOD", NOW + 100), NOW)
        .unwrap();
    assert_eq!(id2, 2);
}

#[test]
fn create_refusals_follow_the_validation_order() {
    let mut c = initialized();
    assert_eq!(create(&mut c, params(0, 0, 0, "GOOD", NOW + 1)).unwrap_err(), MithaqError::NetValueNotPositive);
    assert_eq!(create(&mut c, params(100, -1, -1, "GOOD", NOW + 1)).unwrap_err(), MithaqError::InvalidDownPayment);
    assert_eq!(create(&mut c, params(100, 101, 50, "GOOD", NOW + 1)).unwrap_err(), MithaqError::InvalidDownPayment);
    let err = c
        .create_commitment(party("ALICE"), party("ALICE"), params(100, 50, 50, "GOOD", NOW + 1), NOW)
        .unwrap_err();
    assert_eq!(err, MithaqError::SelfDealingProhibited);
    let mut p = params(100, 50, 50, "GOOD", NOW + 1);
    p.first_release_amount = i128::MAX;
    p.second_release_amount = 1;
    assert_eq!(create(&mut c, p).unwrap_err(), MithaqError::ArithmeticOverflow);
    let mut p = params(100, 50, 50, "GOOD", NOW + 1);
    p.second_release_amount = 10;
    assert_eq!(create(&mut c, p).unwrap_err(), MithaqError::ReleaseSumMismatch);
    assert_eq!(
        create(&mut c, params(100, 50, 60, "GOOD", NOW + 1)).unwrap_err(),
        MithaqError::FirstReleaseExceedsDownPayment
    );
    assert_eq!(create(&mut c, params(100, 50, 50, "GOOD", NOW)).unwrap_err(), MithaqError::DeadlineNotInFuture);
    assert_eq!(c.commitments.len(), 0);
}

#[test]
fn reputation_loans_follow_the_tiers() {
    let mut c = initialized();
    assert_eq!(create(&mut c, params(100, 50, 50, "REPL", NOW + 1)).unwrap_err(), MithaqError::ReputationTooLow);
    c.reputations.push(ReputationEntry { party: party("ALICE"), points: 85 });
    // Silver: 50% loan-to-value at most
    assert_eq!(create(&mut c, params(100, 40, 40, "REPL", NOW + 1)).unwrap_err(), MithaqError::LtvExceedsLimit);
    assert_eq!(create(&mut c, params(100, 50, 50, "REPL", NOW + 1)).unwrap(), 1);
    c.reputations[0].points = 95;
    // Diamond: 95%
    assert_eq!(create(&mut c, params(100, 5, 5, "REPL", NOW + 1)).unwrap(), 2);
    assert_eq!(create(&mut c, params(100, 4, 4, "REPL", NOW + 1)).unwrap_err(), MithaqError::LtvExceedsLimit);
    // loan * 100 overflows
    assert_eq!(
        create(&mut c, params(i128::MAX, 0, 0, "REPL", NOW + 1)).unwrap_err(),
        MithaqError::ArithmeticOverflow
    );
}

#[test]
fn accept_moves_down_payment_into_escrow_and_pool() {
    let mut c = initialized();
    create(&mut c, params(2000, 1000, 400, "GOOD", NOW + 100)).unwrap();
    let acts = c.accept(1, party("BOB"), &b"doc".to_vec(), NOW + 1).unwrap();
    assert_eq!(acts.len(), 2);
    assert!(matches!(&acts[0], Action::Transfer { from: Holder::Account(p), to: Holder::Contract, amount: 1000 }
        if p.key == b"BOB".to_vec()));
    assert!(matches!(&acts[1], Action::Publish(Event::Accepted(e)) if e.id == 1 && e.escrowed_amount == 1000));
    let got = c.get_commitment(1).unwrap();
    assert_eq!(got.status, Status::Active);
    assert_eq!(got.escrow_balance, 1000);
    assert_eq!(got.accepted_at, NOW + 1);
    assert!(got.contributes_to_pool);
    assert_eq!(got.liquidity_contribution, 300);
    assert_eq!(c.get_total_escrow(), 1000);
    let pool = c.get_pool(0);
    assert_eq!(pool.total_pooled, 300);
    assert_eq!(pool.active_contributors, 1);
    assert_eq!(pool.pool_utilization, 3000);
    assert_eq!(pool.last_updated, NOW + 1);
}

#[test]
fn accept_refusals() {
    let mut c = initialized();
    create(&mut c, params(2000, 1000, 400, "GOOD", NOW + 100)).unwrap();
    assert_eq!(c.accept(2, party("BOB"), &b"doc".to_vec(), NOW).unwrap_err(), MithaqError::CommitmentNotFound);
    assert_eq!(c.accept(0, party("BOB"), &b"doc".to_vec(), NOW).unwrap_err(), MithaqError::CommitmentNotFound);
    assert_eq!(c.accept(1, party("BOB"), &b"doc".to_vec(), NOW + 101).unwrap_err(), MithaqError::InvalidState);
    assert_eq!(c.accept(1, party("BOB"), &b"other".to_vec(), NOW).unwrap_err(), MithaqError::AuthFailed);
    assert_eq!(c.accept(1, party("ALICE"), &b"doc".to_vec(), NOW).unwrap_err(), MithaqError::AuthFailed);
    assert_eq!(c.get_total_escrow(), 0);
    c.accept(1, party("BOB"), &b"doc".to_vec(), NOW + 100).unwrap();
    c.release_lock();
    // funded at most once
    assert_eq!(c.accept(1, party("BOB"), &b"doc".to_vec(), NOW).unwrap_err(), MithaqError::InvalidState);
}

#[test]
fn small_down_payment_does_not_feed_pool() {
    let mut c = initialized();
    create(&mut c, params(10, 3, 3, "GOOD", NOW + 100)).unwrap();
    c.accept(1, party("BOB"), &b"doc".to_vec(), NOW).unwrap();
    assert!(!c.get_commitment(1).unwrap().contributes_to_pool);
    assert_eq!(c.get_pool(0).total_pooled, 0);
    assert_eq!(c.get_total_escrow(), 3);
}

#[test]
fn lock_refuses_reentry_until_released() {
    let mut c = initialized();
    c.create_commitment(party("ALICE"), party("BOB"), params(100, 50, 50, "GOOD", NOW + 10), NOW).unwrap();
    assert!(c.locked);
    let err = c.accept(1, party("BOB"), &b"doc".to_vec(), NOW).unwrap_err();
    assert_eq!(err, MithaqError::ReentrancyDetected);
    assert_eq!(c.get_commitment(1).unwrap().status, Status::Pending);
    assert_eq!(c.admin_force_unlock(&party("MALLORY")).unwrap_err(), MithaqError::Unauthorized);
    assert!(c.locked);
    c.admin_force_unlock(&party("ADMIN")).unwrap();
    assert!(!c.locked);
    c.accept(1, party("BOB"), &b"doc".to_vec(), NOW).unwrap();
    assert!(c.locked);
    c.release_lock();
    assert!(!c.locked);
}

#[test]
fn delivery_releases_first_amount_and_starts_review() {
    let mut c = funded(2000, 1000, 400);
    let acts = c.confirm_delivery(1, &party("BOB"), b"proof-hash".to_vec(), 5000).unwrap();
    assert_eq!(acts.len(), 2);
    assert!(matches!(&acts[0], Action::Transfer { from: Holder::Contract, to: Holder::Account(p), amount: 400 }
        if p.key == b"ALICE".to_vec()));
    assert!(matches!(&acts[1], Action::Publish(Event::Delivered(e)) if e.amount == 400 && e.proof_hash == b"proof-hash".to_vec()));
    let got = c.get_commitment(1).unwrap();
    assert_eq!(got.status, Status::AwaitingReview);
    assert_eq!(got.escrow_balance, 600);
    assert!(got.first_release_done);
    assert_eq!(got.review_deadline, 5000 + 259_200);
    assert_eq!(got.auto_release_deadline, 5000 + 259_200 + 172_800);
    assert_eq!(got.extra_data.proof, Some(b"proof-hash".to_vec()));
    assert_eq!(c.get_total_escrow(), 600);
    c.release_lock();
    assert_eq!(c.confirm_delivery(1, &party("BOB"), b"x".to_vec(), 6000).unwrap_err(), MithaqError::InvalidCaller);
}

#[test]
fn delivery_refusals() {
    let mut c = funded(2000, 1000, 400);
    assert_eq!(c.confirm_delivery(1, &party("ALICE"), b"p".to_vec(), 5).unwrap_err(), MithaqError::InvalidCaller);
    let mut c = funded(2000, 1000, 400);
    c.commitments[0].escrow_balance = 100;
    assert_eq!(c.confirm_delivery(1, &party("BOB"), b"p".to_vec(), 5).unwrap_err(), MithaqError::InsufficientEscrow);
    let mut c = funded(2000, 1000, 400);
    assert_eq!(
        c.confirm_delivery(1, &party("BOB"), b"p".to_vec(), u64::MAX - 10).unwrap_err(),
        MithaqError::ArithmeticOverflow
    );
}

#[test]
fn review_pays_creator_less_fee_and_rewards_both() {
    let mut c = funded(2000, 1000, 400);
    c.confirm_delivery(1, &party("BOB"), b"p".to_vec(), 5000).unwrap();
    c.release_lock();
    assert_eq!(c.confirm_review(1, &party("ALICE")).unwrap_err(), MithaqError::InvalidCaller);
    let acts = c.confirm_review(1, &party("BOB")).unwrap();
    assert_eq!(acts.len(), 4);
    assert!(matches!(&acts[0], Action::IssueCertificate { commitment_id: 1, imprint, .. }
        if imprint.text() == "Mithaq Verified"));
    // 4% of 600
    assert!(matches!(&acts[1], Action::DistributeFees { fees: 24, guarantee_alloc_percent: 1 }));
    assert!(matches!(&acts[2], Action::Transfer { from: Holder::Contract, to: Holder::Account(p), amount: 576 }
        if p.key == b"ALICE".to_vec()));
    assert!(matches!(&acts[3], Action::Publish(Event::Completed(e)) if e.final_payout == 576 && e.fees_paid == 24));
    let got = c.get_commitment(1).unwrap();
    assert_eq!(got.status, Status::Completed);
    assert_eq!(got.escrow_balance, 0);
    assert_eq!(c.get_total_escrow(), 0);
    assert_eq!(c.get_reputation(&party("ALICE")), 2);
    assert_eq!(c.get_reputation(&party("BOB")), 2);
    assert_eq!(c.get_reputation(&party("CAROL")), 0);
}

#[test]
fn auto_release_waits_for_deadline_and_penalizes_silence() {
    let mut c = funded(2000, 1000, 400);
    c.confirm_delivery(1, &party("BOB"), b"p".to_vec(), 5000).unwrap();
    c.release_lock();
    let deadline = 5000 + 259_200 + 172_800;
    assert_eq!(c.auto_release(1, deadline - 1).unwrap_err(), MithaqError::NotReady);
    c.reputations.push(ReputationEntry { party: party("BOB"), points: 5 });
    let acts = c.auto_release(1, deadline).unwrap();
    assert!(matches!(&acts[0], Action::IssueCertificate { imprint, .. } if imprint.text() == "Mithaq Auto-Verified"));
    assert!(matches!(&acts[3], Action::Publish(Event::AutoReleased(e)) if e.payout == 576));
    assert_eq!(c.get_commitment(1).unwrap().status, Status::AutoReleased);
    assert_eq!(c.get_reputation(&party("BOB")), 3);
    assert_eq!(c.get_reputation(&party("ALICE")), 2);
    c.release_lock();
    assert_eq!(c.auto_release(1, deadline).unwrap_err(), MithaqError::NotReady);
}

#[test]
fn reputation_never_goes_below_zero() {
    let mut c = funded(2000, 1000, 400);
    c.confirm_delivery(1, &party("BOB"), b"p".to_vec(), 0).unwrap();
    c.release_lock();
    c.auto_release(1, u64::MAX).unwrap();
    assert_eq!(c.get_reputation(&party("BOB")), 0);
    assert_eq!(c.reputations.iter().filter(|e| e.party.key == b"BOB".to_vec()).count(), 1);
}

#[test]
fn cancel_pending_needs_no_reason() {
    let mut c = initialized();
    create(&mut c, params(100, 50, 50, "GOOD", NOW + 10)).unwrap();
    assert_eq!(c.cancel_commitment(1, party("CAROL"), &tag("ANY"), NOW).unwrap_err(), MithaqError::NotAParty);
    let acts = c.cancel_commitment(1, party("ALICE"), &tag("ANY"), NOW).unwrap();
    assert_eq!(acts.len(), 1);
    assert!(matches!(&acts[0], Action::Publish(Event::Cancelled(e)) if e.refunded == 0 && e.by.key == b"ALICE".to_vec()));
    assert_eq!(c.get_commitment(1).unwrap().status, Status::Cancelled);
}

#[test]
fn cancel_active_refunds_escrow_and_withdraws_pool_share() {
    let mut c = funded(2000, 1000, 400);
    assert_eq!(c.cancel_commitment(1, party("ALICE"), &tag("CHANGE"), NOW).unwrap_err(), MithaqError::ConsentRequired);
    let acts = c.cancel_commitment(1, party("ALICE"), &tag("MUTUAL"), NOW + 7).unwrap();
    assert_eq!(acts.len(), 2);
    assert!(matches!(&acts[0], Action::Transfer { from: Holder::Contract, to: Holder::Account(p), amount: 1000 }
        if p.key == b"BOB".to_vec()));
    let got = c.get_commitment(1).unwrap();
    assert_eq!(got.status, Status::Cancelled);
    assert_eq!(got.escrow_balance, 0);
    assert!(!got.contributes_to_pool);
    assert_eq!(got.liquidity_contribution, 0);
    assert_eq!(c.get_total_escrow(), 0);
    let pool = c.get_pool(0);
    assert_eq!(pool.total_pooled, 0);
    assert_eq!(pool.active_contributors, 0);
    // computed against the escrow total before the refund
    assert_eq!(pool.pool_utilization, 0);
    assert_eq!(pool.last_updated, NOW + 7);
}

#[test]
fn cancel_for_force_majeure() {
    let mut c = funded(2000, 1000, 400);
    c.cancel_commitment(1, party("BOB"), &tag("FORCE_MAJ"), NOW).unwrap();
    assert_eq!(c.get_commitment(1).unwrap().status, Status::Cancelled);
}

#[test]
fn payment_status_updates_and_cancels() {
    let mut c = initialized();
    create(&mut c, params(100, 50, 50, "GOOD", NOW + 10)).unwrap();
    let acts = c.update_payment_status(1, tag("COMP")).unwrap();
    assert!(matches!(&acts[0], Action::Publish(Event::PaymentUpdated(e)) if e.status.text == b"COMP".to_vec()));
    let got = c.get_commitment(1).unwrap();
    assert_eq!(got.payment_status.text, b"COMP".to_vec());
    assert_eq!(got.status, Status::Pending);
    c.release_lock();
    c.update_payment_status(1, tag("CANC")).unwrap();
    assert_eq!(c.get_commitment(1).unwrap().status, Status::Cancelled);
    c.release_lock();
    assert_eq!(c.update_payment_status(9, tag("COMP")).unwrap_err(), MithaqError::CommitmentNotFound);
    let mut fresh = MithaqContract::new();
    assert_eq!(fresh.update_payment_status(1, tag("COMP")).unwrap_err(), MithaqError::NotInitialized);
}

#[test]
fn escrow_total_tracks_commitment_balances() {
    let mut c = initialized();
    create(&mut c, params(2000, 1000, 400, "GOOD", NOW + 100)).unwrap();
    create(&mut c, params(500, 200, 100, "GOOD", NOW + 100)).unwrap();
    c.accept(1, party("BOB"), &b"doc".to_vec(), NOW).unwrap();
    c.release_lock();
    c.accept(2, party("BOB"), &b"doc".to_vec(), NOW).unwrap();
    c.release_lock();
    c.confirm_delivery(1, &party("BOB"), b"p".to_vec(), NOW).unwrap();
    c.release_lock();
    let sum: i128 = c.commitments.iter().map(|x| x.escrow_balance).sum();
    assert_eq!(c.get_total_escrow(), sum);
    assert_eq!(sum, 600 + 200);
}

#[test]
fn terms_survive_the_whole_lifecycle() {
    let mut c = funded(2000, 1000, 400);
    c.confirm_delivery(1, &party("BOB"), b"p".to_vec(), 5000).unwrap();
    c.release_lock();
    c.confirm_review(1, &party("BOB")).unwrap();
    c.release_lock();
    let got = c.get_commitment(1).unwrap();
    assert_eq!(got.id, 1);
    assert_eq!(got.creator.key, b"ALICE".to_vec());
    assert_eq!(got.counterparty.key, b"BOB".to_vec());
    assert_eq!(got.net_value, 2000);
    assert_eq!(got.down_payment, 1000);
    assert_eq!(got.first_release_amount, 400);
    assert_eq!(got.second_release_amount, 1600);
    assert_eq!(got.contract_type.text, b"GOOD".to_vec());
    assert_eq!(got.deadline, NOW + 100);
    assert_eq!(got.platform_fee_percent, 4);
    assert_eq!(got.legal_doc_hash, b"doc".to_vec());
    assert_eq!(got.created_at, NOW);
}

#[test]
fn completed_commitment_can_still_be_cancelled_by_consent() {
    let mut c = funded(2000, 1000, 400);
    c.confirm_delivery(1, &party("BOB"), b"p".to_vec(), 5000).unwrap();
    c.release_lock();
    c.confirm_review(1, &party("BOB")).unwrap();
    c.release_lock();
    let acts = c.cancel_commitment(1, party("ALICE"), &tag("MUTUAL"), 6000).unwrap();
    assert_eq!(acts.len(), 1);
    assert_eq!(c.get_commitment(1).unwrap().status, Status::Cancelled);
}

#[test]
fn only_parties_act_on_a_commitment() {
    let mut c = funded(2000, 1000, 400);
    assert_eq!(c.cancel_commitment(1, party("EVE"), &tag("MUTUAL"), NOW).unwrap_err(), MithaqError::NotAParty);
    assert_eq!(c.open_dispute(1, party("EVE"), b"r".to_vec(), NOW).unwrap_err(), MithaqError::NoStanding);
    assert_eq!(c.confirm_delivery(1, &party("EVE"), b"p".to_vec(), NOW).unwrap_err(), MithaqError::InvalidCaller);
    assert_eq!(c.get_commitment(1).unwrap().status, Status::Active);
}
