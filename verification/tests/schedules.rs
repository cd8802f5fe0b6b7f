use mithaq::contract::MithaqContract;
use mithaq::events::{Action, Event, Holder};
use mithaq::party::Party;
use mithaq::tag::Tag;
use mithaq::types::{CommitmentParams, MithaqError, Status};

const NOW: u64 = 1_000;

fn party(s: &str) -> Party {
    Party::new(s.as_bytes().to_vec())
}

fn tag(s: &str) -> Tag {
    Tag::new(s.as_bytes().to_vec())
}

fn funded(kind: &str, dp: i128) -> MithaqContract {
    let mut c = MithaqContract::new();
    c.initialize(
        party("ADMIN"),
        party("PISERVER"),
        party("TOKEN"),
        party("REGISTRY"),
        party("PLATFORM"),
        party("RESERVE"),
        party("DAO"),
        NOW,
    )
    .unwrap();
    let p = CommitmentParams {
        original_value: dp,
        net_value: dp,
        down_payment: dp,
        contract_type: tag(kind),
        deadline: NOW + 100,
        pi_payment_id: b"pay".to_vec(),
        first_release_amount: dp,
        second_release_amount: 0,
        legal_doc_hash: b"doc".to_vec(),
    };
    c.create_commitment(party("ALICE"), party("BOB"), p, NOW).unwrap();
    c.release_lock();
    c.accept(1, party("BOB"), &b"doc".to_vec(), NOW).unwrap();
    c.release_lock();
    c
}

#[test]
fn milestone_pays_a_tenth_less_fee() {
    let mut c = funded("CONS", 1000);
    let acts = c.release_milestone(1, &party("BOB"), 3).unwrap();
    assert_eq!(acts.len(), 3);
    assert!(matches!(&acts[0], Action::DistributeFees { fees: 4, guarantee_alloc_percent: 1 }));
    assert!(matches!(&acts[1], Action::Transfer { from: Holder::Contract, to: Holder::Account(p), amount: 96 }
        if p.key == b"ALICE".to_vec()));
    assert!(matches!(&acts[2], Action::Publish(Event::MilestoneReleased(e)) if e.milestone == 3 && e.amount == 96));
    let got = c.get_commitment(1).unwrap();
    assert_eq!(got.escrow_balance, 900);
    assert_eq!(got.extra_data.milestone, Some(3));
    assert_eq!(got.status, Status::Active);
    assert_eq!(c.get_total_escrow(), 900);
    c.release_lock();
    assert_eq!(c.release_milestone(1, &party("BOB"), 3).unwrap_err(), MithaqError::DoubleSpending);
    assert_eq!(c.release_milestone(1, &party("BOB"), 2).unwrap_err(), MithaqError::DoubleSpending);
    c.release_milestone(1, &party("BOB"), 10).unwrap();
    let got = c.get_commitment(1).unwrap();
    assert_eq!(got.status, Status::Completed);
    assert_eq!(got.escrow_balance, 800);
    assert_eq!(c.get_reputation(&party("ALICE")), 2);
    assert_eq!(c.get_reputation(&party("BOB")), 2);
    c.release_lock();
    assert_eq!(c.release_milestone(1, &party("BOB"), 10).unwrap_err(), MithaqError::ContractFrozen);
}

#[test]
fn milestone_refusals() {
    let mut c = funded("GOOD", 1000);
    assert_eq!(c.release_milestone(1, &party("BOB"), 1).unwrap_err(), MithaqError::NotConstruction);
    let mut c = funded("CONS", 1000);
    assert_eq!(c.release_milestone(1, &party("ALICE"), 1).unwrap_err(), MithaqError::OnlyCounterparty);
    assert_eq!(c.release_milestone(1, &party("BOB"), 11).unwrap_err(), MithaqError::MilestoneOutOfRange);
    assert_eq!(c.release_milestone(1, &party("BOB"), 0).unwrap_err(), MithaqError::DoubleSpending);
    c.cancel_commitment(1, party("ALICE"), &tag("MUTUAL"), NOW).unwrap();
    c.release_lock();
    assert_eq!(c.release_milestone(1, &party("BOB"), 1).unwrap_err(), MithaqError::ContractFrozen);
}

#[test]
fn milestones_after_delivery_can_overdraw_escrow() {
    let mut c = funded("CONS", 1000);
    c.confirm_delivery(1, &party("BOB"), b"p".to_vec(), NOW).unwrap();
    c.release_lock();
    assert_eq!(c.get_commitment(1).unwrap().escrow_balance, 0);
    c.release_milestone(1, &party("BOB"), 1).unwrap();
    assert_eq!(c.get_commitment(1).unwrap().escrow_balance, -100);
    assert_eq!(c.get_total_escrow(), -100);
}

#[test]
fn installment_routes_a_ninth_through_the_contract() {
    let mut c = funded("TUIT", 900);
    let acts = c.pay_installment(1, party("BOB"), 1).unwrap();
    assert_eq!(acts.len(), 4);
    assert!(matches!(&acts[0], Action::Transfer { from: Holder::Account(p), to: Holder::Contract, amount: 100 }
        if p.key == b"BOB".to_vec()));
    assert!(matches!(&acts[1], Action::DistributeFees { fees: 4, .. }));
    assert!(matches!(&acts[2], Action::Transfer { from: Holder::Contract, amount: 96, .. }));
    assert!(matches!(&acts[3], Action::Publish(Event::InstallmentPaid(e)) if e.installment == 1 && e.amount == 96));
    assert_eq!(c.get_commitment(1).unwrap().escrow_balance, 900);
    assert_eq!(c.get_commitment(1).unwrap().extra_data.installment, Some(1));
    c.release_lock();
    assert_eq!(c.pay_installment(1, party("BOB"), 1).unwrap_err(), MithaqError::InstallmentCleared);
    c.pay_installment(1, party("BOB"), 9).unwrap();
    assert_eq!(c.get_commitment(1).unwrap().status, Status::Completed);
    assert_eq!(c.get_reputation(&party("BOB")), 2);
    c.release_lock();
    assert_eq!(c.pay_installment(1, party("BOB"), 9).unwrap_err(), MithaqError::NotInGoodStanding);
}

#[test]
fn installment_refusals() {
    let mut c = funded("CONS", 900);
    assert_eq!(c.pay_installment(1, party("BOB"), 1).unwrap_err(), MithaqError::NotTuition);
    let mut c = funded("TUIT", 900);
    assert_eq!(c.pay_installment(1, party("ALICE"), 1).unwrap_err(), MithaqError::UnauthorizedPayer);
    assert_eq!(c.pay_installment(1, party("BOB"), 10).unwrap_err(), MithaqError::InstallmentOutOfRange);
    assert_eq!(c.pay_installment(2, party("BOB"), 1).unwrap_err(), MithaqError::CommitmentNotFound);
}
