use mithaq::contract::MithaqContract;
use mithaq::events::{Action, Event, Holder};
use mithaq::party::Party;
use mithaq::tag::Tag;
use mithaq::types::{CommitmentParams, DisputeStatus, MithaqError, ReputationEntry, Status};

const NOW: u64 = 1_000;

fn party(s: &str) -> Party {
    Party::new(s.as_bytes().to_vec())
}

fn tag(s: &str) -> Tag {
    Tag::new(s.as_bytes().to_vec())
}

fn funded(dp: i128) -> MithaqContract {
    let mut c = MithaqContract::new();
    c.initialize(
        party("ADMIN"),
        party("PISERVER"),
        party("TOKEN"),
        party("REGISTRY"),
        party("PLATFORM"),
        party("RESERVE"),
        party("DAO"),
        NOW,
    )
    .unwrap();
    let p = CommitmentParams {
        original_value: 2 * dp,
        net_value: 2 * dp,
        down_payment: dp,
        contract_type: tag("GOOD"),
        deadline: NOW + 100,
        pi_payment_id: b"pay".to_vec(),
        first_release_amount: 0,
        second_release_amount: 2 * dp,
        legal_doc_hash: b"doc".to_vec(),
    };
    c.create_commitment(party("ALICE"), party("BOB"), p, NOW).unwrap();
    c.release_lock();
    c.accept(1, party("BOB"), &b"doc".to_vec(), NOW).unwrap();
    c.release_lock();
    c
}

#[test]
fn open_dispute_freezes_commitment() {
    let mut c = funded(1000);
    assert_eq!(c.open_dispute(1, party("CAROL"), b"r".to_vec(), NOW).unwrap_err(), MithaqError::NoStanding);
    let (did, acts) = c.open_dispute(1, party("BOB"), b"late".to_vec(), NOW + 3).unwrap();
    assert_eq!(did, 1);
    assert!(matches!(&acts[0], Action::Publish(Event::DisputeOpened(e))
        if e.dispute_id == 1 && e.contract_id == 1 && e.by.key == b"BOB".to_vec() && e.reason == b"late".to_vec()));
    assert_eq!(c.get_commitment(1).unwrap().status, Status::Disputed);
    let d = &c.disputes[0];
    assert_eq!(d.id, 1);
    assert_eq!(d.plaintiff.key, b"BOB".to_vec());
    assert_eq!(d.defendant.key, b"ALICE".to_vec());
    assert_eq!(d.status, DisputeStatus::Open);
    assert_eq!(d.penalty.text, b"PENDING".to_vec());
    assert_eq!(d.opened_at, NOW + 3);
    c.release_lock();
    assert_eq!(c.open_dispute(1, party("ALICE"), b"r".to_vec(), NOW).unwrap_err(), MithaqError::IneligibleState);
    assert_eq!(c.open_dispute(5, party("ALICE"), b"r".to_vec(), NOW).unwrap_err(), MithaqError::CommitmentNotFound);
}

#[test]
fn fraud_forfeits_half_and_splits_it() {
    let mut c = funded(1000);
    c.open_dispute(1, party("ALICE"), b"fraud".to_vec(), NOW).unwrap();
    c.release_lock();
    c.reputations.push(ReputationEntry { party: party("BOB"), points: 30 });
    let acts = c.resolve_dispute(1, party("ALICE"), b"verdict".to_vec(), tag("FRAU"), NOW + 9).unwrap();
    // certificate, three forfeiture transfers, forfeiture event, fees, payout, resolution event
    assert_eq!(acts.len(), 8);
    assert!(matches!(&acts[0], Action::IssueCertificate { commitment_id: 1, imprint, .. }
        if imprint.text() == "Mithaq Dispute-Resolved"));
    assert!(matches!(&acts[1], Action::Transfer { from: Holder::Contract, to: Holder::Account(p), amount: 250 }
        if p.key == b"PLATFORM".to_vec()));
    assert!(matches!(&acts[2], Action::Transfer { to: Holder::Account(p), amount: 200, .. } if p.key == b"RESERVE".to_vec()));
    assert!(matches!(&acts[3], Action::Transfer { to: Holder::Account(p), amount: 50, .. } if p.key == b"DAO".to_vec()));
    assert!(matches!(&acts[4], Action::Publish(Event::ForfeitureDistributed(e))
        if e.total == 500 && e.platform == 250 && e.reserve == 200 && e.dao == 50));
    assert!(matches!(&acts[5], Action::DistributeFees { fees: 20, .. }));
    assert!(matches!(&acts[6], Action::Transfer { to: Holder::Account(p), amount: 480, .. } if p.key == b"ALICE".to_vec()));
    assert!(matches!(&acts[7], Action::Publish(Event::DisputeResolved(e)) if e.payout == 480 && e.dispute_id == 1));
    assert_eq!(c.get_reputation(&party("BOB")), 20);
    assert_eq!(c.get_reputation(&party("ALICE")), 2);
    let got = c.get_commitment(1).unwrap();
    assert_eq!(got.status, Status::Completed);
    assert_eq!(got.escrow_balance, 0);
    assert_eq!(c.get_total_escrow(), 0);
    assert_eq!(c.disputes[0].status, DisputeStatus::Arbitrated);
    assert_eq!(c.disputes[0].penalty.text, b"FRAU".to_vec());
    assert_eq!(c.disputes[0].resolved_at, NOW + 9);
    c.release_lock();
    let err = c.resolve_dispute(1, party("ALICE"), b"again".to_vec(), tag("FRAU"), NOW).unwrap_err();
    assert_eq!(err, MithaqError::CaseClosed);
}

#[test]
fn breach_forfeits_a_fifth_and_neglect_nothing() {
    let mut c = funded(1000);
    c.open_dispute(1, party("ALICE"), b"r".to_vec(), NOW).unwrap();
    c.release_lock();
    let acts = c.resolve_dispute(1, party("BOB"), b"v".to_vec(), tag("BREA"), NOW).unwrap();
    assert!(matches!(&acts[4], Action::Publish(Event::ForfeitureDistributed(e)) if e.total == 200 && e.dao == 20));
    // 800 remain, 4% fee = 32
    assert!(matches!(&acts[6], Action::Transfer { to: Holder::Account(p), amount: 768, .. } if p.key == b"BOB".to_vec()));
    assert_eq!(c.get_reputation(&party("ALICE")), 0);

    let mut c = funded(1000);
    c.open_dispute(1, party("ALICE"), b"r".to_vec(), NOW).unwrap();
    c.release_lock();
    let acts = c.resolve_dispute(1, party("BOB"), b"v".to_vec(), tag("NEGL"), NOW).unwrap();
    assert_eq!(acts.len(), 4);
    assert!(matches!(&acts[1], Action::DistributeFees { fees: 40, .. }));
    assert!(matches!(&acts[2], Action::Transfer { amount: 960, .. }));
}

#[test]
fn resolve_refusals() {
    let mut c = funded(1000);
    assert_eq!(
        c.resolve_dispute(1, party("ALICE"), b"v".to_vec(), tag("FRAU"), NOW).unwrap_err(),
        MithaqError::DisputeNotFound
    );
    c.open_dispute(1, party("ALICE"), b"r".to_vec(), NOW).unwrap();
    c.release_lock();
    assert_eq!(
        c.resolve_dispute(1, party("CAROL"), b"v".to_vec(), tag("FRAU"), NOW).unwrap_err(),
        MithaqError::WinnerNotAParty
    );
    let mut fresh = MithaqContract::new();
    assert_eq!(
        fresh.resolve_dispute(1, party("ALICE"), b"v".to_vec(), tag("FRAU"), NOW).unwrap_err(),
        MithaqError::NotInitialized
    );
}

fn outflow(acts: &[Action]) -> i128 {
    acts.iter()
        .map(|a| match a {
            Action::Transfer { from, to, amount } => {
                let out = if matches!(from, Holder::Contract) { *amount } else { 0 };
                let inn = if matches!(to, Holder::Contract) { *amount } else { 0 };
                out - inn
            },
            Action::DistributeFees { fees, .. } => *fees,
            _ => 0,
        })
        .sum()
}

#[test]
fn payments_match_escrow_decrease() {
    let mut c = funded(1000);
    let before = c.get_total_escrow();
    c.open_dispute(1, party("ALICE"), b"r".to_vec(), NOW).unwrap();
    c.release_lock();
    let acts = c.resolve_dispute(1, party("ALICE"), b"v".to_vec(), tag("FRAU"), NOW).unwrap();
    assert_eq!(outflow(&acts), before - c.get_total_escrow());
    assert_eq!(outflow(&acts), 1000);

    let mut c = funded(999);
    let before = c.get_total_escrow();
    c.open_dispute(1, party("BOB"), b"r".to_vec(), NOW).unwrap();
    c.release_lock();
    let acts = c.resolve_dispute(1, party("BOB"), b"v".to_vec(), tag("BREA"), NOW).unwrap();
    assert_eq!(outflow(&acts), before - c.get_total_escrow());
}
