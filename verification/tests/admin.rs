use mithaq::contract::MithaqContract;
use mithaq::events::{Action, Event};
use mithaq::party::Party;
use mithaq::types::MithaqError;

fn party(s: &str) -> Party {
    Party::new(s.as_bytes().to_vec())
}

fn initialized() -> MithaqContract {
    let mut c = MithaqContract::new();
    c.initialize(
        party("ADMIN"),
        party("PISERVER"),
        party("TOKEN"),
        party("REGISTRY"),
        party("PLATFORM"),
        party("RESERVE"),
        party("DAO"),
        10,
    )
    .unwrap();
    c
}

#[test]
fn admin_replaces_wallets() {
    let mut c = initialized();
    let acts = c.update_platform_wallet(&party("ADMIN"), party("PLAT2")).unwrap();
    assert!(matches!(&acts[0], Action::Publish(Event::PlatformWalletUpdated(p)) if p.key == b"PLAT2".to_vec()));
    assert!(matches!(&acts[0], Action::Publish(e) if e.topic() == "upd_plat"));
    assert_eq!(c.get_platform_wallet().unwrap().key, b"PLAT2".to_vec());
    c.release_lock();
    c.update_reserve_wallet(&party("ADMIN"), party("RES2")).unwrap();
    c.release_lock();
    c.update_dao_wallet(&party("ADMIN"), party("DAO2")).unwrap();
    c.release_lock();
    assert_eq!(c.get_reserve_wallet().unwrap().key, b"RES2".to_vec());
    assert_eq!(c.get_dao_wallet().unwrap().key, b"DAO2".to_vec());
    assert_eq!(c.get_admin().unwrap().key, b"ADMIN".to_vec());
}

#[test]
fn only_admin_replaces_wallets() {
    let mut c = initialized();
    assert_eq!(c.update_dao_wallet(&party("EVE"), party("X")).unwrap_err(), MithaqError::Unauthorized);
    assert_eq!(c.get_dao_wallet().unwrap().key, b"DAO".to_vec());
    let mut fresh = MithaqContract::new();
    assert_eq!(fresh.update_dao_wallet(&party("ADMIN"), party("X")).unwrap_err(), MithaqError::NotInitialized);
    assert_eq!(fresh.admin_force_unlock(&party("ADMIN")).unwrap_err(), MithaqError::NotInitialized);
}

#[test]
fn wallet_update_is_refused_while_locked() {
    let mut c = initialized();
    c.update_platform_wallet(&party("ADMIN"), party("P2")).unwrap();
    assert_eq!(
        c.update_platform_wallet(&party("ADMIN"), party("P3")).unwrap_err(),
        MithaqError::ReentrancyDetected
    );
    assert_eq!(c.get_platform_wallet().unwrap().key, b"P2".to_vec());
}
