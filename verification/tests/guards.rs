use rental::collection::verify_collection;
use rental::collection::CollectionData;
use rental::emergency_exit::EmergencyExit;
use rental::end_rental::rental_period_elapsed;
use rental::end_rental::EndRental;
use rental::errors::ErrorCode;
use rental::ledger;
use rental::ledger::Balances;
use rental::list_car::ListCar;
use rental::rent_car::RentCar;
use rental::rental_state::RentalState;
use rental::rental_state::StatusData;

const OWNER: u64 = 1;
const RENTER: u64 = 9;
const ARBITRATOR: u64 = 4;
const ASSET: u64 = 2;
const COLLECTION: u64 = 7;
const BUMP: u8 = 3;

fn verified_metadata() -> Option<CollectionData> {
    Some(CollectionData {
        collection: COLLECTION,
        verified: true,
    })
}

fn fresh_record() -> RentalState {
    RentalState {
        owner: 0,
        renter: None,
        car_nft_mint: 0,
        rent_fee: 0,
        rental_duration: None,
        rental_start_time: None,
        deposit_amount: 0,
        rental_bump: 0,
        listed: false,
        rented: false,
        status: StatusData::Active,
        dispute_caller: None,
    }
}

fn listed_record(rent_fee: u64, deposit_amount: u64) -> RentalState {
    RentalState {
        owner: OWNER,
        renter: None,
        car_nft_mint: ASSET,
        rent_fee,
        rental_duration: None,
        rental_start_time: None,
        deposit_amount,
        rental_bump: BUMP,
        listed: true,
        rented: false,
        status: StatusData::Active,
        dispute_caller: None,
    }
}

fn mid_rental_record() -> RentalState {
    RentalState {
        owner: OWNER,
        renter: Some(RENTER),
        car_nft_mint: ASSET,
        rent_fee: 100,
        rental_duration: Some(86400),
        rental_start_time: Some(1000),
        deposit_amount: 50,
        rental_bump: BUMP,
        listed: true,
        rented: true,
        status: StatusData::Active,
        dispute_caller: None,
    }
}

fn mid_rental_balances() -> Balances {
    Balances {
        owner_asset: 0,
        vault_asset: 1,
        owner_funds: 0,
        renter_funds: 50,
        vault_funds: 150,
    }
}

fn rent_context(rental_state: RentalState, renter_funds: u64) -> RentCar {
    RentCar {
        renter: RENTER,
        owner: OWNER,
        rental_state,
        balances: Balances {
            owner_asset: 0,
            vault_asset: 1,
            owner_funds: 0,
            renter_funds,
            vault_funds: 0,
        },
        now: 1000,
    }
}

#[test]
fn rent_rejects_unlisted_record_unchanged() {
    let mut record = listed_record(100, 50);
    record.listed = false;
    let mut rc = rent_context(record, 200);
    let before = rc;
    assert_eq!(rental::rent_car(&mut rc, 86400), Err(ErrorCode::CarNotListed));
    assert_eq!(rc, before);
}

#[test]
fn rent_rejects_running_rental_unchanged() {
    let mut rc = rent_context(mid_rental_record(), 200);
    rc.balances = mid_rental_balances();
    let before = rc;
    assert_eq!(rental::rent_car(&mut rc, 86400), Err(ErrorCode::CarAlreadyRented));
    assert_eq!(rc, before);
}

#[test]
fn rent_rejects_finalized_record_unchanged() {
    let mut ee = EmergencyExit {
        owner: OWNER,
        renter: RENTER,
        arbitrator: ARBITRATOR,
        collection_mint: COLLECTION,
        metadata: verified_metadata(),
        rental_state: mid_rental_record(),
        balances: mid_rental_balances(),
    };
    assert_eq!(rental::emergency_exit(&mut ee, 30, 100), Ok(()));
    assert_eq!(ee.rental_state.status, StatusData::Finished);
    let mut rc = rent_context(ee.rental_state, 200);
    let before = rc;
    assert_eq!(rental::rent_car(&mut rc, 86400), Err(ErrorCode::CarNotListed));
    assert_eq!(rc, before);
}

#[test]
fn rent_aborts_on_fee_overflow_before_any_transfer() {
    let mut rc = rent_context(listed_record(u64::MAX, 1), 200);
    let before = rc;
    assert_eq!(rental::rent_car(&mut rc, 86400), Err(ErrorCode::ValueOverflow));
    assert_eq!(rc, before);
}

#[test]
fn rent_rejects_short_renter_balance() {
    let mut rc = rent_context(listed_record(100, 50), 149);
    let before = rc;
    assert_eq!(rental::rent_car(&mut rc, 86400), Err(ErrorCode::InsufficientFunds));
    assert_eq!(rc, before);
}

fn end_context(renter: u64, now: i64) -> EndRental {
    EndRental {
        owner: OWNER,
        renter,
        collection_mint: COLLECTION,
        metadata: verified_metadata(),
        rental_state: mid_rental_record(),
        balances: mid_rental_balances(),
        now,
    }
}

#[test]
fn end_rejects_wrong_renter_regardless_of_time() {
    let mut er = end_context(RENTER + 1, i64::MAX);
    let before = er;
    assert_eq!(rental::end_rental(&mut er), Err(ErrorCode::InvalidRenter));
    assert_eq!(er, before);
}

#[test]
fn end_rejects_settlement_before_start() {
    let mut er = end_context(RENTER, 999);
    let before = er;
    assert_eq!(rental::end_rental(&mut er), Err(ErrorCode::RentalPeriodNotEnd));
    assert_eq!(er, before);
}

#[test]
fn list_rejects_missing_attestation_before_any_transfer() {
    let mut lc = ListCar {
        owner: OWNER,
        car_nft_mint: ASSET,
        collection_mint: COLLECTION,
        metadata: None,
        bump: BUMP,
        rental_state: fresh_record(),
        balances: Balances {
            owner_asset: 1,
            vault_asset: 0,
            owner_funds: 0,
            renter_funds: 0,
            vault_funds: 0,
        },
    };
    let before = lc;
    assert_eq!(rental::list_car(&mut lc, 100, 50), Err(ErrorCode::MissingCollection));
    assert_eq!(lc, before);
}

#[test]
fn list_rejects_owner_without_the_asset() {
    let mut lc = ListCar {
        owner: OWNER,
        car_nft_mint: ASSET,
        collection_mint: COLLECTION,
        metadata: verified_metadata(),
        bump: BUMP,
        rental_state: fresh_record(),
        balances: Balances {
            owner_asset: 0,
            vault_asset: 0,
            owner_funds: 0,
            renter_funds: 0,
            vault_funds: 0,
        },
    };
    let before = lc;
    assert_eq!(rental::list_car(&mut lc, 100, 50), Err(ErrorCode::InsufficientFunds));
    assert_eq!(lc, before);
}

#[test]
fn collection_guard_reports_each_violation() {
    assert_eq!(verify_collection(&None, COLLECTION), Err(ErrorCode::MissingCollection));
    let wrong = Some(CollectionData {
        collection: COLLECTION + 1,
        verified: true,
    });
    assert_eq!(verify_collection(&wrong, COLLECTION), Err(ErrorCode::InvalidCollection));
    let unverified = Some(CollectionData {
        collection: COLLECTION,
        verified: false,
    });
    assert_eq!(verify_collection(&unverified, COLLECTION), Err(ErrorCode::UnverifiedCollection));
    assert_eq!(verify_collection(&verified_metadata(), COLLECTION), Ok(()));
}

#[test]
fn exit_aborts_on_escrow_total_overflow() {
    let mut record = mid_rental_record();
    record.rent_fee = u64::MAX;
    record.deposit_amount = 1;
    let mut ee = EmergencyExit {
        owner: OWNER,
        renter: RENTER,
        arbitrator: ARBITRATOR,
        collection_mint: COLLECTION,
        metadata: verified_metadata(),
        rental_state: record,
        balances: mid_rental_balances(),
    };
    let before = ee;
    assert_eq!(rental::emergency_exit(&mut ee, 1, 1), Err(ErrorCode::ValueOverflow));
    assert_eq!(ee, before);
}

#[test]
fn exit_rejects_overflowing_payout_pair() {
    let mut ee = EmergencyExit {
        owner: OWNER,
        renter: RENTER,
        arbitrator: ARBITRATOR,
        collection_mint: COLLECTION,
        metadata: verified_metadata(),
        rental_state: mid_rental_record(),
        balances: mid_rental_balances(),
    };
    let before = ee;
    assert_eq!(rental::emergency_exit(&mut ee, u64::MAX, 1), Err(ErrorCode::InvalidPayout));
    assert_eq!(ee, before);
}

#[test]
fn exit_fails_when_vault_cannot_cover_split() {
    let mut ee = EmergencyExit {
        owner: OWNER,
        renter: RENTER,
        arbitrator: ARBITRATOR,
        collection_mint: COLLECTION,
        metadata: verified_metadata(),
        rental_state: listed_record(100, 50),
        balances: Balances {
            owner_asset: 0,
            vault_asset: 1,
            owner_funds: 0,
            renter_funds: 0,
            vault_funds: 0,
        },
    };
    let before = ee;
    assert_eq!(rental::emergency_exit(&mut ee, 30, 100), Err(ErrorCode::InsufficientFunds));
    assert_eq!(ee, before);
}

#[test]
fn end_rejects_unverified_attestation_unchanged() {
    let mut er = end_context(RENTER, 2000);
    er.metadata = Some(CollectionData {
        collection: COLLECTION,
        verified: false,
    });
    let before = er;
    assert_eq!(rental::end_rental(&mut er), Err(ErrorCode::UnverifiedCollection));
    assert_eq!(er, before);
}

#[test]
fn exit_rejects_foreign_attestation_unchanged() {
    let mut ee = EmergencyExit {
        owner: OWNER,
        renter: RENTER,
        arbitrator: ARBITRATOR,
        collection_mint: COLLECTION,
        metadata: Some(CollectionData {
            collection: COLLECTION + 1,
            verified: true,
        }),
        rental_state: mid_rental_record(),
        balances: mid_rental_balances(),
    };
    let before = ee;
    assert_eq!(rental::emergency_exit(&mut ee, 30, 100), Err(ErrorCode::InvalidCollection));
    assert_eq!(ee, before);
}

#[test]
fn finished_record_cannot_release_the_asset_twice() {
    let mut ee = EmergencyExit {
        owner: OWNER,
        renter: RENTER,
        arbitrator: ARBITRATOR,
        collection_mint: COLLECTION,
        metadata: verified_metadata(),
        rental_state: mid_rental_record(),
        balances: mid_rental_balances(),
    };
    assert_eq!(rental::emergency_exit(&mut ee, 30, 100), Ok(()));
    assert_eq!(ee.rental_state.status, StatusData::Finished);
    let before = ee;
    assert_eq!(rental::emergency_exit(&mut ee, 10, 10), Err(ErrorCode::InsufficientFunds));
    assert_eq!(ee, before);
}

#[test]
fn ledger_transfer_moves_or_refuses_atomically() {
    let mut from: u64 = 100;
    let mut to: u64 = 5;
    assert_eq!(ledger::transfer(30, &mut from, &mut to), Ok(()));
    assert_eq!(from, 70);
    assert_eq!(to, 35);
    assert_eq!(ledger::transfer(71, &mut from, &mut to), Err(ErrorCode::InsufficientFunds));
    assert_eq!(from, 70);
    assert_eq!(to, 35);
    let mut full: u64 = u64::MAX;
    assert_eq!(ledger::transfer(1, &mut from, &mut full), Err(ErrorCode::ValueOverflow));
    assert_eq!(from, 70);
    assert_eq!(full, u64::MAX);
}

#[test]
fn period_guard_is_testable_in_both_readings() {
    assert!(rental_period_elapsed(100, 50, 120, false));
    assert!(!rental_period_elapsed(100, 50, 120, true));
    assert!(rental_period_elapsed(100, 50, 150, true));
    assert!(!rental_period_elapsed(100, 50, 99, false));
    assert!(!rental_period_elapsed(i64::MAX, 1, i64::MAX, true));
    assert!(rental_period_elapsed(i64::MIN, -1, i64::MIN, true));
}

#[test]
fn update_state_writes_the_fresh_record() {
    let mut lc = ListCar {
        owner: OWNER,
        car_nft_mint: ASSET,
        collection_mint: COLLECTION,
        metadata: verified_metadata(),
        bump: BUMP,
        rental_state: mid_rental_record(),
        balances: Balances {
            owner_asset: 1,
            vault_asset: 0,
            owner_funds: 0,
            renter_funds: 0,
            vault_funds: 0,
        },
    };
    let before_balances = lc.balances;
    assert_eq!(lc.update_state(100, 50, BUMP), Ok(()));
    assert_eq!(lc.rental_state, listed_record(100, 50));
    assert_eq!(lc.balances, before_balances);
}

#[test]
fn transfer_nft_escrows_exactly_one_asset_token() {
    let mut lc = ListCar {
        owner: OWNER,
        car_nft_mint: ASSET,
        collection_mint: COLLECTION,
        metadata: verified_metadata(),
        bump: BUMP,
        rental_state: listed_record(100, 50),
        balances: Balances {
            owner_asset: 1,
            vault_asset: 0,
            owner_funds: 0,
            renter_funds: 0,
            vault_funds: 0,
        },
    };
    assert_eq!(lc.transfer_nft(), Ok(()));
    assert_eq!(lc.balances.owner_asset, 0);
    assert_eq!(lc.balances.vault_asset, 1);
    let before = lc;
    assert_eq!(lc.transfer_nft(), Err(ErrorCode::InsufficientFunds));
    assert_eq!(lc, before);
}

#[test]
fn derived_authority_names_the_record_identity() {
    let record = mid_rental_record();
    let authority = record.derive_authority();
    assert_eq!(authority.car_nft_mint, ASSET);
    assert_eq!(authority.owner, OWNER);
    assert_eq!(authority.bump, BUMP);
}
