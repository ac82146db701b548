use bounty_escrow::{
    Address, BalanceQuery, BountyEscrowContract, Error, Escrow, EscrowStatus, Transfer,
};

const CONTRACT: Address = Address { id: 100 };
const ADMIN: Address = Address { id: 1 };
const TOKEN: Address = Address { id: 2 };
const DEPOSITOR: Address = Address { id: 3 };
const CONTRIBUTOR: Address = Address { id: 4 };
const STRANGER: Address = Address { id: 5 };

fn create_test_env() -> BountyEscrowContract {
    BountyEscrowContract::new(CONTRACT)
}

fn initialized() -> BountyEscrowContract {
    let mut c = create_test_env();
    assert_eq!(c.init(ADMIN, TOKEN), Ok(()));
    c
}

/// Runs a lock to completion, as one invocation does.
fn lock(c: &mut BountyEscrowContract, bounty_id: u64, amount: i128, deadline: u64, now: u64) {
    c.lock_funds(DEPOSITOR, bounty_id, amount, deadline, now).unwrap();
    c.complete();
}

#[test]
fn test_lock_fund() {
    let mut c = initialized();
    let bounty_id = 1;
    let amount = 1000;
    let deadline = 10;
    let t = c.lock_funds(DEPOSITOR, bounty_id, amount, deadline, 0);
    assert_eq!(t, Ok(Transfer { token: TOKEN, from: DEPOSITOR, to: CONTRACT, amount: 1000 }));
    assert!(c.is_guarded());
    c.complete();
    assert!(!c.is_guarded());
    assert_eq!(
        c.get_escrow_info(bounty_id),
        Ok(Escrow { depositor: DEPOSITOR, amount: 1000, status: EscrowStatus::Locked, deadline: 10 })
    );
}

#[test]
fn test_release_fund() {
    let mut c = initialized();
    let bounty_id = 1;
    lock(&mut c, bounty_id, 1000, 10, 0);
    let t = c.release_funds(bounty_id, CONTRIBUTOR, ADMIN);
    assert_eq!(t, Ok(Transfer { token: TOKEN, from: CONTRACT, to: CONTRIBUTOR, amount: 1000 }));
    c.complete();
    assert_eq!(c.get_escrow_info(bounty_id).unwrap().status, EscrowStatus::Released);
}

#[test]
fn test_lock_fund_invalid_amount() {
    let mut c = initialized();
    let r = c.lock_funds(DEPOSITOR, 1, 0, 100, 0);
    assert_eq!(r, Err(Error::InvalidAmount));
    assert_eq!(Error::InvalidAmount.code(), 8);
    assert_eq!(c.get_escrow_info(1), Err(Error::BountyNotFound));
    assert!(!c.is_guarded());
}

#[test]
fn test_lock_fund_invalid_deadline() {
    let mut c = initialized();
    let r = c.lock_funds(DEPOSITOR, 1, 1000, 0, 0);
    assert_eq!(r, Err(Error::InvalidDeadline));
    assert_eq!(Error::InvalidDeadline.code(), 9);
}

#[test]
fn test_lock_fund_max_amount() {
    let mut c = initialized();
    let t = c.lock_funds(DEPOSITOR, 1, i128::MAX, 10, 0).unwrap();
    assert_eq!(t.amount, i128::MAX);
    c.complete();
    assert_eq!(c.get_escrow_info(1).unwrap().amount, i128::MAX);
}

#[test]
fn test_lock_fund_min_deadline() {
    let mut c = initialized();
    assert!(c.lock_funds(DEPOSITOR, 1, 1000, 1, 0).is_ok());
}

#[test]
fn test_release_fund_non_existent() {
    let mut c = initialized();
    let r = c.release_funds(999, CONTRIBUTOR, ADMIN);
    assert_eq!(r, Err(Error::BountyNotFound));
    assert_eq!(Error::BountyNotFound.code(), 4);
}

#[test]
fn init_twice_fails() {
    let mut c = initialized();
    assert_eq!(c.init(STRANGER, STRANGER), Err(Error::AlreadyInitialized));
    assert_eq!(c.get_balance(), Ok(BalanceQuery { token: TOKEN, owner: CONTRACT }));
}

#[test]
fn uninitialized_contract_refuses() {
    let mut c = create_test_env();
    assert_eq!(c.lock_funds(DEPOSITOR, 1, 1000, 10, 0), Err(Error::NotInitialized));
    assert_eq!(c.release_funds(1, CONTRIBUTOR, ADMIN), Err(Error::NotInitialized));
    assert_eq!(c.refund(1, 10), Err(Error::BountyNotFound));
    assert_eq!(c.get_balance(), Err(Error::NotInitialized));
}

#[test]
fn lock_round_trips_through_info() {
    let mut c = initialized();
    lock(&mut c, 77, 250, 5000, 4999);
    assert_eq!(
        c.get_escrow_info(77),
        Ok(Escrow { depositor: DEPOSITOR, amount: 250, status: EscrowStatus::Locked, deadline: 5000 })
    );
}

#[test]
fn lock_twice_keeps_first_record() {
    let mut c = initialized();
    lock(&mut c, 5, 1000, 10, 0);
    assert_eq!(c.lock_funds(STRANGER, 5, 7, 20, 0), Err(Error::BountyExists));
    assert!(!c.is_guarded());
    assert_eq!(
        c.get_escrow_info(5),
        Ok(Escrow { depositor: DEPOSITOR, amount: 1000, status: EscrowStatus::Locked, deadline: 10 })
    );
}

#[test]
fn release_of_refunded_record_fails() {
    let mut c = initialized();
    lock(&mut c, 5, 1000, 10, 0);
    c.refund(5, 10).unwrap();
    c.complete();
    assert_eq!(c.release_funds(5, CONTRIBUTOR, ADMIN), Err(Error::FundsNotLocked));
    assert_eq!(c.release_funds(5, CONTRIBUTOR, STRANGER), Err(Error::Unauthorized));
}

#[test]
fn release_by_non_admin_is_unauthorized() {
    let mut c = initialized();
    lock(&mut c, 5, 1000, 10, 0);
    assert_eq!(c.release_funds(5, CONTRIBUTOR, STRANGER), Err(Error::Unauthorized));
    assert_eq!(c.release_funds(6, CONTRIBUTOR, STRANGER), Err(Error::Unauthorized));
    assert!(!c.is_guarded());
    assert_eq!(c.get_escrow_info(5).unwrap().status, EscrowStatus::Locked);
}

#[test]
fn refund_at_deadline_boundary() {
    let mut c = initialized();
    lock(&mut c, 9, 300, 50, 0);
    assert_eq!(c.refund(9, 49), Err(Error::DeadlineNotPassed));
    assert_eq!(Error::DeadlineNotPassed.code(), 6);
    assert_eq!(
        c.refund(9, 50),
        Ok(Transfer { token: TOKEN, from: CONTRACT, to: DEPOSITOR, amount: 300 })
    );
}

#[test]
fn no_second_payout() {
    let mut c = initialized();
    lock(&mut c, 1, 1000, 10, 0);
    lock(&mut c, 2, 2000, 10, 0);
    c.release_funds(1, CONTRIBUTOR, ADMIN).unwrap();
    c.complete();
    c.refund(2, 10).unwrap();
    c.complete();
    for id in [1u64, 2] {
        assert_eq!(c.release_funds(id, CONTRIBUTOR, ADMIN), Err(Error::FundsNotLocked));
        assert_eq!(c.refund(id, u64::MAX), Err(Error::FundsNotLocked));
    }
    assert_eq!(Error::FundsNotLocked.code(), 5);
}

#[test]
fn release_scenario_pays_beneficiary() {
    let a = Address { id: 10 };
    let t = Address { id: 11 };
    let d = Address { id: 12 };
    let b = Address { id: 13 };
    let now = 1_000;
    let mut c = BountyEscrowContract::new(CONTRACT);
    c.init(a, t).unwrap();
    c.lock_funds(d, 42, 1000, now + 100, now).unwrap();
    c.complete();
    let pay = c.release_funds(42, b, a).unwrap();
    assert_eq!(pay, Transfer { token: t, from: CONTRACT, to: b, amount: 1000 });
    c.complete();
    assert_eq!(c.get_escrow_info(42).unwrap().status, EscrowStatus::Released);
    assert_eq!(c.release_funds(42, b, a), Err(Error::FundsNotLocked));
}

#[test]
fn refund_scenario_by_anyone() {
    let d = Address { id: 12 };
    let now = 500;
    let mut c = initialized();
    c.lock_funds(d, 7, 500, now + 1, now).unwrap();
    c.complete();
    let pay = c.refund(7, now + 2).unwrap();
    assert_eq!(pay, Transfer { token: TOKEN, from: CONTRACT, to: d, amount: 500 });
    c.complete();
    assert_eq!(c.get_escrow_info(7).unwrap().status, EscrowStatus::Refunded);
}

#[test]
fn error_codes() {
    let all = [
        Error::AlreadyInitialized,
        Error::NotInitialized,
        Error::BountyExists,
        Error::BountyNotFound,
        Error::FundsNotLocked,
        Error::DeadlineNotPassed,
        Error::Unauthorized,
        Error::InvalidAmount,
        Error::InvalidDeadline,
    ];
    for (i, e) in all.iter().enumerate() {
        assert_eq!(e.code(), i as u32 + 1);
    }
}
