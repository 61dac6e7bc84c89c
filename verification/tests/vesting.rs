use custody::auth::AuthContext;
use custody::errors::Error;
use custody::movement::Transfer;
use custody::vesting_escrow::VestingContract;

const FUNDER: u64 = 1;
const BENEFICIARY: u64 = 2;
const CLAWBACK_ADMIN: u64 = 3;
const TOKEN: u64 = 10;
const CONTRACT: u64 = 100;

fn all_auths() -> AuthContext {
    AuthContext { authorized: vec![FUNDER, BENEFICIARY, CLAWBACK_ADMIN] }
}

#[test]
fn test_vesting_flow() {
    let auth = all_auths();
    let mut contract = VestingContract::new(CONTRACT);

    // Token balances, tracked as the host's ledger would.
    let mut funder_bal: i128 = 10000;
    let mut beneficiary_bal: i128 = 0;
    let mut admin_bal: i128 = 0;
    let mut contract_bal: i128 = 0;

    let start_time: u64 = 0;
    let cliff_seconds: u64 = 100;
    let duration_seconds: u64 = 1000;
    let amount: i128 = 10000;

    // Initialize
    let t = contract
        .initialize(
            &auth,
            FUNDER,
            BENEFICIARY,
            TOKEN,
            start_time,
            cliff_seconds,
            duration_seconds,
            amount,
            CLAWBACK_ADMIN,
        )
        .unwrap();
    assert_eq!(t, Transfer { token: TOKEN, from: FUNDER, to: CONTRACT, amount: 10000 });
    funder_bal -= t.amount;
    contract_bal += t.amount;

    // Verify init state
    let config = contract.get_config().unwrap();
    assert_eq!(config.total_amount, amount);
    assert_eq!(config.is_active, true);

    // Check contract balance
    assert_eq!(contract_bal, 10000);
    assert_eq!(funder_bal, 0);

    // 1. Check before cliff (time = start)
    assert_eq!(contract.get_vested_amount(start_time).unwrap(), 0);
    assert_eq!(contract.get_claimable_amount(start_time).unwrap(), 0);

    // 2. Advance time past cliff (time = start + 200)
    // 200 / 1000 = 20% vested
    let vested = contract.get_vested_amount(start_time + 200).unwrap();
    let expected_vested: i128 = 10000 * 200 / 1000; // 2000
    assert_eq!(vested, expected_vested);
    assert_eq!(contract.get_claimable_amount(start_time + 200).unwrap(), expected_vested);

    // 3. Claim
    let t = contract.claim(&auth, start_time + 200).unwrap().unwrap();
    assert_eq!(t, Transfer { token: TOKEN, from: CONTRACT, to: BENEFICIARY, amount: 2000 });
    contract_bal -= t.amount;
    beneficiary_bal += t.amount;

    // Verify claim
    assert_eq!(beneficiary_bal, expected_vested);
    assert_eq!(contract.get_claimable_amount(start_time + 200).unwrap(), 0);
    let config_after_claim = contract.get_config().unwrap();
    assert_eq!(config_after_claim.claimed_amount, expected_vested);

    // 4. Advance time more (time = start + 500)
    // 500 / 1000 = 50% vested (total 5000)
    let vested_2 = contract.get_vested_amount(start_time + 500).unwrap();
    assert_eq!(vested_2, 5000);
    // Claimable = 5000 - 2000 (already claimed) = 3000
    assert_eq!(contract.get_claimable_amount(start_time + 500).unwrap(), 3000);

    // 5. Clawback
    // Vested so far = 5000. Unvested = 5000.
    // Contract balance = 10000 - 2000 (claimed) = 8000.
    // Clawback sends 5000 to the admin; the contract keeps 3000 (claimable).
    let t = contract.clawback(&auth, start_time + 500).unwrap().unwrap();
    assert_eq!(t, Transfer { token: TOKEN, from: CONTRACT, to: CLAWBACK_ADMIN, amount: 5000 });
    contract_bal -= t.amount;
    admin_bal += t.amount;

    // Check admin balance
    assert_eq!(admin_bal, 5000);

    // Check contract balance: 8000 - 5000 = 3000
    assert_eq!(contract_bal, 3000);

    // Verify config update
    let config_revoked = contract.get_config().unwrap();
    assert_eq!(config_revoked.is_active, false);
    assert_eq!(config_revoked.total_amount, 5000); // Capped at vested amount

    // 6. Advance time to end: vested stays 5000 (capped)
    assert_eq!(contract.get_vested_amount(start_time + 2000).unwrap(), 5000);

    // Beneficiary can claim the rest of vested tokens (3000)
    let t = contract.claim(&auth, start_time + 2000).unwrap().unwrap();
    assert_eq!(t, Transfer { token: TOKEN, from: CONTRACT, to: BENEFICIARY, amount: 3000 });
    contract_bal -= t.amount;
    beneficiary_bal += t.amount;
    assert_eq!(beneficiary_bal, 2000 + 3000);
    assert_eq!(contract_bal, 0);
}

fn initialized(start: u64, cliff: u64, duration: u64, amount: i128) -> VestingContract {
    let mut contract = VestingContract::new(CONTRACT);
    contract
        .initialize(&all_auths(), FUNDER, BENEFICIARY, TOKEN, start, cliff, duration, amount, CLAWBACK_ADMIN)
        .unwrap();
    contract
}

#[test]
fn test_initialize_rejections() {
    let auth = all_auths();
    let mut contract = initialized(0, 100, 1000, 10000);
    let again = contract
        .initialize(&auth, FUNDER, BENEFICIARY, TOKEN, 0, 100, 1000, 10000, CLAWBACK_ADMIN);
    assert_eq!(again, Err(Error::AlreadyInitialized));

    let mut fresh = VestingContract::new(CONTRACT);
    let unauthorized = AuthContext { authorized: vec![BENEFICIARY] };
    let r = fresh
        .initialize(&unauthorized, FUNDER, BENEFICIARY, TOKEN, 0, 100, 1000, 10000, CLAWBACK_ADMIN);
    assert_eq!(r, Err(Error::Unauthorized));

    let r = fresh.initialize(&auth, FUNDER, BENEFICIARY, TOKEN, 0, 200, 100, 10000, CLAWBACK_ADMIN);
    assert_eq!(r, Err(Error::InvalidSchedule));

    let r = fresh.initialize(&auth, FUNDER, BENEFICIARY, TOKEN, 0, 100, 1000, 0, CLAWBACK_ADMIN);
    assert_eq!(r, Err(Error::InvalidAmount));

    // Nothing was written by the failed attempts.
    assert_eq!(fresh.get_config(), Err(Error::NotInitialized));
}

#[test]
fn test_uninitialized_queries() {
    let auth = all_auths();
    let mut fresh = VestingContract::new(CONTRACT);
    assert_eq!(fresh.get_vested_amount(0), Err(Error::NotInitialized));
    assert_eq!(fresh.get_claimable_amount(0), Err(Error::NotInitialized));
    assert_eq!(fresh.get_config(), Err(Error::NotInitialized));
    assert_eq!(fresh.claim(&auth, 0), Err(Error::NotInitialized));
    assert_eq!(fresh.clawback(&auth, 0), Err(Error::NotInitialized));
}

#[test]
fn test_claim_no_op_before_cliff() {
    let auth = all_auths();
    let mut contract = initialized(0, 100, 1000, 10000);
    // Nothing accrued yet: a deliberate no-op, no transfer, no state change.
    assert_eq!(contract.claim(&auth, 50), Ok(None));
    assert_eq!(contract.get_config().unwrap().claimed_amount, 0);
}

#[test]
fn test_claim_requires_beneficiary() {
    let mut contract = initialized(0, 100, 1000, 10000);
    let funder_only = AuthContext { authorized: vec![FUNDER] };
    assert_eq!(contract.claim(&funder_only, 500), Err(Error::Unauthorized));
    assert_eq!(contract.clawback(&funder_only, 500), Err(Error::Unauthorized));
}

#[test]
fn test_clawback_twice() {
    let auth = all_auths();
    let mut contract = initialized(0, 100, 1000, 10000);
    contract.clawback(&auth, 500).unwrap();
    assert_eq!(contract.clawback(&auth, 600), Err(Error::AlreadyRevoked));
}

#[test]
fn test_clawback_before_cliff_returns_everything() {
    let auth = all_auths();
    let mut contract = initialized(0, 100, 1000, 10000);
    let t = contract.clawback(&auth, 50).unwrap().unwrap();
    assert_eq!(t, Transfer { token: TOKEN, from: CONTRACT, to: CLAWBACK_ADMIN, amount: 10000 });
    let config = contract.get_config().unwrap();
    assert_eq!(config.total_amount, 0);
    assert_eq!(config.is_active, false);
    // Nothing left to claim, ever.
    assert_eq!(contract.get_vested_amount(5000).unwrap(), 0);
    assert_eq!(contract.claim(&auth, 5000), Ok(None));
}

#[test]
fn test_clawback_after_full_vesting_moves_nothing() {
    let auth = all_auths();
    let mut contract = initialized(0, 100, 1000, 10000);
    // Fully vested: nothing is unvested, so no transfer happens.
    assert_eq!(contract.clawback(&auth, 1000), Ok(None));
    let config = contract.get_config().unwrap();
    assert_eq!(config.total_amount, 10000);
    assert_eq!(config.is_active, false);
}

#[test]
fn test_accrual_monotone_and_endpoints() {
    let contract = initialized(0, 100, 1000, 10000);
    // Non-decreasing while active; zero at start; full at start + duration.
    let mut previous: i128 = -1;
    for now in [0u64, 99, 100, 101, 250, 500, 999, 1000, 2000] {
        let vested = contract.get_vested_amount(now).unwrap();
        assert!(vested >= previous);
        previous = vested;
    }
    assert_eq!(contract.get_vested_amount(0).unwrap(), 0);
    assert_eq!(contract.get_vested_amount(1000).unwrap(), 10000);
}

#[test]
fn test_claimed_monotone_and_covered() {
    let auth = all_auths();
    let mut contract = initialized(0, 100, 1000, 10000);
    let mut previous_claimed: i128 = 0;
    for now in [0u64, 150, 150, 400, 650, 2000] {
        contract.claim(&auth, now).unwrap();
        let claimed = contract.get_config().unwrap().claimed_amount;
        let vested = contract.get_vested_amount(now).unwrap();
        assert!(claimed >= previous_claimed);
        assert!(claimed <= vested);
        previous_claimed = claimed;
    }
    assert_eq!(previous_claimed, 10000);
}

#[test]
fn test_clawback_freezes_accrual() {
    let auth = all_auths();
    let mut contract = initialized(0, 100, 1000, 10000);
    contract.clawback(&auth, 300).unwrap();
    let frozen = contract.get_vested_amount(300).unwrap();
    assert_eq!(frozen, 3000);
    for later in [301u64, 500, 1000, 100000] {
        assert_eq!(contract.get_vested_amount(later).unwrap(), frozen);
    }
}

#[test]
fn test_cliff_equal_to_duration() {
    // Nothing accrues before the single instant at which all of it does.
    let contract = initialized(0, 100, 100, 10000);
    assert_eq!(contract.get_vested_amount(99).unwrap(), 0);
    assert_eq!(contract.get_vested_amount(100).unwrap(), 10000);
}

#[test]
fn test_zero_duration_vests_immediately() {
    // A schedule with no vesting window is a well-defined degenerate case:
    // the whole amount vests the moment the schedule starts.
    let contract = initialized(500, 0, 0, 10000);
    assert_eq!(contract.get_vested_amount(499).unwrap(), 0);
    assert_eq!(contract.get_vested_amount(500).unwrap(), 10000);
}

#[test]
fn test_accrual_overflow_reported() {
    // The widened product i128::MAX * 3 cannot be represented: the call
    // fails rather than wrapping or panicking.
    let contract = initialized(0, 0, 1000, i128::MAX);
    assert_eq!(contract.get_vested_amount(3), Err(Error::ArithmeticOverflow));
    // Outside the linear branch nothing is multiplied.
    assert_eq!(contract.get_vested_amount(1000).unwrap(), i128::MAX);
}
