//! Concrete checks of the library's stated properties: the output
//! formula, slippage monotonicity, all-or-nothing rejection, boundary
//! behaviour at the threshold and the slippage ceiling, nonce replay,
//! per-user history isolation, and one input for every error kind.

use stellar_lend::contract::HelloContract;
use stellar_lend::types::{
    Address, AmmCallbackData, AmmError, AmmProtocolConfig, AmmSettings, Asset, SwapParams,
    TokenPair,
};

fn protocol_config(protocol_addr: Address, token_out: Address) -> AmmProtocolConfig {
    AmmProtocolConfig {
        protocol_address: protocol_addr,
        protocol_name: 1,
        enabled: true,
        fee_tier_bps: 30,
        min_swap_amount: 1_000,
        max_swap_amount: 1_000_000_000,
        supported_pairs: vec![TokenPair {
            token_in: Asset::Native,
            token_out: Asset::Token(token_out),
            pool_address: Address(900),
        }],
    }
}

/// Settings (default 100, max 1000, threshold 10_000), protocol bounds
/// [1000, 1_000_000_000].
fn setup() -> (HelloContract, Address, Address, Address) {
    let mut contract = HelloContract::new();
    let admin = Address(1);
    let protocol_addr = Address(2);
    let token_out = Address(3);
    contract
        .initialize_amm_settings(admin, 100, 1000, 10_000)
        .unwrap();
    contract
        .add_amm_protocol(admin, protocol_config(protocol_addr, token_out))
        .unwrap();
    (contract, admin, protocol_addr, token_out)
}

fn swap_params(protocol: Address, token_out: Address, amount_in: i128, slippage: u32) -> SwapParams {
    SwapParams {
        protocol,
        token_in: Asset::Native,
        token_out: Asset::Token(token_out),
        amount_in,
        min_amount_out: 0,
        slippage_tolerance_bps: slippage,
        deadline: 3600,
    }
}

#[test]
fn test_output_formula_exact_values() {
    let (mut contract, admin, protocol_addr, token_out) = setup();
    let mut wide = contract.get_amm_settings().unwrap();
    wide.max_slippage_bps = 10_000;
    contract.update_amm_settings(admin, wide).unwrap();

    let user = Address(11);
    // floor(7_777 * (10000 - 123) / 10000) = floor(7681.3929) = 7681
    let out = contract
        .execute_swap(user, swap_params(protocol_addr, token_out, 7_777, 123), 0)
        .unwrap();
    assert_eq!(out, 7_681);

    // Zero slippage returns the input unchanged.
    let out0 = contract
        .execute_swap(user, swap_params(protocol_addr, token_out, 7_777, 0), 0)
        .unwrap();
    assert_eq!(out0, 7_777);

    // Full slippage floors to zero output, never below.
    let out_full = contract
        .execute_swap(user, swap_params(protocol_addr, token_out, 7_777, 10_000), 0)
        .unwrap();
    assert_eq!(out_full, 0);

    // Any positive slippage gives an output strictly below the input.
    let out1 = contract
        .execute_swap(user, swap_params(protocol_addr, token_out, 7_777, 1), 0)
        .unwrap();
    assert!(out1 >= 0 && out1 < 7_777);
}

#[test]
fn test_output_monotonic_in_slippage() {
    let (mut contract, admin, protocol_addr, token_out) = setup();
    let mut wide = contract.get_amm_settings().unwrap();
    wide.max_slippage_bps = 10_000;
    contract.update_amm_settings(admin, wide).unwrap();

    let user = Address(11);
    let slippages: [u32; 6] = [0, 1, 100, 999, 5_000, 10_000];
    let mut previous: i128 = i128::MAX;
    for s in slippages {
        let out = contract
            .execute_swap(user, swap_params(protocol_addr, token_out, 123_456, s), 0)
            .unwrap();
        assert!(out <= previous, "output must be non-increasing as slippage grows");
        previous = out;
    }
}

#[test]
fn test_rejected_swap_leaves_no_trace() {
    let (mut contract, _admin, protocol_addr, token_out) = setup();
    let user = Address(11);

    // Failing at each validation step must append no history record.
    let too_small = swap_params(protocol_addr, token_out, 500, 100);
    assert!(contract.execute_swap(user, too_small, 0).is_err());
    let too_slippery = swap_params(protocol_addr, token_out, 20_000, 1_500);
    assert!(contract.execute_swap(user, too_slippery, 0).is_err());
    let unknown = swap_params(Address(66), token_out, 20_000, 100);
    assert!(contract.execute_swap(user, unknown, 0).is_err());

    assert_eq!(contract.get_swap_history(None, 100).len(), 0);
}

#[test]
fn test_rejected_callback_leaves_nonce_fresh() {
    let (mut contract, _admin, protocol_addr, _token_out) = setup();
    let user = Address(11);

    // An expired callback fails and must not consume its nonce...
    let expired = AmmCallbackData {
        nonce: 5,
        operation: 0,
        user,
        expected_amounts: vec![],
        deadline: 10,
    };
    assert!(contract.validate_amm_callback(protocol_addr, &expired, 100).is_err());

    // ...so the same nonce, presented in time, is still accepted.
    let fresh = AmmCallbackData {
        nonce: 5,
        operation: 0,
        user,
        expected_amounts: vec![],
        deadline: 200,
    };
    assert!(contract.validate_amm_callback(protocol_addr, &fresh, 100).is_ok());
}

#[test]
fn test_threshold_boundary_inclusive() {
    let (mut contract, _admin, _protocol, token_out) = setup();
    let liquidator = Address(10);

    // Exactly at the threshold succeeds: the lower bound is inclusive.
    let at = contract.auto_swap_for_collateral(liquidator, Asset::Token(token_out), 10_000, 0);
    assert!(at.is_ok());

    // One below the threshold fails with the threshold error.
    let below = contract.auto_swap_for_collateral(liquidator, Asset::Token(token_out), 9_999, 0);
    assert_eq!(below, Err(AmmError::BelowLiquidationThreshold));
}

#[test]
fn test_slippage_boundary_inclusive() {
    let (mut contract, _admin, protocol_addr, token_out) = setup();
    let user = Address(11);

    // slippage_tolerance == max_slippage (1000) succeeds.
    let at = contract.execute_swap(user, swap_params(protocol_addr, token_out, 20_000, 1_000), 0);
    assert!(at.is_ok());

    // max_slippage + 1 fails with the slippage error.
    let above =
        contract.execute_swap(user, swap_params(protocol_addr, token_out, 20_000, 1_001), 0);
    assert_eq!(above, Err(AmmError::SlippageTooHigh));
}

#[test]
fn test_nonce_replay_then_successor() {
    let (mut contract, _admin, protocol_addr, _token_out) = setup();
    let user = Address(11);
    let callback = |nonce: u64| AmmCallbackData {
        nonce,
        operation: 0,
        user,
        expected_amounts: vec![],
        deadline: 3600,
    };

    assert!(contract.validate_amm_callback(protocol_addr, &callback(7), 0).is_ok());
    assert_eq!(
        contract.validate_amm_callback(protocol_addr, &callback(7), 0),
        Err(AmmError::NonceReplay)
    );
    assert!(contract.validate_amm_callback(protocol_addr, &callback(8), 0).is_ok());

    // Nonces below the advanced baseline stay rejected for good.
    assert_eq!(
        contract.validate_amm_callback(protocol_addr, &callback(3), 0),
        Err(AmmError::NonceReplay)
    );
}

#[test]
fn test_nonce_ledgers_are_per_protocol() {
    let (mut contract, admin, protocol_addr, token_out) = setup();
    let second_protocol = Address(4);
    let mut second = protocol_config(second_protocol, token_out);
    second.protocol_address = second_protocol;
    contract.add_amm_protocol(admin, second).unwrap();

    let user = Address(11);
    let callback = AmmCallbackData {
        nonce: 9,
        operation: 0,
        user,
        expected_amounts: vec![],
        deadline: 3600,
    };

    // Consuming nonce 9 at one protocol leaves the other's ledger alone.
    assert!(contract.validate_amm_callback(protocol_addr, &callback, 0).is_ok());
    assert!(contract.validate_amm_callback(second_protocol, &callback, 0).is_ok());
}

#[test]
fn test_history_isolation_interleaved() {
    let (mut contract, _admin, _protocol, token_out) = setup();
    let user_a = Address(20);
    let user_b = Address(21);

    contract
        .auto_swap_for_collateral(user_a, Asset::Token(token_out), 11_000, 0)
        .unwrap();
    contract
        .auto_swap_for_collateral(user_b, Asset::Token(token_out), 12_000, 0)
        .unwrap();
    contract
        .auto_swap_for_collateral(user_a, Asset::Token(token_out), 13_000, 0)
        .unwrap();

    let history_a = contract.get_swap_history(Some(user_a), 10);
    let history_b = contract.get_swap_history(Some(user_b), 10);
    assert_eq!(history_a.len(), 2);
    assert_eq!(history_b.len(), 1);
    assert_eq!(history_a[0].amount_in, 11_000);
    assert_eq!(history_a[1].amount_in, 13_000);
    assert_eq!(history_b[0].amount_in, 12_000);
    assert!(history_a.iter().all(|r| r.user == user_a));
    assert!(history_b.iter().all(|r| r.user == user_b));
}

#[test]
fn test_history_limit_and_order() {
    let (mut contract, _admin, _protocol, token_out) = setup();
    let user = Address(10);
    for amount in [11_000i128, 12_000, 13_000] {
        contract
            .auto_swap_for_collateral(user, Asset::Token(token_out), amount, 0)
            .unwrap();
    }

    // The limit truncates, keeping insertion order from the front.
    let first_two = contract.get_swap_history(Some(user), 2);
    assert_eq!(first_two.len(), 2);
    assert_eq!(first_two[0].amount_in, 11_000);
    assert_eq!(first_two[1].amount_in, 12_000);

    // Sequence ids grow with insertion order.
    let all = contract.get_swap_history(None, 10);
    assert_eq!(all.len(), 3);
    assert!(all[0].sequence_id < all[1].sequence_id && all[1].sequence_id < all[2].sequence_id);
}

#[test]
fn test_scenario_threshold_update() {
    // Settings (default 100, max 1000, threshold 10_000), protocol
    // bounds [1000, 1_000_000_000].
    let (mut contract, admin, protocol_addr, token_out) = setup();
    let user = Address(11);

    // execute_swap with amount 15_000 at slippage 100 yields 14_850.
    let params = SwapParams {
        protocol: protocol_addr,
        token_in: Asset::Native,
        token_out: Asset::Token(token_out),
        amount_in: 15_000,
        min_amount_out: 1,
        slippage_tolerance_bps: 100,
        deadline: 3600,
    };
    assert_eq!(contract.execute_swap(user, params, 0), Ok(14_850));

    // auto swap of 8_000 fails: 8_000 < 10_000.
    let liquidator = Address(10);
    assert!(contract
        .auto_swap_for_collateral(liquidator, Asset::Token(token_out), 8_000, 0)
        .is_err());

    // After the admin lowers the threshold to 5_000, the identical call succeeds.
    let mut settings: AmmSettings = contract.get_amm_settings().unwrap();
    settings.auto_swap_threshold = 5_000;
    contract.update_amm_settings(admin, settings).unwrap();
    assert!(contract
        .auto_swap_for_collateral(liquidator, Asset::Token(token_out), 8_000, 0)
        .is_ok());
}

#[test]
fn test_scenario_slippage_ceiling() {
    let (mut contract, _admin, protocol_addr, token_out) = setup();
    let user = Address(11);

    // slippage_tolerance 1500 against max_slippage 1000 fails.
    let too_high = contract
        .execute_swap(user, swap_params(protocol_addr, token_out, 20_000, 1_500), 0);
    assert_eq!(too_high, Err(AmmError::SlippageTooHigh));

    // slippage_tolerance 1000 exactly succeeds.
    let at_max = contract
        .execute_swap(user, swap_params(protocol_addr, token_out, 20_000, 1_000), 0);
    assert!(at_max.is_ok());
}

#[test]
fn test_error_already_initialized() {
    let (mut contract, admin, _protocol, _token_out) = setup();
    let again = contract.initialize_amm_settings(admin, 100, 1000, 10_000);
    assert_eq!(again, Err(AmmError::AlreadyInitialized));
}

#[test]
fn test_error_invalid_parameter_settings() {
    let mut contract = HelloContract::new();
    // default slippage above the maximum
    assert_eq!(
        contract.initialize_amm_settings(Address(1), 2_000, 1_000, 10_000),
        Err(AmmError::InvalidParameter)
    );
    // maximum above the basis-point scale
    assert_eq!(
        contract.initialize_amm_settings(Address(1), 100, 10_001, 10_000),
        Err(AmmError::InvalidParameter)
    );
    // a failed initialization stores nothing
    assert!(contract.get_amm_settings().is_none());
}

#[test]
fn test_error_invalid_parameter_registration() {
    let (mut contract, admin, _protocol, token_out) = setup();

    // inconsistent bounds
    let mut bad_bounds = protocol_config(Address(5), token_out);
    bad_bounds.min_swap_amount = 10;
    bad_bounds.max_swap_amount = 5;
    assert_eq!(contract.add_amm_protocol(admin, bad_bounds), Err(AmmError::InvalidParameter));

    // no supported pairs
    let mut no_pairs = protocol_config(Address(5), token_out);
    no_pairs.supported_pairs = vec![];
    assert_eq!(contract.add_amm_protocol(admin, no_pairs), Err(AmmError::InvalidParameter));

    assert!(contract.get_amm_protocol(Address(5)).is_none());
}

#[test]
fn test_error_unauthorized_registration() {
    let (mut contract, _admin, _protocol, token_out) = setup();
    let attacker = Address(13);
    let config = protocol_config(Address(5), token_out);
    assert_eq!(contract.add_amm_protocol(attacker, config), Err(AmmError::Unauthorized));
}

#[test]
fn test_error_swaps_paused() {
    let (mut contract, admin, protocol_addr, token_out) = setup();
    let mut settings: AmmSettings = contract.get_amm_settings().unwrap();
    settings.swap_enabled = false;
    contract.update_amm_settings(admin, settings).unwrap();

    let result =
        contract.execute_swap(Address(11), swap_params(protocol_addr, token_out, 20_000, 100), 0);
    assert_eq!(result, Err(AmmError::SwapsPaused));
}

#[test]
fn test_error_protocol_unavailable() {
    let (mut contract, admin, protocol_addr, token_out) = setup();

    // unregistered protocol
    let unknown =
        contract.execute_swap(Address(11), swap_params(Address(66), token_out, 20_000, 100), 0);
    assert_eq!(unknown, Err(AmmError::ProtocolUnavailable));

    // registered but disabled protocol
    let mut disabled = protocol_config(protocol_addr, token_out);
    disabled.enabled = false;
    contract.add_amm_protocol(admin, disabled).unwrap();
    let off =
        contract.execute_swap(Address(11), swap_params(protocol_addr, token_out, 20_000, 100), 0);
    assert_eq!(off, Err(AmmError::ProtocolUnavailable));
}

#[test]
fn test_error_deadline_expired() {
    let (mut contract, _admin, protocol_addr, token_out) = setup();
    let mut params = swap_params(protocol_addr, token_out, 20_000, 100);
    params.deadline = 99;
    assert_eq!(contract.execute_swap(Address(11), params, 100), Err(AmmError::DeadlineExpired));
}

#[test]
fn test_error_amount_out_of_bounds() {
    let (mut contract, _admin, protocol_addr, token_out) = setup();

    // below the protocol minimum of 1_000
    let low = contract.execute_swap(Address(11), swap_params(protocol_addr, token_out, 999, 100), 0);
    assert_eq!(low, Err(AmmError::AmountOutOfBounds));

    // above the protocol maximum of 1_000_000_000
    let high = contract
        .execute_swap(Address(11), swap_params(protocol_addr, token_out, 1_000_000_001, 100), 0);
    assert_eq!(high, Err(AmmError::AmountOutOfBounds));
}

#[test]
fn test_error_unsupported_pair() {
    let (mut contract, _admin, protocol_addr, _token_out) = setup();
    let other_token = Address(77);
    let result = contract
        .execute_swap(Address(11), swap_params(protocol_addr, other_token, 20_000, 100), 0);
    assert_eq!(result, Err(AmmError::UnsupportedPair));
}

#[test]
fn test_error_insufficient_output() {
    let (mut contract, _admin, protocol_addr, token_out) = setup();
    let mut params = swap_params(protocol_addr, token_out, 10_000, 100);
    params.min_amount_out = 10_000; // output is 9_900
    assert_eq!(
        contract.execute_swap(Address(11), params, 0),
        Err(AmmError::InsufficientOutput)
    );
}

#[test]
fn test_error_invalid_amount() {
    let (mut contract, _admin, _protocol, token_out) = setup();
    assert_eq!(
        contract.auto_swap_for_collateral(Address(10), Asset::Token(token_out), 0, 0),
        Err(AmmError::InvalidAmount)
    );
    assert_eq!(
        contract.auto_swap_for_collateral(Address(10), Asset::Token(token_out), -5, 0),
        Err(AmmError::InvalidAmount)
    );
}

#[test]
fn test_error_no_protocol_available() {
    let (mut contract, _admin, _protocol, _token_out) = setup();
    let unknown_token = Address(77);
    assert_eq!(
        contract.auto_swap_for_collateral(Address(10), Asset::Token(unknown_token), 15_000, 0),
        Err(AmmError::NoProtocolAvailable)
    );
}

#[test]
fn test_error_unknown_protocol() {
    let (mut contract, _admin, _protocol, _token_out) = setup();
    let callback = AmmCallbackData {
        nonce: 1,
        operation: 0,
        user: Address(11),
        expected_amounts: vec![],
        deadline: 3600,
    };
    assert_eq!(
        contract.validate_amm_callback(Address(66), &callback, 0),
        Err(AmmError::UnknownProtocol)
    );
}

#[test]
fn test_error_unauthorized_update() {
    let (mut contract, _admin, _protocol, _token_out) = setup();
    let settings = contract.get_amm_settings().unwrap();
    assert_eq!(
        contract.update_amm_settings(Address(13), settings),
        Err(AmmError::Unauthorized)
    );
}

#[test]
fn test_registry_lookup_and_overwrite() {
    let (mut contract, admin, protocol_addr, token_out) = setup();

    let stored = contract.get_amm_protocol(protocol_addr).unwrap();
    assert_eq!(stored.protocol_address, protocol_addr);
    assert_eq!(stored.min_swap_amount, 1_000);
    assert_eq!(stored.max_swap_amount, 1_000_000_000);
    assert!(stored.enabled);
    assert_eq!(stored.supported_pairs.len(), 1);

    // Re-registration overwrites the entry for the same address.
    let mut updated = protocol_config(protocol_addr, token_out);
    updated.min_swap_amount = 2_000;
    contract.add_amm_protocol(admin, updated).unwrap();
    let stored_again = contract.get_amm_protocol(protocol_addr).unwrap();
    assert_eq!(stored_again.min_swap_amount, 2_000);

    assert!(contract.get_amm_protocol(Address(66)).is_none());
}

#[test]
fn test_find_supporting_prefers_registration_order() {
    let mut contract = HelloContract::new();
    let admin = Address(1);
    let token_out = Address(3);
    contract
        .initialize_amm_settings(admin, 100, 1000, 10_000)
        .unwrap();

    // The first registered protocol is disabled, the second enabled.
    let mut first = protocol_config(Address(4), token_out);
    first.enabled = false;
    contract.add_amm_protocol(admin, first).unwrap();
    let second = protocol_config(Address(5), token_out);
    contract.add_amm_protocol(admin, second).unwrap();

    // Resolution skips the disabled entry.
    assert_eq!(
        contract.find_supporting(Asset::Native, Asset::Token(token_out)),
        Some(Address(5))
    );

    // A third enabled protocol does not displace the earlier match.
    let third = protocol_config(Address(6), token_out);
    contract.add_amm_protocol(admin, third).unwrap();
    assert_eq!(
        contract.find_supporting(Asset::Native, Asset::Token(token_out)),
        Some(Address(5))
    );
}

#[test]
fn test_fresh_contract_uninitialized() {
    let contract = HelloContract::new();
    assert!(contract.get_amm_settings().is_none());
    assert!(contract.get_amm_protocol(Address(2)).is_none());
    assert_eq!(contract.get_swap_history(None, 10).len(), 0);
}
