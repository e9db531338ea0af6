use cyphr_vaults::errors::VaultError;
use cyphr_vaults::identity::Identity;
use cyphr_vaults::state::{Condition, StrategyConfig, StrategyState, StrategyVaultState, UserDeposit};
use cyphr_vaults::strategy_vault::{
    check_execution, check_strategy_config, claim_strategy_yield, create_strategy,
    deposit_strategy_sol, execute_strategy, initialize_strategy_vault, is_valid_time_frame,
    pause_strategy_vault, resume_strategy_vault, simulate_strategy_execution,
    withdraw_strategy_sol, MAX_BPS,
};

const YEAR: i64 = 365 * 86_400;
const T0: i64 = 1_700_000_000;

fn who(n: u8) -> Identity {
    Identity::new([n; 32])
}

fn open_vault() -> StrategyVaultState {
    let mut vault = StrategyVaultState {
        authority: who(0),
        total_deposits: 9,
        total_users: 9,
        is_paused: true,
        total_yield_generated: 9,
        last_yield_calculation: 9,
        yield_rate: 9,
        active_strategies: 9,
        total_pnl: 9,
        bump: 9,
    };
    initialize_strategy_vault(&mut vault, who(1), 253, T0);
    vault
}

fn momentum() -> StrategyConfig {
    StrategyConfig {
        name: String::from("momentum"),
        description: String::from("Buys strength, sells weakness"),
        base_token: String::from("SOL"),
        quote_token: String::from("USDC"),
        position_size: 6_000,
        time_frame: String::from("4h"),
        execution_interval: 3_600,
        yield_target: 1_500,
        yield_accumulation: true,
        entry_conditions: vec![
            Condition { condition_type: String::from("rsi_below"), value: 30 },
            Condition { condition_type: String::from("volume_above"), value: 1_000_000 },
        ],
        exit_conditions: vec![Condition { condition_type: String::from("rsi_above"), value: 70 }],
    }
}

fn created(vault: &mut StrategyVaultState) -> StrategyState {
    create_strategy(vault, who(2), momentum(), 251, T0 + 1).unwrap()
}

#[test]
fn initialize_sets_every_field_of_the_strategy_vault() {
    assert_eq!(
        open_vault(),
        StrategyVaultState {
            authority: who(1),
            total_deposits: 0,
            total_users: 0,
            is_paused: false,
            total_yield_generated: 0,
            last_yield_calculation: T0,
            yield_rate: 500,
            active_strategies: 0,
            total_pnl: 0,
            bump: 253,
        }
    );
}

#[test]
fn created_strategy_copies_the_configuration() {
    let mut vault = open_vault();
    let strategy = created(&mut vault);
    let config = momentum();
    assert_eq!(
        strategy,
        StrategyState {
            id: String::from("momentum"),
            owner: who(2),
            name: config.name,
            description: config.description,
            base_token: config.base_token,
            quote_token: config.quote_token,
            position_size: 6_000,
            time_frame: String::from("4h"),
            execution_interval: 3_600,
            yield_target: 1_500,
            yield_accumulation: true,
            is_active: true,
            created_at: T0 + 1,
            last_execution: 0,
            total_pnl: 0,
            entry_conditions: config.entry_conditions,
            exit_conditions: config.exit_conditions,
            bump: 251,
        }
    );
    assert_eq!(vault.active_strategies, 1);
    let mut expected = open_vault();
    expected.active_strategies = 1;
    assert_eq!(vault, expected);
}

#[test]
fn each_created_strategy_is_counted() {
    let mut vault = open_vault();
    created(&mut vault);
    let mut other = momentum();
    other.name = String::from("mean-reversion");
    let second = create_strategy(&mut vault, who(3), other, 1, T0 + 2).unwrap();
    assert_eq!(second.id, "mean-reversion");
    assert_eq!(second.owner, who(3));
    assert_eq!(vault.active_strategies, 2);
}

#[test]
fn record_initializer_sets_every_field_of_the_strategy() {
    let mut vault = open_vault();
    let mut strategy = created(&mut vault);
    strategy.total_pnl = -5;
    strategy.last_execution = 77;
    strategy.is_active = false;
    let mut config = momentum();
    config.name = String::from("other");
    config.time_frame = String::from("1w");
    strategy.initialize(String::from("key"), who(9), config, 4, 123);
    assert_eq!(strategy.id, "key");
    assert_eq!(strategy.name, "other");
    assert_eq!(strategy.owner, who(9));
    assert_eq!(strategy.time_frame, "1w");
    assert!(strategy.is_active);
    assert_eq!(strategy.created_at, 123);
    assert_eq!(strategy.last_execution, 0);
    assert_eq!(strategy.total_pnl, 0);
    assert_eq!(strategy.bump, 4);
    assert_eq!(strategy.entry_conditions, momentum().entry_conditions);
}

#[test]
fn position_size_of_zero_is_refused() {
    let mut vault = open_vault();
    let mut config = momentum();
    config.position_size = 0;
    assert_eq!(
        create_strategy(&mut vault, who(2), config, 1, T0),
        Err(VaultError::InvalidPositionSize)
    );
    assert_eq!(vault, open_vault());
}

#[test]
fn position_size_above_the_whole_is_refused() {
    let mut vault = open_vault();
    let mut config = momentum();
    config.position_size = 10_001;
    assert_eq!(
        create_strategy(&mut vault, who(2), config, 1, T0),
        Err(VaultError::InvalidPositionSize)
    );
    assert_eq!(vault.active_strategies, 0);
}

#[test]
fn unknown_time_frame_is_refused() {
    let mut vault = open_vault();
    let mut config = momentum();
    config.time_frame = String::from("2h");
    assert_eq!(
        create_strategy(&mut vault, who(2), config, 1, T0),
        Err(VaultError::InvalidTimeFrame)
    );
    assert_eq!(vault.active_strategies, 0);
}

#[test]
fn empty_name_is_refused() {
    let mut vault = open_vault();
    let mut config = momentum();
    config.name = String::new();
    assert_eq!(
        create_strategy(&mut vault, who(2), config, 1, T0),
        Err(VaultError::InvalidStrategyConfig)
    );
    assert_eq!(vault.active_strategies, 0);
}

#[test]
fn empty_description_or_token_is_refused() {
    let mut config = momentum();
    config.description = String::new();
    assert_eq!(check_strategy_config(false, &config), Some(VaultError::InvalidStrategyConfig));
    let mut config = momentum();
    config.base_token = String::new();
    assert_eq!(check_strategy_config(false, &config), Some(VaultError::InvalidStrategyConfig));
    let mut config = momentum();
    config.quote_token = String::new();
    assert_eq!(check_strategy_config(false, &config), Some(VaultError::InvalidStrategyConfig));
}

#[test]
fn yield_target_outside_its_range_is_refused() {
    let mut config = momentum();
    config.yield_target = 0;
    assert_eq!(check_strategy_config(false, &config), Some(VaultError::InvalidYieldTarget));
    config.yield_target = 10_001;
    assert_eq!(check_strategy_config(false, &config), Some(VaultError::InvalidYieldTarget));
    config.yield_target = u64::MAX;
    assert_eq!(check_strategy_config(false, &config), Some(VaultError::InvalidYieldTarget));
}

#[test]
fn interval_of_zero_is_refused() {
    let mut vault = open_vault();
    let mut config = momentum();
    config.execution_interval = 0;
    assert_eq!(
        create_strategy(&mut vault, who(2), config, 1, T0),
        Err(VaultError::InvalidStrategyConfig)
    );
}

#[test]
fn limits_of_the_ranges_are_accepted() {
    assert_eq!(MAX_BPS, 10_000);
    let mut config = momentum();
    config.position_size = 1;
    config.yield_target = 10_000;
    config.execution_interval = 1;
    assert_eq!(check_strategy_config(false, &config), None);
    config.position_size = 10_000;
    config.yield_target = 1;
    config.execution_interval = u64::MAX;
    assert_eq!(check_strategy_config(false, &config), None);
}

#[test]
fn first_fault_in_order_is_reported() {
    let mut config = momentum();
    config.time_frame = String::from("2h");
    config.execution_interval = 0;
    assert_eq!(check_strategy_config(false, &config), Some(VaultError::InvalidStrategyConfig));
    config.yield_target = 0;
    assert_eq!(check_strategy_config(false, &config), Some(VaultError::InvalidYieldTarget));
    config.position_size = 0;
    assert_eq!(check_strategy_config(false, &config), Some(VaultError::InvalidPositionSize));
    config.quote_token = String::new();
    assert_eq!(check_strategy_config(false, &config), Some(VaultError::InvalidStrategyConfig));
    assert_eq!(check_strategy_config(true, &config), Some(VaultError::VaultPaused));
}

#[test]
fn known_time_frames_are_exactly_eight() {
    for known in ["1m", "5m", "15m", "30m", "1h", "4h", "1d", "1w"] {
        assert!(is_valid_time_frame(known));
        let mut config = momentum();
        config.time_frame = String::from(known);
        assert_eq!(check_strategy_config(false, &config), None);
    }
    for unknown in ["", "2h", "1", "m", "1M", "1H", "15", "15h", "30h", "3m", "45m", "1mm", " 1m", "1m ", "1y", "4d", "5h", "1ｍ"] {
        assert!(!is_valid_time_frame(unknown));
    }
}

#[test]
fn first_execution_is_not_held_back() {
    let mut vault = open_vault();
    let mut strategy = created(&mut vault);
    assert_eq!(
        execute_strategy(&mut vault, &mut strategy, who(2), String::from("momentum"), T0 + 1, 250),
        Ok(())
    );
    assert_eq!(strategy.last_execution, T0 + 1);
    assert_eq!(strategy.total_pnl, 250);
    assert_eq!(vault.total_pnl, 250);
}

#[test]
fn second_execution_within_the_interval_is_refused() {
    let mut vault = open_vault();
    let mut strategy = created(&mut vault);
    execute_strategy(&mut vault, &mut strategy, who(2), String::from("momentum"), T0 + 10, 250)
        .unwrap();
    let before = (vault, strategy.clone());
    assert_eq!(
        execute_strategy(&mut vault, &mut strategy, who(2), String::from("momentum"), T0 + 10, 1),
        Err(VaultError::StrategyExecutionFailed)
    );
    assert_eq!(
        execute_strategy(
            &mut vault,
            &mut strategy,
            who(2),
            String::from("momentum"),
            T0 + 10 + 3_599,
            1
        ),
        Err(VaultError::StrategyExecutionFailed)
    );
    assert_eq!((vault, strategy), before);
}

#[test]
fn execution_after_the_interval_succeeds() {
    let mut vault = open_vault();
    let mut strategy = created(&mut vault);
    execute_strategy(&mut vault, &mut strategy, who(2), String::from("momentum"), T0 + 10, 250)
        .unwrap();
    assert_eq!(
        execute_strategy(
            &mut vault,
            &mut strategy,
            who(2),
            String::from("momentum"),
            T0 + 10 + 3_600,
            -400
        ),
        Ok(())
    );
    assert_eq!(strategy.last_execution, T0 + 10 + 3_600);
    assert_eq!(strategy.total_pnl, -150);
    assert_eq!(vault.total_pnl, -150);
}

#[test]
fn execution_changes_nothing_of_the_configuration() {
    let mut vault = open_vault();
    let mut strategy = created(&mut vault);
    let mut expected = strategy.clone();
    execute_strategy(&mut vault, &mut strategy, who(2), String::from("momentum"), T0 + 10, 5)
        .unwrap();
    expected.last_execution = T0 + 10;
    expected.total_pnl = 5;
    assert_eq!(strategy, expected);
    let mut expected_vault = open_vault();
    expected_vault.active_strategies = 1;
    expected_vault.total_pnl = 5;
    assert_eq!(vault, expected_vault);
}

#[test]
fn profit_and_loss_of_all_strategies_add_up_in_the_vault() {
    let mut vault = open_vault();
    let mut first = created(&mut vault);
    let mut config = momentum();
    config.name = String::from("carry");
    let mut second = create_strategy(&mut vault, who(3), config, 1, T0).unwrap();
    execute_strategy(&mut vault, &mut first, who(2), String::from("momentum"), T0 + 1, 700).unwrap();
    execute_strategy(&mut vault, &mut second, who(3), String::from("carry"), T0 + 2, -1_000)
        .unwrap();
    assert_eq!(first.total_pnl, 700);
    assert_eq!(second.total_pnl, -1_000);
    assert_eq!(vault.total_pnl, -300);
}

#[test]
fn interval_is_not_cut_short_by_the_width_of_the_timestamp() {
    let mut vault = open_vault();
    let mut config = momentum();
    config.execution_interval = u64::MAX;
    let mut strategy = create_strategy(&mut vault, who(2), config, 1, T0).unwrap();
    execute_strategy(&mut vault, &mut strategy, who(2), String::from("momentum"), 1, 0).unwrap();
    assert_eq!(
        execute_strategy(&mut vault, &mut strategy, who(2), String::from("momentum"), i64::MAX, 0),
        Err(VaultError::StrategyExecutionFailed)
    );
}

#[test]
fn execution_recorded_at_time_zero_does_not_hold_back_the_next() {
    let mut vault = open_vault();
    let mut strategy = created(&mut vault);
    execute_strategy(&mut vault, &mut strategy, who(2), String::from("momentum"), 0, 1).unwrap();
    assert_eq!(
        execute_strategy(&mut vault, &mut strategy, who(2), String::from("momentum"), 1, 1),
        Ok(())
    );
    assert_eq!(strategy.total_pnl, 2);
}

#[test]
fn execution_under_another_id_is_refused() {
    let mut vault = open_vault();
    let mut strategy = created(&mut vault);
    assert_eq!(
        execute_strategy(&mut vault, &mut strategy, who(2), String::from("momentums"), T0 + 9, 1),
        Err(VaultError::StrategyNotFound)
    );
    assert_eq!(strategy.last_execution, 0);
    assert_eq!(vault.total_pnl, 0);
}

#[test]
fn execution_by_another_caller_is_refused() {
    let mut vault = open_vault();
    let mut strategy = created(&mut vault);
    assert_eq!(
        execute_strategy(&mut vault, &mut strategy, who(3), String::from("momentum"), T0 + 9, 1),
        Err(VaultError::Unauthorized)
    );
    assert_eq!(strategy.last_execution, 0);
}

#[test]
fn execution_of_an_inactive_strategy_is_refused() {
    let mut vault = open_vault();
    let mut strategy = created(&mut vault);
    strategy.is_active = false;
    assert_eq!(
        execute_strategy(&mut vault, &mut strategy, who(2), String::from("momentum"), T0 + 9, 1),
        Err(VaultError::StrategyNotActive)
    );
}

#[test]
fn reasons_against_an_execution_come_in_order() {
    let mut vault = open_vault();
    let mut strategy = created(&mut vault);
    strategy.is_active = false;
    strategy.last_execution = T0;
    let id = String::from("momentum");
    let other = String::from("x");
    assert_eq!(check_execution(false, &strategy, &who(2), &id, T0), Some(VaultError::StrategyNotActive));
    assert_eq!(check_execution(false, &strategy, &who(3), &id, T0), Some(VaultError::Unauthorized));
    assert_eq!(
        check_execution(false, &strategy, &who(3), &other, T0),
        Some(VaultError::StrategyNotFound)
    );
    assert_eq!(check_execution(true, &strategy, &who(3), &other, T0), Some(VaultError::VaultPaused));
    strategy.is_active = true;
    assert_eq!(
        check_execution(false, &strategy, &who(2), &id, T0 + 3_599),
        Some(VaultError::StrategyExecutionFailed)
    );
    assert_eq!(check_execution(false, &strategy, &who(2), &id, T0 + 3_600), None);
}

#[test]
fn paused_strategy_vault_refuses_everything() {
    let mut vault = open_vault();
    let mut strategy = created(&mut vault);
    let mut position = None;
    deposit_strategy_sol(&mut vault, &mut position, who(2), 1, 1_000_000, T0).unwrap();
    assert_eq!(pause_strategy_vault(&mut vault, who(1)), Ok(()));
    assert!(vault.is_paused);
    let before = (vault, strategy.clone(), position);
    assert_eq!(
        execute_strategy(&mut vault, &mut strategy, who(2), String::from("momentum"), T0 + 9, 1),
        Err(VaultError::VaultPaused)
    );
    assert_eq!(
        create_strategy(&mut vault, who(2), momentum(), 1, T0),
        Err(VaultError::VaultPaused)
    );
    assert_eq!(
        deposit_strategy_sol(&mut vault, &mut position, who(2), 1, 5, T0 + YEAR),
        Err(VaultError::VaultPaused)
    );
    assert_eq!(
        withdraw_strategy_sol(&mut vault, &mut position, who(2), 5, T0 + YEAR),
        Err(VaultError::VaultPaused)
    );
    assert_eq!(
        claim_strategy_yield(&mut vault, &mut position, who(2), T0 + YEAR),
        Err(VaultError::VaultPaused)
    );
    assert_eq!((vault, strategy.clone(), position), before);
    assert_eq!(resume_strategy_vault(&mut vault, who(1)), Ok(()));
    assert_eq!(
        execute_strategy(&mut vault, &mut strategy, who(2), String::from("momentum"), T0 + 9, 1),
        Ok(())
    );
    assert_eq!(claim_strategy_yield(&mut vault, &mut position, who(2), T0 + YEAR), Ok(50_000));
}

#[test]
fn strategy_vault_marked_paused_refuses_an_execution() {
    let mut vault = open_vault();
    let mut strategy = created(&mut vault);
    vault.is_paused = true;
    assert_eq!(
        execute_strategy(&mut vault, &mut strategy, who(2), String::from("momentum"), T0 + 9, 1),
        Err(VaultError::VaultPaused)
    );
}

#[test]
fn only_the_authority_pauses_the_strategy_vault() {
    let mut vault = open_vault();
    assert_eq!(pause_strategy_vault(&mut vault, who(2)), Err(VaultError::Unauthorized));
    assert_eq!(vault, open_vault());
    pause_strategy_vault(&mut vault, who(1)).unwrap();
    let paused = vault;
    assert_eq!(pause_strategy_vault(&mut vault, who(1)), Ok(()));
    assert_eq!(vault, paused);
    assert_eq!(resume_strategy_vault(&mut vault, who(2)), Err(VaultError::Unauthorized));
    assert_eq!(vault, paused);
    resume_strategy_vault(&mut vault, who(1)).unwrap();
    resume_strategy_vault(&mut vault, who(1)).unwrap();
    assert_eq!(vault, open_vault());
}

#[test]
fn deposits_in_the_strategy_vault_count_depositors_once() {
    let mut vault = open_vault();
    let mut position = None;
    assert_eq!(deposit_strategy_sol(&mut vault, &mut position, who(2), 7, 1_000, T0), Ok(()));
    assert_eq!(deposit_strategy_sol(&mut vault, &mut position, who(2), 7, 2_000, T0 + 5), Ok(()));
    assert_eq!(vault.total_users, 1);
    assert_eq!(vault.total_deposits, 3_000);
    assert_eq!(
        position,
        Some(UserDeposit {
            user: who(2),
            deposit_amount: 3_000,
            yield_earned: 0,
            last_yield_update: T0 + 5,
            bump: 7,
        })
    );
    assert_eq!(
        deposit_strategy_sol(&mut vault, &mut position, who(2), 7, 0, T0),
        Err(VaultError::InvalidAmount)
    );
    assert_eq!(
        deposit_strategy_sol(&mut vault, &mut position, who(3), 7, 1, T0),
        Err(VaultError::Unauthorized)
    );
}

#[test]
fn withdrawal_boundary_in_the_strategy_vault() {
    let mut vault = open_vault();
    let mut position = None;
    deposit_strategy_sol(&mut vault, &mut position, who(2), 7, 1_000, T0).unwrap();
    assert_eq!(
        withdraw_strategy_sol(&mut vault, &mut position, who(2), 1_001, T0),
        Err(VaultError::InsufficientBalance)
    );
    assert_eq!(
        withdraw_strategy_sol(&mut vault, &mut position, who(2), 0, T0),
        Err(VaultError::InvalidAmount)
    );
    assert_eq!(
        withdraw_strategy_sol(&mut vault, &mut position, who(3), 1, T0),
        Err(VaultError::Unauthorized)
    );
    assert_eq!(withdraw_strategy_sol(&mut vault, &mut position, who(2), 1_000, T0), Ok(()));
    assert_eq!(position.unwrap().deposit_amount, 0);
    assert_eq!(vault.total_deposits, 0);
}

#[test]
fn claim_in_the_strategy_vault() {
    let mut vault = open_vault();
    let mut position = None;
    deposit_strategy_sol(&mut vault, &mut position, who(2), 7, 1_000_000, T0).unwrap();
    assert_eq!(
        claim_strategy_yield(&mut vault, &mut position, who(2), T0),
        Err(VaultError::NoYieldToClaim)
    );
    assert_eq!(
        claim_strategy_yield(&mut vault, &mut position, who(3), T0 + YEAR),
        Err(VaultError::Unauthorized)
    );
    assert_eq!(claim_strategy_yield(&mut vault, &mut position, who(2), T0 + YEAR), Ok(50_000));
    assert_eq!(position.unwrap().yield_earned, 0);
    assert_eq!(position.unwrap().last_yield_update, T0 + YEAR);
    assert_eq!(vault.last_yield_calculation, T0 + YEAR);
    assert_eq!(vault.total_pnl, 0);
}

#[test]
fn simulated_market_swings_around_a_thousand() {
    let mut vault = open_vault();
    let strategy = created(&mut vault);
    assert_eq!(simulate_strategy_execution(&strategy, 0), 500);
    assert_eq!(simulate_strategy_execution(&strategy, 50), 1_000);
    assert_eq!(simulate_strategy_execution(&strategy, 99), 1_490);
    assert_eq!(simulate_strategy_execution(&strategy, 100), 500);
    assert_eq!(simulate_strategy_execution(&strategy, 1_700_000_049), 990);
    assert_eq!(simulate_strategy_execution(&strategy, i64::MAX), 570);
}

#[test]
fn simulated_market_before_the_epoch() {
    let mut vault = open_vault();
    let strategy = created(&mut vault);
    assert_eq!(simulate_strategy_execution(&strategy, -1), 490);
    assert_eq!(simulate_strategy_execution(&strategy, -99), -490);
    assert_eq!(simulate_strategy_execution(&strategy, -100), 500);
    assert_eq!(simulate_strategy_execution(&strategy, i64::MIN), 420);
}
