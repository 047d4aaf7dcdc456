use pyro_swap::dex::raydium::RaydiumAdapter;
use pyro_swap::dex::DexAdapter;
use pyro_swap::errors::PyroSwapError;
use pyro_swap::fees::FeeSplit;
use pyro_swap::instructions::cancel_position::{self, CancelPosition, Refund};
use pyro_swap::instructions::execute_position::{self, ExecutePosition, Settlement};
use pyro_swap::instructions::initialize::{self, Initialize};
use pyro_swap::instructions::open_position::{self, OpenPosition};
use pyro_swap::instructions::swap::{self, Swap};
use pyro_swap::instructions::withdraw_manual::{self, WithdrawManual};
use pyro_swap::oracle::pyth::{PriceData, PriceFeedData};
use pyro_swap::state::{Address, Clock, DexType, GlobalConfig, Position, PositionStatus};

const NOW: i64 = 1_700_000_000;

fn owner() -> Address {
    Address::new([1u8; 32])
}

fn stranger() -> Address {
    Address::new([2u8; 32])
}

fn feed_id() -> Address {
    Address::new([3u8; 32])
}

fn admin() -> Address {
    Address::new([4u8; 32])
}

fn treasury() -> Address {
    Address::new([5u8; 32])
}

fn feed(price: i64) -> PriceFeedData {
    let current = PriceData { price, conf: 0, expo: 0, publish_time: NOW };
    PriceFeedData { id: feed_id(), price: current, ema_price: current }
}

fn config() -> GlobalConfig {
    GlobalConfig {
        admin: admin(),
        fee_destination: treasury(),
        protocol_fee_bps: 50,
        referral_fee_share_bps: 1000,
    }
}

fn open_ctx() -> OpenPosition {
    OpenPosition {
        user: owner(),
        input_mint: Address::new([10u8; 32]),
        output_mint: Address::new([11u8; 32]),
        referrer: None,
        oracle_price_feed: feed(1000),
        clock: Clock { slot: 9, unix_timestamp: NOW },
    }
}

fn open(sl_bps: u16, tp_bps: u16) -> Result<Position, PyroSwapError> {
    open_position::handler(&open_ctx(), 1_000_000, sl_bps, tp_bps, 1000, 5_000_000, 0)
}

/// A position of 1_000_000 units entered at 1000, stop-loss 10%, take-profit 5%.
fn active() -> Position {
    open(1000, 500).unwrap()
}

fn keeper() -> Address {
    Address::new([6u8; 32])
}

fn execute_ctx(price: i64) -> ExecutePosition {
    ExecutePosition {
        executor: keeper(),
        config: config(),
        oracle_price_feed: feed(price),
        clock: Clock { slot: 10, unix_timestamp: NOW + 5 },
        remaining_accounts: 19,
    }
}

#[test]
fn open_creates_an_active_position() {
    let p = active();
    assert_eq!(
        p,
        Position {
            owner: owner(),
            input_mint: Address::new([10u8; 32]),
            output_mint: Address::new([11u8; 32]),
            referrer: None,
            amount_in: 1_000_000,
            escrow_balance: 1_000_000,
            sl_bps: 1000,
            tp_bps: 500,
            entry_price: 1000,
            execution_fee_escrow: 5_000_000,
            oracle_price_feed: feed_id(),
            preferred_dex: DexType::Raydium,
            status: PositionStatus::Active,
            created_at: NOW,
            executed_at: None,
        }
    );
}

#[test]
fn open_keeps_the_referrer() {
    let mut ctx = open_ctx();
    ctx.referrer = Some(stranger());
    let p = open_position::handler(&ctx, 1, 0, 100, 1, 5_000_000, 3).unwrap();
    assert_eq!(p.referrer, Some(stranger()));
    assert_eq!(p.preferred_dex, DexType::PumpFun);
}

#[test]
fn open_accepts_offsets_at_their_limits() {
    assert!(open(0, 100).is_ok());
    assert!(open(5000, 100).is_ok());
    assert!(open(0, 10_000).is_ok());
    assert!(open(5000, 10_000).is_ok());
}

#[test]
fn open_succeeds_exactly_within_the_limits() {
    for sl in [0u16, 1, 4_999, 5_000, 5_001, 10_000, u16::MAX] {
        for tp in [0u16, 99, 100, 101, 9_999, 10_000, 10_001, u16::MAX] {
            let within = sl <= 5_000 && (100..=10_000).contains(&tp);
            assert_eq!(open(sl, tp).is_ok(), within);
        }
    }
}

#[test]
fn open_refuses_a_stop_loss_above_its_limit() {
    assert_eq!(open(5001, 500), Err(PyroSwapError::StopLossTooHigh));
    assert_eq!(open(u16::MAX, 500), Err(PyroSwapError::StopLossTooHigh));
    // The stop-loss is looked at first.
    assert_eq!(open(5001, 0), Err(PyroSwapError::StopLossTooHigh));
}

#[test]
fn open_refuses_a_take_profit_outside_its_limits() {
    assert_eq!(open(1000, 99), Err(PyroSwapError::TakeProfitTooLow));
    assert_eq!(open(1000, 0), Err(PyroSwapError::TakeProfitTooLow));
    assert_eq!(open(1000, 10_001), Err(PyroSwapError::TakeProfitTooLow));
}

#[test]
fn open_refuses_a_small_execution_fee() {
    assert_eq!(
        open_position::handler(&open_ctx(), 1, 1000, 500, 1000, 4_999_999, 0),
        Err(PyroSwapError::ExecutionFeeTooLow)
    );
    assert!(open_position::handler(&open_ctx(), 1, 1000, 500, 1000, 5_000_000, 0).is_ok());
    // Offsets are looked at before the fee.
    assert_eq!(
        open_position::handler(&open_ctx(), 1, 1000, 99, 1000, 0, 0),
        Err(PyroSwapError::TakeProfitTooLow)
    );
}

#[test]
fn open_refuses_an_unknown_venue() {
    for tag in 0..=3u8 {
        assert!(open_position::handler(&open_ctx(), 1, 1000, 500, 1000, 5_000_000, tag).is_ok());
    }
    for tag in [4u8, 5, 6, 255] {
        assert_eq!(
            open_position::handler(&open_ctx(), 1, 1000, 500, 1000, 5_000_000, tag),
            Err(PyroSwapError::InvalidDexType)
        );
    }
    // The fee is looked at before the venue.
    assert_eq!(
        open_position::handler(&open_ctx(), 1, 1000, 500, 1000, 0, 9),
        Err(PyroSwapError::ExecutionFeeTooLow)
    );
}

#[test]
fn open_needs_a_live_price_feed() {
    let mut ctx = open_ctx();
    ctx.clock.unix_timestamp = NOW + 26;
    assert_eq!(
        open_position::handler(&ctx, 1, 1000, 500, 1000, 5_000_000, 0),
        Err(PyroSwapError::StalePriceData)
    );
    let mut ctx = open_ctx();
    ctx.oracle_price_feed.price.price = 0;
    assert_eq!(
        open_position::handler(&ctx, 1, 1000, 500, 1000, 5_000_000, 0),
        Err(PyroSwapError::InvalidOraclePrice)
    );
    let mut ctx = open_ctx();
    ctx.oracle_price_feed.price.conf = 11;
    assert_eq!(
        open_position::handler(&ctx, 1, 1000, 500, 1000, 5_000_000, 0),
        Err(PyroSwapError::LowPriceConfidence)
    );
    // The venue is looked at before the feed.
    assert_eq!(
        open_position::handler(&ctx, 1, 1000, 500, 1000, 5_000_000, 4),
        Err(PyroSwapError::InvalidDexType)
    );
}

#[test]
fn open_does_not_bind_the_entry_price_to_the_oracle() {
    let p = open_position::handler(&open_ctx(), 1, 1000, 500, 123_456, 5_000_000, 0).unwrap();
    assert_eq!(p.entry_price, 123_456);
}

#[test]
fn cancel_returns_everything_to_the_owner() {
    let mut p = active();
    let refund = cancel_position::handler(&mut p, &CancelPosition { owner: owner() });
    assert_eq!(
        refund,
        Ok(Refund { owner: owner(), escrow_amount: 1_000_000, execution_fee: 5_000_000 })
    );
    assert_eq!(p.status, PositionStatus::Cancelled);
    assert_eq!(p.escrow_balance, 0);
    assert_eq!(p.execution_fee_escrow, 0);
    assert_eq!(p.executed_at, None);
    let mut expected = active();
    expected.status = PositionStatus::Cancelled;
    expected.escrow_balance = 0;
    expected.execution_fee_escrow = 0;
    assert_eq!(p, expected);
}

#[test]
fn cancel_is_for_the_owner_only() {
    let mut p = active();
    assert_eq!(
        cancel_position::handler(&mut p, &CancelPosition { owner: stranger() }),
        Err(PyroSwapError::Unauthorized)
    );
    assert_eq!(p, active());
}

#[test]
fn cancel_twice_fails_the_second_time() {
    let mut p = active();
    cancel_position::handler(&mut p, &CancelPosition { owner: owner() }).unwrap();
    let closed = p;
    assert_eq!(
        cancel_position::handler(&mut p, &CancelPosition { owner: owner() }),
        Err(PyroSwapError::PositionAlreadyCancelled)
    );
    assert_eq!(p, closed);
    // A stranger learns the same.
    assert_eq!(
        cancel_position::handler(&mut p, &CancelPosition { owner: stranger() }),
        Err(PyroSwapError::PositionAlreadyCancelled)
    );
}

#[test]
fn execute_after_cancel_fails() {
    let mut p = active();
    cancel_position::handler(&mut p, &CancelPosition { owner: owner() }).unwrap();
    let closed = p;
    assert_eq!(
        execute_position::handler(&mut p, &execute_ctx(1050), None, u64::MAX),
        Err(PyroSwapError::PositionAlreadyCancelled)
    );
    assert_eq!(
        execute_position::plan_swap(&p, &execute_ctx(1050), None),
        Err(PyroSwapError::PositionAlreadyCancelled)
    );
    assert_eq!(p, closed);
}

#[test]
fn plan_sells_the_whole_escrow_for_at_least_the_floor() {
    let p = active();
    let ix = execute_position::plan_swap(&p, &execute_ctx(1050), None).unwrap();
    assert_eq!(ix.dex_type, DexType::Raydium);
    assert_eq!(ix.amount_in, 1_000_000);
    // 1_000_000 * 1050 * 9950 / 10000
    assert_eq!(ix.min_amount_out, 1_044_750_000);
    assert_eq!(Ok(ix), RaydiumAdapter::swap(1_000_000, 1_044_750_000, 19));
    let wide = execute_position::plan_swap(&p, &execute_ctx(1050), Some(1000)).unwrap();
    // 1_000_000 * 1050 * 9000 / 10000
    assert_eq!(wide.min_amount_out, 945_000_000);
    assert_eq!(p, active());
}

#[test]
fn execute_at_take_profit() {
    let mut p = active();
    let got = execute_position::handler(&mut p, &execute_ctx(1050), None, 1_050_000_000);
    assert_eq!(
        got,
        Ok(Settlement {
            fee_destination: treasury(),
            // 0.5% of 1_050_000_000
            protocol_fee: 5_250_000,
            referrer: None,
            referral_fee: 0,
            owner: owner(),
            owner_proceeds: 1_044_750_000,
            executor: keeper(),
            executor_reward: 5_000_000,
        })
    );
    let mut expected = active();
    expected.status = PositionStatus::Executed;
    expected.executed_at = Some(NOW + 5);
    expected.escrow_balance = 0;
    expected.execution_fee_escrow = 0;
    assert_eq!(p, expected);
}

#[test]
fn execute_at_stop_loss() {
    let mut p = active();
    let got = execute_position::handler(&mut p, &execute_ctx(900), Some(0), 900_000_000).unwrap();
    assert_eq!(got.protocol_fee, 4_500_000);
    assert_eq!(got.owner_proceeds, 895_500_000);
    assert_eq!(p.status, PositionStatus::Executed);
}

#[test]
fn execute_pays_the_referrer_of_the_position() {
    let mut p = active();
    p.referrer = Some(stranger());
    let got = execute_position::handler(&mut p, &execute_ctx(2000), Some(1000), 2_000_000_000);
    assert_eq!(
        got,
        Ok(Settlement {
            fee_destination: treasury(),
            protocol_fee: 10_000_000,
            referrer: Some(stranger()),
            referral_fee: 200_000_000,
            owner: owner(),
            owner_proceeds: 1_790_000_000,
            executor: keeper(),
            executor_reward: 5_000_000,
        })
    );
}

#[test]
fn execute_names_the_executor_that_called() {
    let mut p = active();
    let mut ctx = execute_ctx(1050);
    ctx.executor = stranger();
    let got = execute_position::handler(&mut p, &ctx, None, 1_050_000_000).unwrap();
    assert_eq!(got.executor, stranger());
    assert_eq!(got.executor_reward, 5_000_000);
}

#[test]
fn execute_between_the_thresholds_is_refused() {
    let mut p = active();
    for price in [901i64, 950, 1000, 1049] {
        assert_eq!(
            execute_position::handler(&mut p, &execute_ctx(price), None, u64::MAX),
            Err(PyroSwapError::PositionNotTriggered)
        );
        assert_eq!(
            execute_position::plan_swap(&p, &execute_ctx(price), None),
            Err(PyroSwapError::PositionNotTriggered)
        );
    }
    assert_eq!(p, active());
    // Once the price moves, the same position executes.
    assert!(execute_position::handler(&mut p, &execute_ctx(1050), None, u64::MAX).is_ok());
}

#[test]
fn execute_twice_succeeds_exactly_once() {
    let mut p = active();
    assert!(execute_position::handler(&mut p, &execute_ctx(1050), None, 1_050_000_000).is_ok());
    let closed = p;
    assert_eq!(
        execute_position::handler(&mut p, &execute_ctx(1050), None, 1_050_000_000),
        Err(PyroSwapError::PositionAlreadyExecuted)
    );
    assert_eq!(p, closed);
    assert_eq!(
        execute_position::plan_swap(&p, &execute_ctx(1050), None),
        Err(PyroSwapError::PositionAlreadyExecuted)
    );
}

#[test]
fn cancel_after_execute_fails() {
    let mut p = active();
    execute_position::handler(&mut p, &execute_ctx(900), None, 900_000_000).unwrap();
    let closed = p;
    assert_eq!(
        cancel_position::handler(&mut p, &CancelPosition { owner: owner() }),
        Err(PyroSwapError::PositionAlreadyExecuted)
    );
    assert_eq!(
        withdraw_manual::handler(&mut p, &WithdrawManual { owner: owner() }),
        Err(PyroSwapError::PositionAlreadyExecuted)
    );
    assert_eq!(p, closed);
}

#[test]
fn execute_needs_the_feed_of_the_position() {
    let mut p = active();
    let mut ctx = execute_ctx(1050);
    ctx.oracle_price_feed.id = stranger();
    assert_eq!(
        execute_position::handler(&mut p, &ctx, None, u64::MAX),
        Err(PyroSwapError::InvalidOracleAccount)
    );
    assert_eq!(p, active());
}

#[test]
fn execute_needs_a_valid_price() {
    let mut p = active();
    let mut stale = execute_ctx(1050);
    stale.clock.unix_timestamp = NOW + 26;
    assert_eq!(
        execute_position::handler(&mut p, &stale, None, u64::MAX),
        Err(PyroSwapError::StalePriceData)
    );
    assert_eq!(
        execute_position::handler(&mut p, &execute_ctx(0), None, u64::MAX),
        Err(PyroSwapError::InvalidOraclePrice)
    );
    let mut uncertain = execute_ctx(1050);
    uncertain.oracle_price_feed.price.conf = 11;
    assert_eq!(
        execute_position::handler(&mut p, &uncertain, None, u64::MAX),
        Err(PyroSwapError::LowPriceConfidence)
    );
    assert_eq!(p, active());
}

#[test]
fn execute_with_thresholds_that_do_not_fit_is_an_overflow() {
    let mut p = active();
    p.entry_price = u64::MAX / 2;
    let before = p;
    assert_eq!(
        execute_position::handler(&mut p, &execute_ctx(1), None, u64::MAX),
        Err(PyroSwapError::MathOverflow)
    );
    assert_eq!(p, before);
}

#[test]
fn execute_with_a_tolerance_above_the_cap_is_refused() {
    let mut p = active();
    assert_eq!(
        execute_position::handler(&mut p, &execute_ctx(1050), Some(1001), u64::MAX),
        Err(PyroSwapError::InvalidBasisPoints)
    );
    assert!(execute_position::handler(&mut p, &execute_ctx(1050), Some(1000), u64::MAX).is_ok());
}

#[test]
fn execute_with_a_value_that_does_not_fit_is_an_overflow() {
    let mut p = active();
    p.escrow_balance = u64::MAX;
    assert_eq!(
        execute_position::handler(&mut p, &execute_ctx(1050), None, u64::MAX),
        Err(PyroSwapError::MathOverflow)
    );
    assert_eq!(p.status, PositionStatus::Active);
}

#[test]
fn execute_on_a_venue_without_adapter_is_refused() {
    let mut p = active();
    p.preferred_dex = DexType::Phoenix;
    let before = p;
    assert_eq!(
        execute_position::handler(&mut p, &execute_ctx(1050), None, u64::MAX),
        Err(PyroSwapError::InvalidDexType)
    );
    assert_eq!(p, before);
}

#[test]
fn execute_needs_the_accounts_of_the_venue() {
    let mut p = active();
    let mut ctx = execute_ctx(1050);
    ctx.remaining_accounts = 18;
    assert_eq!(
        execute_position::handler(&mut p, &ctx, None, u64::MAX),
        Err(PyroSwapError::InvalidAccountsLength)
    );
    assert_eq!(p, active());
}

#[test]
fn execute_refuses_proceeds_below_the_floor() {
    let mut p = active();
    assert_eq!(
        execute_position::handler(&mut p, &execute_ctx(1050), None, 1_044_749_999),
        Err(PyroSwapError::SlippageExceeded)
    );
    assert_eq!(p, active());
    assert!(execute_position::handler(&mut p, &execute_ctx(1050), None, 1_044_750_000).is_ok());
}

#[test]
fn execute_refuses_fees_above_the_proceeds() {
    let mut p = active();
    let mut ctx = execute_ctx(1050);
    ctx.config.protocol_fee_bps = 10_001;
    assert_eq!(
        execute_position::handler(&mut p, &ctx, None, 2_000_000_000),
        Err(PyroSwapError::InsufficientFunds)
    );
    assert_eq!(p, active());
}

#[test]
fn execute_splits_the_proceeds_exactly() {
    for proceeds in [1_044_750_000u64, 1_044_750_001, 1_999_999_999, u64::MAX] {
        let mut p = active();
        p.referrer = Some(stranger());
        let s = execute_position::handler(&mut p, &execute_ctx(1050), None, proceeds).unwrap();
        assert_eq!(
            s.protocol_fee as u128 + s.referral_fee as u128 + s.owner_proceeds as u128,
            proceeds as u128
        );
        assert_eq!(s.executor_reward, 5_000_000);
    }
}

#[test]
fn withdraw_returns_the_escrow_without_fees() {
    let mut p = active();
    assert_eq!(
        withdraw_manual::handler(&mut p, &WithdrawManual { owner: owner() }),
        Ok(Refund { owner: owner(), escrow_amount: 1_000_000, execution_fee: 5_000_000 })
    );
    assert_eq!(p.status, PositionStatus::Cancelled);
    assert_eq!(p.escrow_balance, 0);
    assert_eq!(p.execution_fee_escrow, 0);
    assert_eq!(
        withdraw_manual::handler(&mut p, &WithdrawManual { owner: owner() }),
        Err(PyroSwapError::PositionAlreadyCancelled)
    );
}

#[test]
fn withdraw_is_for_the_owner_only() {
    let mut p = active();
    assert_eq!(
        withdraw_manual::handler(&mut p, &WithdrawManual { owner: stranger() }),
        Err(PyroSwapError::Unauthorized)
    );
    assert_eq!(p, active());
}

#[test]
fn withdraw_needs_something_in_escrow() {
    let mut p = open_position::handler(&open_ctx(), 0, 1000, 500, 1000, 5_000_000, 0).unwrap();
    let before = p;
    assert_eq!(
        withdraw_manual::handler(&mut p, &WithdrawManual { owner: owner() }),
        Err(PyroSwapError::InvalidAmount)
    );
    assert_eq!(p, before);
    // Cancelling still closes it and returns the reward.
    assert_eq!(
        cancel_position::handler(&mut p, &CancelPosition { owner: owner() }),
        Ok(Refund { owner: owner(), escrow_amount: 0, execution_fee: 5_000_000 })
    );
}

#[test]
fn closed_position_stays_closed_through_any_sequence() {
    let mut p = active();
    cancel_position::handler(&mut p, &CancelPosition { owner: owner() }).unwrap();
    let closed = p;
    for round in 0..3 {
        assert!(cancel_position::handler(&mut p, &CancelPosition { owner: owner() }).is_err());
        assert!(withdraw_manual::handler(&mut p, &WithdrawManual { owner: owner() }).is_err());
        assert!(
            execute_position::handler(&mut p, &execute_ctx(900 + round), None, u64::MAX).is_err()
        );
        assert_eq!(p, closed);
    }
}

#[test]
fn initialize_creates_the_fee_policy() {
    let ctx = Initialize { admin: admin(), fee_destination: treasury() };
    assert_eq!(initialize::handler(&ctx, 50, 1000), Ok(config()));
    assert!(initialize::handler(&ctx, 500, 5000).is_ok());
    assert!(initialize::handler(&ctx, 0, 0).is_ok());
}

#[test]
fn initialize_refuses_rates_above_their_caps() {
    let ctx = Initialize { admin: admin(), fee_destination: treasury() };
    assert_eq!(initialize::handler(&ctx, 501, 0), Err(PyroSwapError::InvalidBasisPoints));
    assert_eq!(initialize::handler(&ctx, 0, 5001), Err(PyroSwapError::InvalidBasisPoints));
    assert_eq!(initialize::handler(&ctx, u16::MAX, u16::MAX), Err(PyroSwapError::InvalidBasisPoints));
}

#[test]
fn admin_changes_the_rates() {
    let mut c = config();
    assert_eq!(initialize::update_fees(&mut c, &admin(), 500, 5000), Ok(()));
    assert_eq!(
        c,
        GlobalConfig {
            admin: admin(),
            fee_destination: treasury(),
            protocol_fee_bps: 500,
            referral_fee_share_bps: 5000,
        }
    );
}

#[test]
fn nobody_else_changes_the_rates() {
    let mut c = config();
    assert_eq!(
        initialize::update_fees(&mut c, &stranger(), 1, 1),
        Err(PyroSwapError::Unauthorized)
    );
    assert_eq!(
        initialize::update_fees(&mut c, &treasury(), 501, 1),
        Err(PyroSwapError::Unauthorized)
    );
    assert_eq!(c, config());
}

#[test]
fn rates_above_their_caps_leave_the_policy_unchanged() {
    let mut c = config();
    assert_eq!(
        initialize::update_fees(&mut c, &admin(), 501, 1000),
        Err(PyroSwapError::InvalidBasisPoints)
    );
    assert_eq!(
        initialize::update_fees(&mut c, &admin(), 50, 5001),
        Err(PyroSwapError::InvalidBasisPoints)
    );
    assert_eq!(c, config());
}

fn swap_ctx(referrer: Option<Address>, remaining_accounts: usize) -> Swap {
    Swap { config: config(), referrer_fee_account: referrer, remaining_accounts }
}

#[test]
fn swap_takes_the_fees_off_the_amount() {
    let plan = swap::handler(&swap_ctx(Some(stranger()), 13), 1_000_000, 42, 1).unwrap();
    assert_eq!(
        plan.fees,
        FeeSplit { protocol_fee: 5_000, referral_fee: 100_000, net_amount: 895_000 }
    );
    assert_eq!(plan.fee_destination, treasury());
    assert_eq!(plan.referrer, Some(stranger()));
    assert_eq!(plan.instruction.dex_type, DexType::Orca);
    assert_eq!(plan.instruction.amount_in, 895_000);
    assert_eq!(plan.instruction.min_amount_out, 42);
    assert_eq!(plan.instruction.data.len(), 33);
}

#[test]
fn swap_without_referrer_pays_no_referral_fee() {
    let plan = swap::handler(&swap_ctx(None, 19), 1_000_000, 0, 0).unwrap();
    assert_eq!(plan.fees, FeeSplit { protocol_fee: 5_000, referral_fee: 0, net_amount: 995_000 });
    assert_eq!(plan.referrer, None);
    assert_eq!(Ok(plan.instruction), RaydiumAdapter::swap(995_000, 0, 19));
}

#[test]
fn swap_of_nothing_is_refused() {
    assert_eq!(swap::handler(&swap_ctx(None, 19), 0, 0, 0), Err(PyroSwapError::InvalidAmount));
    // The amount is looked at first.
    assert_eq!(swap::handler(&swap_ctx(None, 0), 0, 0, 9), Err(PyroSwapError::InvalidAmount));
}

#[test]
fn swap_refuses_fees_above_the_amount() {
    let mut ctx = swap_ctx(Some(stranger()), 19);
    ctx.config.protocol_fee_bps = 5_000;
    ctx.config.referral_fee_share_bps = 5_001;
    assert_eq!(swap::handler(&ctx, 10_000, 0, 0), Err(PyroSwapError::InsufficientFunds));
    // The fees are looked at before the venue.
    assert_eq!(swap::handler(&ctx, 10_000, 0, 9), Err(PyroSwapError::InsufficientFunds));
    ctx.referrer_fee_account = None;
    assert!(swap::handler(&ctx, 10_000, 0, 0).is_ok());
}

#[test]
fn swap_refuses_an_unknown_venue() {
    assert_eq!(swap::handler(&swap_ctx(None, 100), 1, 0, 4), Err(PyroSwapError::InvalidDexType));
    assert_eq!(swap::handler(&swap_ctx(None, 0), 1, 0, 255), Err(PyroSwapError::InvalidDexType));
}

#[test]
fn swap_needs_the_accounts_of_the_venue() {
    assert_eq!(
        swap::handler(&swap_ctx(None, 11), 1, 0, 3),
        Err(PyroSwapError::InvalidAccountsLength)
    );
    assert!(swap::handler(&swap_ctx(None, 12), 1, 0, 3).is_ok());
    assert_eq!(
        swap::handler(&swap_ctx(None, 14), 1, 0, 2),
        Err(PyroSwapError::InvalidAccountsLength)
    );
}
