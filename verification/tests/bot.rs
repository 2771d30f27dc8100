use spearmint::bot::{mfi_direction, record_close_trade, record_open_trade, Bot, BotBuilder,
    BotInfo, TickPlan};
use spearmint::connector::binance::Connector;
use spearmint::model::args::{CloseCriteria, OpenCriteria};
use spearmint::model::result::{BotState, Trade, Transaction};
use spearmint::model::{BotCommand, MfiDirection, TradeStatus};
use spearmint::strategy::helldiver::HellDiverStrategy;

fn info() -> BotInfo {
    BotInfo {
        platform: "binance".to_string(),
        pair: "PENGUUSDT".to_string(),
        base: "PENGU".to_string(),
        quote: "USDT".to_string(),
    }
}

fn strategy() -> HellDiverStrategy {
    HellDiverStrategy {
        first_buy_in: 1000,
        entry: OpenCriteria {
            mfi_below: 400_000,
            mfi_callback: 50_000,
            price_change_below: -10_000,
            price_callback: 3_000,
            amount_ratio: 10_000,
        },
        take_profit: CloseCriteria { price_change_above: 20_000, price_callback: 5_000 },
        margin_configuration: vec![OpenCriteria {
            mfi_below: 400_000,
            mfi_callback: 50_000,
            price_change_below: -20_000,
            price_callback: 3_000,
            amount_ratio: 20_000,
        }],
    }
}

fn bot() -> Bot {
    BotBuilder::new()
        .with_info(info())
        .with_strategy(strategy())
        .with_connector(Connector::from_credential("key".to_string(), "secret".to_string()))
        .build()
}

fn state(cycle: u64, position: u64, top: u64, bottom: u64, bottom_mfi: u64) -> BotState {
    BotState {
        id: 7,
        pair: "PENGUUSDT".to_string(),
        cycle,
        margin_position: position,
        top_price: top,
        bottom_price: bottom,
        bottom_mfi,
        platform: "binance".to_string(),
        timestamp: 1,
    }
}

fn trade(cycle: u64, status: TradeStatus) -> Trade {
    Trade {
        pair: "PENGUUSDT".to_string(),
        cycle,
        price: 10_000,
        qty: 5,
        platform: "binance".to_string(),
        status,
        timestamp: 1,
    }
}

#[test]
fn price_level_snaps_a_stale_top_back_to_the_average() {
    // average 100, top 110, bottom 90: a tick at 95 (below the average)
    // collapses the top to the average and leaves the bottom alone
    let b = bot();
    let (top, bottom) = b.update_price_level(95, Some(100), 110, 90);
    assert_eq!(top, Some(100));
    assert_eq!(bottom, None);
}

#[test]
fn price_level_tracks_new_extremes() {
    let b = bot();
    // a new high: the top follows it, and the stale bottom under the
    // average snaps back to the average
    let (top, bottom) = b.update_price_level(120, Some(100), 110, 90);
    assert_eq!(top, Some(120));
    assert_eq!(bottom, Some(100));
    let (top, bottom) = b.update_price_level(85, Some(100), 110, 90);
    assert_eq!(top, Some(100));
    assert_eq!(bottom, Some(85));
}

#[test]
fn price_level_stands_still_without_an_average() {
    // no open trade yet: only genuine new extremes move the bounds
    let b = bot();
    let (top, bottom) = b.update_price_level(95, None, 110, 90);
    assert_eq!(top, None);
    assert_eq!(bottom, None);
}

#[test]
fn mfi_floor_resets_when_overbought() {
    // floor 30, reading 55: 55 > 50 resets the floor to the reading
    let b = bot();
    assert_eq!(b.update_mfi_level(550_000, 300_000), Some(550_000));
}

#[test]
fn mfi_floor_follows_a_new_low() {
    // floor 30, reading 25: a new floor
    let b = bot();
    assert_eq!(b.update_mfi_level(250_000, 300_000), Some(250_000));
}

#[test]
fn mfi_floor_holds_between_floor_and_overbought() {
    let b = bot();
    assert_eq!(b.update_mfi_level(350_000, 300_000), None);
}

#[test]
fn mfi_direction_is_strictly_rising() {
    assert_eq!(mfi_direction(350_000, 300_000), MfiDirection::Up);
    assert_eq!(mfi_direction(300_000, 300_000), MfiDirection::Down);
    assert_eq!(mfi_direction(250_000, 300_000), MfiDirection::Down);
}

#[test]
fn first_tick_bootstraps_the_first_cycle() {
    let b = bot();
    match b.update(None, None, None, 350_000, 300_000, 9_850) {
        TickPlan::Bootstrap { trade, state } => {
            assert_eq!(trade.cycle, 1);
            assert_eq!(trade.status, TradeStatus::Wait);
            assert_eq!(trade.price, 0);
            assert_eq!(trade.qty, 0);
            assert_eq!(trade.pair, "PENGUUSDT");
            assert_eq!(state.cycle, 1);
            assert_eq!(state.margin_position, 0);
            assert_eq!(state.top_price, 9_850);
            assert_eq!(state.bottom_price, 9_850);
            assert_eq!(state.bottom_mfi, 800_000);
            assert_eq!(state.timestamp, trade.timestamp);
        }
        other => panic!("expected a bootstrap plan, got {:?}", other),
    }
}

#[test]
fn closed_cycle_bootstraps_the_next_one() {
    let b = bot();
    let closed = trade(4, TradeStatus::Close);
    let st = state(4, 1, 10_500, 9_650, 250_000);
    match b.update(Some(&closed), Some(&st), None, 350_000, 300_000, 10_400) {
        TickPlan::Bootstrap { trade, state } => {
            assert_eq!(trade.cycle, 5);
            assert_eq!(state.cycle, 5);
            assert_eq!(state.top_price, 10_400);
        }
        other => panic!("expected a bootstrap plan, got {:?}", other),
    }
}

#[test]
fn waiting_tick_plans_an_entry() {
    // bootstrapped cycle, extremes tracked to top 100.00 / bottom 98.00,
    // tick at 98.50 with recovering momentum: the plan is an entry and
    // no tracker field moved
    let b = bot();
    let waiting = trade(2, TradeStatus::Wait);
    let st = state(2, 0, 10_000, 9_800, 250_000);
    match b.update(Some(&waiting), Some(&st), None, 350_000, 300_000, 9_850) {
        TickPlan::Act { top_price, bottom_price, bottom_mfi, command } => {
            assert_eq!(top_price, None);
            assert_eq!(bottom_price, None);
            assert_eq!(bottom_mfi, None);
            assert_eq!(command, BotCommand::Entry(1000));
        }
        other => panic!("expected an act plan, got {:?}", other),
    }
}

#[test]
fn open_tick_updates_trackers_before_pausing() {
    // open position, average 100: a tick at 95 snaps the stale top back,
    // the falling oscillator lowers its floor, and no rule fires (the
    // momentum recovery gate fails on a falling reading)
    let b = bot();
    let open = trade(3, TradeStatus::Open);
    let st = state(3, 0, 110, 90, 300_000);
    match b.update(Some(&open), Some(&st), Some(100), 250_000, 300_000, 95) {
        TickPlan::Act { top_price, bottom_price, bottom_mfi, command } => {
            assert_eq!(top_price, Some(100));
            assert_eq!(bottom_price, None);
            assert_eq!(bottom_mfi, Some(250_000));
            assert_eq!(command, BotCommand::Pause());
        }
        other => panic!("expected an act plan, got {:?}", other),
    }
}

#[test]
fn recorded_fills_carry_the_instrument_and_cycle() {
    let tx = Transaction {
        order_id: 42,
        pair: "PENGUUSDT".to_string(),
        price: 9_850,
        qty: 203,
        platform: "binance".to_string(),
        timestamp: 99,
    };
    let open = record_open_trade(&info(), 6, &tx);
    assert_eq!(open.pair, "PENGUUSDT");
    assert_eq!(open.platform, "binance");
    assert_eq!(open.cycle, 6);
    assert_eq!(open.price, 9_850);
    assert_eq!(open.qty, 203);
    assert_eq!(open.status, TradeStatus::Open);
    let close = record_close_trade(&info(), 6, &tx);
    assert_eq!(close.status, TradeStatus::Close);
    assert_eq!(close.cycle, 6);
}

#[test]
fn a_buy_advances_one_rung_and_restarts_the_floor() {
    let b = bot();
    let st = state(3, 1, 10_500, 9_650, 250_000);
    let (position, floor) = b.record_buy(&st, 340_000);
    assert_eq!(position, 2);
    assert_eq!(floor, 340_000);
}

#[test]
fn builder_assembles_the_bot() {
    let b = bot();
    assert_eq!(b.info.as_ref().unwrap().pair, "PENGUUSDT");
    assert_eq!(b.strategy.as_ref().unwrap().first_buy_in, 1000);
    assert_eq!(b.connector.as_ref().unwrap().api_key, "key");
}

#[test]
fn open_tick_plans_an_averaging_buy() {
    // open position at rung 0, price 3% under the average and bounced
    // off the bottom, momentum recovering: the plan buys the rung's
    // amount, and the stale top snaps back to the average
    let b = bot();
    let open = trade(3, TradeStatus::Open);
    let st = state(3, 0, 10_500, 9_650, 250_000);
    match b.update(Some(&open), Some(&st), Some(10_000), 350_000, 300_000, 9_700) {
        TickPlan::Act { top_price, bottom_price, bottom_mfi, command } => {
            assert_eq!(top_price, Some(10_000));
            assert_eq!(bottom_price, None);
            assert_eq!(bottom_mfi, None);
            assert_eq!(command, BotCommand::Buy(2000));
        }
        other => panic!("expected an act plan, got {:?}", other),
    }
}
