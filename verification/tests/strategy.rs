use spearmint::model::args::{CloseCriteria, OpenCriteria};
use spearmint::model::{BotCommand, MfiDirection, Session, TradeStatus};
use spearmint::strategy::calculate_percent_change;
use spearmint::strategy::helldiver::HellDiverStrategy;

fn rung(
    mfi_below: u64,
    mfi_callback: i64,
    price_change_below: i64,
    price_callback: i64,
    amount_ratio: u64,
) -> OpenCriteria {
    OpenCriteria { mfi_below, mfi_callback, price_change_below, price_callback, amount_ratio }
}

fn strategy_with_ladder(rungs: Vec<OpenCriteria>) -> HellDiverStrategy {
    HellDiverStrategy {
        first_buy_in: 1000,
        // mfi < 40, recovered > 5 off the floor; price < -1.0% from top, > 0.3% off bottom
        entry: rung(400_000, 50_000, -10_000, 3_000, 10_000),
        // price > +2.0% over average, pulled back < 0.5% from top
        take_profit: CloseCriteria { price_change_above: 20_000, price_callback: 5_000 },
        margin_configuration: rungs,
    }
}

fn session(status: TradeStatus, avg: u64, top: u64, bottom: u64, position: u64) -> Session {
    Session {
        status,
        avg_price: avg,
        top_price: top,
        bottom_price: bottom,
        margin_position: position,
        mfi: 350_000,
        mfi_dir: MfiDirection::Up,
        bottom_mfi: 250_000,
    }
}

#[test]
fn percent_change_of_identical_prices_is_zero() {
    assert_eq!(calculate_percent_change(100, 100), 0);
    assert_eq!(calculate_percent_change(1, 1), 0);
    assert_eq!(calculate_percent_change(u64::MAX, u64::MAX), 0);
}

#[test]
fn percent_change_of_zero_baseline_is_the_sentinel() {
    assert_eq!(calculate_percent_change(0, 12345), 0);
    assert_eq!(calculate_percent_change(0, 0), 0);
}

#[test]
fn percent_change_exact_values() {
    // -1.5% of 100.00, +2000/9800 and the two take-profit legs
    assert_eq!(calculate_percent_change(10_000, 9_850), -15_000);
    assert_eq!(calculate_percent_change(9_800, 9_850), 5_102);
    assert_eq!(calculate_percent_change(10_000, 10_400), 40_000);
    assert_eq!(calculate_percent_change(10_500, 10_400), -9_523);
    assert_eq!(calculate_percent_change(100, 200), 1_000_000);
}

#[test]
fn entry_fires_on_confirmed_dip() {
    // WAIT at 98.50 with top 100.00 and bottom 98.00: down 1.5% from the
    // top, up 0.51% off the bottom, momentum depressed but recovering
    let strat = strategy_with_ladder(vec![]);
    let s = session(TradeStatus::Wait, 0, 10_000, 9_800, 0);
    assert_eq!(strat.run(9_850, s), BotCommand::Entry(1000));
}

#[test]
fn entry_needs_rising_momentum() {
    let strat = strategy_with_ladder(vec![]);
    let mut s = session(TradeStatus::Wait, 0, 10_000, 9_800, 0);
    s.mfi_dir = MfiDirection::Down;
    assert_eq!(strat.run(9_850, s), BotCommand::Pause());
}

#[test]
fn sell_fires_on_profit_with_pullback() {
    // OPEN at 104.00 with average 100.00 and top 105.00: up 4% over the
    // average, already 0.95% under the top
    let strat = strategy_with_ladder(vec![]);
    let s = session(TradeStatus::Open, 10_000, 10_500, 9_800, 0);
    assert_eq!(strat.run(10_400, s), BotCommand::Sell());
}

#[test]
fn sell_waits_for_the_pullback() {
    // at 106.00 the price is above the profit threshold but still above
    // the top: no pullback confirmation, and 106.00 > top means no sell
    let strat = strategy_with_ladder(vec![]);
    let s = session(TradeStatus::Open, 10_000, 10_500, 9_800, 0);
    assert_eq!(strat.run(10_600, s), BotCommand::Pause());
}

#[test]
fn buy_takes_the_next_rung() {
    // OPEN at 97.00 with average 100.00: down 3% from the average,
    // bounced 0.51% off the bottom 96.50; the rung doubles the buy-in
    let rungs = vec![rung(400_000, 50_000, -20_000, 3_000, 20_000)];
    let strat = strategy_with_ladder(rungs);
    let s = session(TradeStatus::Open, 10_000, 10_500, 9_650, 0);
    assert_eq!(strat.run(9_700, s), BotCommand::Buy(2000));
}

#[test]
fn buy_stops_when_the_ladder_is_exhausted() {
    let rungs = vec![rung(400_000, 50_000, -20_000, 3_000, 20_000)];
    let strat = strategy_with_ladder(rungs);
    let s = session(TradeStatus::Open, 10_000, 10_500, 9_650, 1);
    assert_eq!(strat.run(9_700, s), BotCommand::Pause());
}

#[test]
fn margin_position_counts_successful_buys() {
    // three identical rungs, three qualifying ticks: the position climbs
    // 0, 1, 2, 3 and never passes the ladder's length
    let r = rung(400_000, 50_000, -20_000, 3_000, 20_000);
    let strat = strategy_with_ladder(vec![r.clone(), r.clone(), r]);
    let mut position: u64 = 0;
    for n in 1..=3u64 {
        let s = session(TradeStatus::Open, 10_000, 10_500, 9_650, position);
        match strat.run(9_700, s) {
            BotCommand::Buy(amount) => {
                assert_eq!(amount, 2000);
                position += 1;
            }
            other => panic!("expected a buy at rung {}, got {:?}", n - 1, other),
        }
        assert_eq!(position, n);
        assert!(position <= 3);
    }
    // the ladder is spent: the same tick no longer buys
    let s = session(TradeStatus::Open, 10_000, 10_500, 9_650, position);
    assert_eq!(strat.run(9_700, s), BotCommand::Pause());
}
