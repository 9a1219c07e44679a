use arcperps::codec::{decode_risk_output, encode_risk_output};
use arcperps::error::ErrorCode;
use arcperps::risk::{
    check_risk, equity_of, maintenance_requirement, price_delta, unrealized_pnl, MarketData,
    PositionData, RiskResult, SIDE_LONG, SIDE_SHORT,
};

fn position(entry_price: u64, size: u64, collateral: u64, side: u64) -> PositionData {
    PositionData { entry_price, size, collateral, side }
}

fn market(mark_price: u64) -> MarketData {
    MarketData { mark_price, maint_margin_bps: 500 }
}

#[test]
fn long_in_profit_is_safe() {
    let pos = position(100_000000, 10, 100_000000, SIDE_LONG);
    let mkt = market(120_000000);
    assert_eq!(unrealized_pnl(&pos, &mkt), Ok((200_000000, true)));
    assert_eq!(maintenance_requirement(&pos, &mkt), Ok(60_000000));
    assert_eq!(
        check_risk(&pos, &mkt),
        Ok(RiskResult { is_liquidatable: false, equity: 300_000000, pnl_is_positive: true })
    );
}

#[test]
fn long_bankrupt_is_liquidatable() {
    let pos = position(100_000000, 10, 100_000000, SIDE_LONG);
    let mkt = market(80_000000);
    assert_eq!(unrealized_pnl(&pos, &mkt), Ok((200_000000, false)));
    assert_eq!(maintenance_requirement(&pos, &mkt), Ok(40_000000));
    assert_eq!(
        check_risk(&pos, &mkt),
        Ok(RiskResult { is_liquidatable: true, equity: 0, pnl_is_positive: false })
    );
}

#[test]
fn short_profits_when_price_falls() {
    let pos = position(100, 2, 50, SIDE_SHORT);
    let r = check_risk(&pos, &market(90)).unwrap();
    assert_eq!(r, RiskResult { is_liquidatable: false, equity: 70, pnl_is_positive: true });
}

#[test]
fn short_loses_when_price_rises() {
    let pos = position(100, 2, 50, SIDE_SHORT);
    let r = check_risk(&pos, &market(110)).unwrap();
    assert_eq!(r, RiskResult { is_liquidatable: false, equity: 30, pnl_is_positive: false });
}

#[test]
fn short_at_entry_price_is_a_loss_of_zero() {
    let pos = position(100, 2, 50, SIDE_SHORT);
    assert_eq!(unrealized_pnl(&pos, &market(100)), Ok((0, false)));
    assert_eq!(check_risk(&pos, &market(100)).unwrap().equity, 50);
}

#[test]
fn side_other_than_long_counts_as_short() {
    let pos = position(100, 2, 50, 7);
    assert_eq!(unrealized_pnl(&pos, &market(90)), Ok((20, true)));
}

#[test]
fn liquidatable_exactly_below_requirement() {
    // value 10_000 * 1 at 500 bps: requirement 500
    let at_requirement = position(10_000, 1, 500, SIDE_LONG);
    assert!(!check_risk(&at_requirement, &market(10_000)).unwrap().is_liquidatable);
    let just_below = position(10_000, 1, 499, SIDE_LONG);
    assert!(check_risk(&just_below, &market(10_000)).unwrap().is_liquidatable);
}

#[test]
fn zero_collateral_and_zero_size() {
    let empty = position(100, 0, 0, SIDE_LONG);
    assert_eq!(
        check_risk(&empty, &market(50)),
        Ok(RiskResult { is_liquidatable: false, equity: 0, pnl_is_positive: false })
    );
}

#[test]
fn requirement_rounds_down() {
    let pos = position(3, 1, 0, SIDE_LONG);
    let mkt = MarketData { mark_price: 3, maint_margin_bps: 5000 };
    assert_eq!(maintenance_requirement(&pos, &mkt), Ok(1));
}

#[test]
fn position_value_overflow_is_reported() {
    let big = u64::MAX / 2;
    let pos = position(big, 3, 1, SIDE_LONG);
    assert_eq!(check_risk(&pos, &market(big)), Err(ErrorCode::ArithmeticOverflow));
    assert_eq!(maintenance_requirement(&pos, &market(big)), Err(ErrorCode::ArithmeticOverflow));
}

#[test]
fn pnl_overflow_is_reported() {
    let pos = position(1, u64::MAX, 1, SIDE_LONG);
    assert_eq!(unrealized_pnl(&pos, &market(3)), Err(ErrorCode::ArithmeticOverflow));
    assert_eq!(check_risk(&pos, &market(3)), Err(ErrorCode::ArithmeticOverflow));
}

#[test]
fn equity_overflow_is_reported() {
    assert_eq!(equity_of(u64::MAX, 1, true), Err(ErrorCode::ArithmeticOverflow));
    let pos = position(1, 1, u64::MAX, SIDE_LONG);
    assert_eq!(check_risk(&pos, &market(2)), Err(ErrorCode::ArithmeticOverflow));
}

#[test]
fn large_rate_product_does_not_overflow() {
    let pos = position(u64::MAX, 1, u64::MAX, SIDE_LONG);
    let mkt = MarketData { mark_price: u64::MAX, maint_margin_bps: 20_000 };
    assert_eq!(maintenance_requirement(&pos, &mkt), Ok(2 * (u64::MAX as u128)));
    assert!(check_risk(&pos, &mkt).unwrap().is_liquidatable);
}

#[test]
fn equity_is_floored_at_zero() {
    assert_eq!(equity_of(10, 11, false), Ok(0));
    assert_eq!(equity_of(10, 10, false), Ok(0));
    assert_eq!(equity_of(10, 4, false), Ok(6));
    assert_eq!(equity_of(10, 4, true), Ok(14));
}

#[test]
fn price_delta_is_symmetric() {
    assert_eq!(price_delta(7, 3), 4);
    assert_eq!(price_delta(3, 7), 4);
    assert_eq!(price_delta(0, u64::MAX), u64::MAX);
}

fn payload(liq: u64, equity: u64, profit: u64) -> Vec<u8> {
    let mut v = Vec::new();
    v.extend_from_slice(&liq.to_le_bytes());
    v.extend_from_slice(&equity.to_le_bytes());
    v.extend_from_slice(&profit.to_le_bytes());
    v
}

#[test]
fn decode_reads_three_little_endian_fields() {
    let p = payload(1, 0x0102_0304_0506_0708, 0);
    assert_eq!(
        decode_risk_output(&p),
        Ok(RiskResult { is_liquidatable: true, equity: 0x0102_0304_0506_0708, pnl_is_positive: false })
    );
    let q = payload(0, u64::MAX, 1);
    assert_eq!(
        decode_risk_output(&q),
        Ok(RiskResult { is_liquidatable: false, equity: u64::MAX, pnl_is_positive: true })
    );
}

#[test]
fn decode_flag_other_than_one_is_unset() {
    let p = payload(2, 5, 256);
    assert_eq!(
        decode_risk_output(&p),
        Ok(RiskResult { is_liquidatable: false, equity: 5, pnl_is_positive: false })
    );
}

#[test]
fn decode_truncated_payload_fails() {
    let p = payload(1, 5, 1);
    assert_eq!(decode_risk_output(&p[..16]), Err(ErrorCode::DecodeError));
    assert_eq!(decode_risk_output(&p[..23]), Err(ErrorCode::DecodeError));
    assert_eq!(decode_risk_output(&[]), Err(ErrorCode::DecodeError));
}

#[test]
fn encode_writes_fixed_layout() {
    let r = RiskResult { is_liquidatable: true, equity: 0x0102_0304_0506_0708, pnl_is_positive: false };
    assert_eq!(encode_risk_output(&r), payload(1, 0x0102_0304_0506_0708, 0));
}

#[test]
fn decode_of_encode_is_identity() {
    for r in [
        RiskResult { is_liquidatable: false, equity: 0, pnl_is_positive: false },
        RiskResult { is_liquidatable: true, equity: u64::MAX, pnl_is_positive: true },
        RiskResult { is_liquidatable: false, equity: 300_000000, pnl_is_positive: true },
    ] {
        assert_eq!(decode_risk_output(&encode_risk_output(&r)), Ok(r));
    }
}

#[test]
fn evaluator_output_survives_the_layout() {
    let pos = position(100_000000, 10, 100_000000, SIDE_LONG);
    let r = check_risk(&pos, &market(80_000000)).unwrap();
    let bytes = encode_risk_output(&r);
    assert_eq!(bytes.len(), 24);
    assert_eq!(decode_risk_output(&bytes), Ok(r));
}
