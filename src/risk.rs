use vstd::prelude::*;

use crate::error::ErrorCode;

verus! {

/// Scale of the maintenance margin rate: the rate is given in basis points.
pub const RATE_SCALE: u64 = 10000;

/// Value of `PositionData::side` for a long position; any other value is short.
pub const SIDE_LONG: u64 = 1;

/// Value of `PositionData::side` for a short position.
pub const SIDE_SHORT: u64 = 2;

/// Confidential terms of a position, in fixed-point integers.
#[derive(Clone, Copy, Debug, PartialEq, Eq)]
pub struct PositionData {
    pub entry_price: u64,
    /// Quantity held, in base units.
    pub size: u64,
    pub collateral: u64,
    /// `SIDE_LONG` for a long position; anything else is short.
    pub side: u64,
}

/// Market facts supplied afresh with each risk check.
#[derive(Clone, Copy, Debug, PartialEq, Eq)]
pub struct MarketData {
    pub mark_price: u64,
    /// Maintenance margin rate in basis points (500 is 5%).
    pub maint_margin_bps: u64,
}

/// The verdict of one risk check.
#[derive(Clone, Copy, Debug, PartialEq, Eq, Structural)]
pub struct RiskResult {
    pub is_liquidatable: bool,
    /// Collateral adjusted by the unrealized PnL, floored at zero.
    pub equity: u64,
    pub pnl_is_positive: bool,
}

pub open spec fn is_long(pos: PositionData) -> bool {
    pos.side == SIDE_LONG
}

/// The position is in profit: long with the mark at or above entry, or short
/// with the mark below entry.
pub open spec fn spec_is_profit(pos: PositionData, mkt: MarketData) -> bool {
    if is_long(pos) {
        mkt.mark_price >= pos.entry_price
    } else {
        mkt.mark_price < pos.entry_price
    }
}

pub open spec fn spec_price_delta(a: int, b: int) -> int {
    if a >= b { a - b } else { b - a }
}

/// Absolute unrealized PnL: the price movement times the size in base units.
pub open spec fn spec_abs_pnl(pos: PositionData, mkt: MarketData) -> int {
    spec_price_delta(mkt.mark_price as int, pos.entry_price as int) * pos.size
}

/// Equity: collateral plus the profit, or minus the loss, floored at zero.
pub open spec fn spec_equity(pos: PositionData, mkt: MarketData) -> int {
    if spec_is_profit(pos, mkt) {
        pos.collateral + spec_abs_pnl(pos, mkt)
    } else if pos.collateral >= spec_abs_pnl(pos, mkt) {
        pos.collateral - spec_abs_pnl(pos, mkt)
    } else {
        0
    }
}

/// The position's value at the mark price.
pub open spec fn spec_position_value(pos: PositionData, mkt: MarketData) -> int {
    mkt.mark_price * pos.size
}

/// Minimum equity that keeps the position safe.
pub open spec fn spec_maint_requirement(pos: PositionData, mkt: MarketData) -> int {
    (spec_position_value(pos, mkt) * mkt.maint_margin_bps) / (RATE_SCALE as int)
}

pub open spec fn spec_is_liquidatable(pos: PositionData, mkt: MarketData) -> bool {
    spec_equity(pos, mkt) < spec_maint_requirement(pos, mkt)
}

/// Some intermediate value of the risk model does not fit in 64 bits: the PnL,
/// the equity of a position in profit, or the position's value.
pub open spec fn spec_overflows(pos: PositionData, mkt: MarketData) -> bool {
    spec_abs_pnl(pos, mkt) > u64::MAX
        || (spec_is_profit(pos, mkt) && spec_equity(pos, mkt) > u64::MAX)
        || spec_position_value(pos, mkt) > u64::MAX
}

/// The verdict that the risk model gives.
pub open spec fn spec_risk(pos: PositionData, mkt: MarketData) -> RiskResult {
    RiskResult {
        is_liquidatable: spec_is_liquidatable(pos, mkt),
        equity: spec_equity(pos, mkt) as u64,
        pnl_is_positive: spec_is_profit(pos, mkt),
    }
}

/// The difference between the larger and the smaller of two prices.
pub fn price_delta(a: u64, b: u64) -> (r: u64)
    ensures
        r as int == spec_price_delta(a as int, b as int),
{
    if a >= b {
        a - b
    } else {
        b - a
    }
}

/// Absolute unrealized PnL and whether it is a profit.
pub fn unrealized_pnl(pos: &PositionData, mkt: &MarketData) -> (r: Result<(u64, bool), ErrorCode>)
    ensures
        spec_abs_pnl(*pos, *mkt) > u64::MAX <==> r == Err::<(u64, bool), ErrorCode>(
            ErrorCode::ArithmeticOverflow,
        ),
        spec_abs_pnl(*pos, *mkt) <= u64::MAX ==> r == Ok::<(u64, bool), ErrorCode>(
            (spec_abs_pnl(*pos, *mkt) as u64, spec_is_profit(*pos, *mkt)),
        ),
{
    let mark_ge_entry = mkt.mark_price >= pos.entry_price;
    let is_profit = if pos.side == SIDE_LONG {
        mark_ge_entry
    } else {
        !mark_ge_entry
    };
    let delta = price_delta(mkt.mark_price, pos.entry_price);
    match delta.checked_mul(pos.size) {
        Some(abs_pnl) => Ok((abs_pnl, is_profit)),
        None => Err(ErrorCode::ArithmeticOverflow),
    }
}

/// Equity of a position with the given collateral and PnL, floored at zero.
pub fn equity_of(collateral: u64, abs_pnl: u64, is_profit: bool) -> (r: Result<u64, ErrorCode>)
    ensures
        (is_profit && collateral + abs_pnl > u64::MAX) <==> r == Err::<u64, ErrorCode>(
            ErrorCode::ArithmeticOverflow,
        ),
        is_profit && collateral + abs_pnl <= u64::MAX ==> r == Ok::<u64, ErrorCode>(
            (collateral + abs_pnl) as u64,
        ),
        !is_profit && collateral >= abs_pnl ==> r == Ok::<u64, ErrorCode>(
            (collateral - abs_pnl) as u64,
        ),
        !is_profit && collateral < abs_pnl ==> r == Ok::<u64, ErrorCode>(0),
{
    if is_profit {
        match collateral.checked_add(abs_pnl) {
            Some(e) => Ok(e),
            None => Err(ErrorCode::ArithmeticOverflow),
        }
    } else if collateral >= abs_pnl {
        Ok(collateral - abs_pnl)
    } else {
        Ok(0)
    }
}

/// Maintenance requirement: mark price times size times the rate, over the
/// rate's scale. The position value must fit in 64 bits; the product with the
/// rate is taken in 128 bits.
pub fn maintenance_requirement(pos: &PositionData, mkt: &MarketData) -> (r: Result<u128, ErrorCode>)
    ensures
        spec_position_value(*pos, *mkt) > u64::MAX <==> r == Err::<u128, ErrorCode>(
            ErrorCode::ArithmeticOverflow,
        ),
        spec_position_value(*pos, *mkt) <= u64::MAX ==> r == Ok::<u128, ErrorCode>(
            spec_maint_requirement(*pos, *mkt) as u128,
        ),
        r matches Ok(m) ==> m as int == spec_maint_requirement(*pos, *mkt),
{
    match mkt.mark_price.checked_mul(pos.size) {
        Some(value) => {
            let v = value as u128;
            let bps = mkt.maint_margin_bps as u128;
            assert(v * bps <= u64::MAX * u64::MAX) by (nonlinear_arith)
                requires
                    v <= u64::MAX,
                    bps <= u64::MAX,
            ;
            let product = v * bps;
            let req = product / (RATE_SCALE as u128);
            assert(req as int == spec_maint_requirement(*pos, *mkt));
            assert(req <= product) by (nonlinear_arith)
                requires
                    req == product / 10000,
            ;
            Ok(req)
        },
        None => Err(ErrorCode::ArithmeticOverflow),
    }
}

/// Evaluates the risk of a position at the given market facts.
///
/// Fails with `ArithmeticOverflow` exactly when an intermediate value of the
/// model does not fit in 64 bits; otherwise returns the model's verdict.
pub fn check_risk(pos: &PositionData, mkt: &MarketData) -> (r: Result<RiskResult, ErrorCode>)
    ensures
        spec_overflows(*pos, *mkt) <==> r == Err::<RiskResult, ErrorCode>(
            ErrorCode::ArithmeticOverflow,
        ),
        !spec_overflows(*pos, *mkt) ==> r == Ok::<RiskResult, ErrorCode>(spec_risk(*pos, *mkt)),
        r matches Ok(v) ==> v.is_liquidatable == ((v.equity as int) < spec_maint_requirement(
            *pos,
            *mkt,
        )),
{
    let (abs_pnl, is_profit) = match unrealized_pnl(pos, mkt) {
        Ok(p) => p,
        Err(e) => {
            return Err(e);
        },
    };
    let equity = match equity_of(pos.collateral, abs_pnl, is_profit) {
        Ok(e) => e,
        Err(e) => {
            return Err(e);
        },
    };
    let maint_req = match maintenance_requirement(pos, mkt) {
        Ok(m) => m,
        Err(e) => {
            return Err(e);
        },
    };
    proof {
        lemma_equity_nonnegative(*pos, *mkt);
    }
    assert(equity as int == spec_equity(*pos, *mkt));
    let is_unsafe = (equity as u128) < maint_req;
    Ok(RiskResult { is_liquidatable: is_unsafe, equity, pnl_is_positive: is_profit })
}

/// Equity is never negative, for every position and market.
pub proof fn lemma_equity_nonnegative(pos: PositionData, mkt: MarketData)
    ensures
        spec_equity(pos, mkt) >= 0,
{
    assert(spec_abs_pnl(pos, mkt) >= 0) by (nonlinear_arith)
        requires
            spec_abs_pnl(pos, mkt) == spec_price_delta(
                mkt.mark_price as int,
                pos.entry_price as int,
            ) * pos.size,
            spec_price_delta(mkt.mark_price as int, pos.entry_price as int) >= 0,
            pos.size >= 0,
    ;
}

/// A position is liquidatable exactly when its equity is below the
/// maintenance requirement.
pub proof fn lemma_liquidatable_iff_below_requirement(pos: PositionData, mkt: MarketData)
    requires
        !spec_overflows(pos, mkt),
    ensures
        spec_risk(pos, mkt).is_liquidatable <==> spec_equity(pos, mkt)
            < spec_maint_requirement(pos, mkt),
        spec_risk(pos, mkt).equity as int == spec_equity(pos, mkt),
{
    lemma_equity_nonnegative(pos, mkt);
    if spec_is_profit(pos, mkt) {
    } else {
    }
}

} // verus!
