//! Compile-time risk limits and inline signal validation.
use vstd::prelude::*;
use crate::core_types::{spec_sat_add_i64, saturating_add_i64, saturating_sub_i64, Position, Side, Signal, SignalAction};

verus! {

/// Maximum long position: 1.0 unit.
pub const MAX_POSITION: i64 = 1_000_000_000;

/// Maximum short position (magnitude): 1.0 unit.
pub const MAX_SHORT: i64 = 1_000_000_000;

/// Maximum order size: 0.5 unit.
pub const MAX_ORDER_SIZE: u64 = 500_000_000;

/// Minimum order size: 0.01 unit.
pub const MIN_ORDER_SIZE: u64 = 10_000_000;

/// Maximum daily loss: 1000 in quote currency.
pub const MAX_DAILY_LOSS: i64 = 1_000_000_000_000;

/// Reason a signal failed the risk limits.
#[derive(Clone, Copy, PartialEq, Eq, Structural, Debug)]
pub enum RiskViolation {
    OrderTooSmall,
    OrderTooLarge,
    PositionLimitLong,
    PositionLimitShort,
    DailyLossLimit,
    NoViolation,
}

/// Human readable description of a violation.
pub open spec fn spec_violation_str(v: RiskViolation) -> Seq<char> {
    match v {
        RiskViolation::OrderTooSmall => "Order size below minimum"@,
        RiskViolation::OrderTooLarge => "Order size exceeds maximum"@,
        RiskViolation::PositionLimitLong => "Long position limit exceeded"@,
        RiskViolation::PositionLimitShort => "Short position limit exceeded"@,
        RiskViolation::DailyLossLimit => "Daily loss limit breached"@,
        RiskViolation::NoViolation => "No violation"@,
    }
}

impl RiskViolation {
    /// Human readable description of the violation.
    pub fn as_str(&self) -> (r: &'static str)
        ensures
            r@ == spec_violation_str(*self),
    {
        match self {
            RiskViolation::OrderTooSmall => "Order size below minimum",
            RiskViolation::OrderTooLarge => "Order size exceeds maximum",
            RiskViolation::PositionLimitLong => "Long position limit exceeded",
            RiskViolation::PositionLimitShort => "Short position limit exceeded",
            RiskViolation::DailyLossLimit => "Daily loss limit breached",
            RiskViolation::NoViolation => "No violation",
        }
    }
}

/// Outcome of the position-limit and daily-loss checks.
pub open spec fn spec_position_limits(signal: Signal, position: Position) -> Result<(), RiskViolation> {
    let q = position.quantity as int;
    let size = signal.size as int;
    let buy = spec_sat_add_i64(q, size);
    let sell = spec_sat_add_i64(q, -size);
    let side_check: Result<(), RiskViolation> = match signal.action {
        SignalAction::QuoteBoth => {
            if buy > MAX_POSITION {
                Err(RiskViolation::PositionLimitLong)
            } else if sell < -MAX_SHORT {
                Err(RiskViolation::PositionLimitShort)
            } else {
                Ok(())
            }
        },
        SignalAction::QuoteBid if signal.side == Side::Buy => {
            if buy > MAX_POSITION { Err(RiskViolation::PositionLimitLong) } else { Ok(()) }
        },
        SignalAction::TakePosition if signal.side == Side::Buy => {
            if buy > MAX_POSITION { Err(RiskViolation::PositionLimitLong) } else { Ok(()) }
        },
        SignalAction::QuoteAsk if signal.side == Side::Sell => {
            if sell < -MAX_SHORT { Err(RiskViolation::PositionLimitShort) } else { Ok(()) }
        },
        SignalAction::TakePosition if signal.side == Side::Sell => {
            if sell < -MAX_SHORT { Err(RiskViolation::PositionLimitShort) } else { Ok(()) }
        },
        _ => Ok(()),
    };
    match side_check {
        Err(v) => Err(v),
        Ok(()) => if position.realized_pnl < -MAX_DAILY_LOSS { Err(RiskViolation::DailyLossLimit) } else { Ok(()) },
    }
}

/// Outcome of validating a signal against the limits.
pub open spec fn spec_validate_signal(signal: Signal, position: Position) -> Result<(), RiskViolation> {
    if signal.action == SignalAction::NoAction || signal.action == SignalAction::CancelAll {
        Ok(())
    } else if signal.size > 0 && signal.size < MIN_ORDER_SIZE {
        Err(RiskViolation::OrderTooSmall)
    } else if signal.size > MAX_ORDER_SIZE {
        Err(RiskViolation::OrderTooLarge)
    } else {
        spec_position_limits(signal, position)
    }
}

/// Validate a signal against the order-size, position and daily-loss limits.
///
/// `NoAction` and `CancelAll` always pass. A non-zero size must lie within
/// `[MIN_ORDER_SIZE, MAX_ORDER_SIZE]`; then the projected position on the side(s)
/// the signal trades must stay within `[-MAX_SHORT, MAX_POSITION]`, and realized PnL
/// must not be below `-MAX_DAILY_LOSS`.
pub fn validate_signal(signal: &Signal, position: &Position) -> (r: Result<(), RiskViolation>)
    ensures
        r == spec_validate_signal(*signal, *position),
{
    if matches!(signal.action, SignalAction::NoAction) || matches!(signal.action, SignalAction::CancelAll) {
        return Ok(());
    }
    if signal.requires_action() && signal.size > 0 {
        if signal.size < MIN_ORDER_SIZE {
            return Err(RiskViolation::OrderTooSmall);
        }
        if signal.size > MAX_ORDER_SIZE {
            return Err(RiskViolation::OrderTooLarge);
        }
    }
    validate_position_limits(signal, position)
}

/// Position-limit and daily-loss checks for a signal whose size is at most `MAX_ORDER_SIZE`.
pub fn validate_position_limits(signal: &Signal, position: &Position) -> (r: Result<(), RiskViolation>)
    requires
        signal.size <= MAX_ORDER_SIZE,
    ensures
        r == spec_position_limits(*signal, *position),
{
    let current_position = position.get_quantity();
    let size = signal.size as i64;
    match signal.action {
        SignalAction::QuoteBoth => {
            let buy_projection = saturating_add_i64(current_position, size);
            let sell_projection = saturating_sub_i64(current_position, size);
            if buy_projection > MAX_POSITION {
                return Err(RiskViolation::PositionLimitLong);
            }
            if sell_projection < -MAX_SHORT {
                return Err(RiskViolation::PositionLimitShort);
            }
        },
        SignalAction::QuoteBid | SignalAction::TakePosition => {
            if signal.side == Side::Buy {
                let projection = saturating_add_i64(current_position, size);
                if projection > MAX_POSITION {
                    return Err(RiskViolation::PositionLimitLong);
                }
            } else if matches!(signal.action, SignalAction::TakePosition) {
                let projection = saturating_sub_i64(current_position, size);
                if projection < -MAX_SHORT {
                    return Err(RiskViolation::PositionLimitShort);
                }
            }
        },
        SignalAction::QuoteAsk => {
            if signal.side == Side::Sell {
                let projection = saturating_sub_i64(current_position, size);
                if projection < -MAX_SHORT {
                    return Err(RiskViolation::PositionLimitShort);
                }
            }
        },
        _ => {},
    }
    let daily_pnl = position.get_realized_pnl();
    if daily_pnl < -MAX_DAILY_LOSS {
        return Err(RiskViolation::DailyLossLimit);
    }
    Ok(())
}

/// Whether a position quantity lies within `[-MAX_SHORT, MAX_POSITION]`.
pub fn position_within_limits(position_qty: i64) -> (r: bool)
    ensures
        r == (-MAX_SHORT <= position_qty && position_qty <= MAX_POSITION),
{
    position_qty >= -MAX_SHORT && position_qty <= MAX_POSITION
}

/// Whether an order size lies within `[MIN_ORDER_SIZE, MAX_ORDER_SIZE]`.
pub fn order_size_valid(size: u64) -> (r: bool)
    ensures
        r == (MIN_ORDER_SIZE <= size && size <= MAX_ORDER_SIZE),
{
    size >= MIN_ORDER_SIZE && size <= MAX_ORDER_SIZE
}

/// Any signal that passes validation and trades leaves the projected position
/// within `[-MAX_SHORT, MAX_POSITION]` on each side it trades, provided the current
/// position is itself within those limits.
pub proof fn lemma_validated_signal_keeps_limits(signal: Signal, position: Position)
    requires
        spec_validate_signal(signal, position) is Ok,
        -MAX_SHORT <= position.quantity <= MAX_POSITION,
    ensures
        signal.action == SignalAction::QuoteBoth ==> {
            &&& position.quantity + signal.size <= MAX_POSITION
            &&& position.quantity - signal.size >= -MAX_SHORT
        },
        (signal.action == SignalAction::QuoteBid || signal.action == SignalAction::TakePosition) && signal.side == Side::Buy
            ==> position.quantity + signal.size <= MAX_POSITION,
        (signal.action == SignalAction::QuoteAsk || signal.action == SignalAction::TakePosition) && signal.side == Side::Sell
            ==> position.quantity - signal.size >= -MAX_SHORT,
{
}

} // verus!
