//! Risk management: the risk manager with its configurable limits, the flash-crash
//! circuit breaker and pre-trade checks.
//!
//! The risk manager validates signals against the kill switch, order size limits,
//! price sanity (tick and distance from mid), projected position including open
//! exposure, and the number of outstanding orders; it also checks the daily loss and
//! drawdown limits and resets the daily PnL at the start of each UTC day.
pub mod circuit_breaker;
pub mod pre_trade;
pub mod rate_limiter;

use vstd::prelude::*;
use vstd::string::StringExecFns;
use crate::clock::{unix_now_secs, unix_secs_at};
use crate::config::{MAX_DRAWDOWN, TICK_SIZE};
use crate::core_types::{saturating_add_i64, saturating_sub_i64, spec_sat_add_i64, Position, Side, Signal, SignalAction, SCALE};
use crate::engine::risk::{MAX_DAILY_LOSS, MAX_POSITION, MAX_SHORT};
use crate::resilience::kill_switch::{KillSwitch, KillSwitchState};
use crate::risk::pre_trade::{distance_bps_u32, kill_switch_state};
use crate::text::{dec_digits, dec_signed, push_i64, push_u64};

verus! {

/// Seconds in a day.
pub const SECONDS_PER_DAY: u64 = 86_400;

/// Risk limits, in nine-decimal fixed point.
#[derive(Clone, Copy, PartialEq, Eq, Structural, Debug)]
pub struct RiskLimits {
    /// Maximum long position.
    pub max_position: i64,
    /// Maximum short position (magnitude).
    pub max_short: i64,
    /// Maximum size per order.
    pub max_order_size: i64,
    /// Minimum size per order.
    pub min_order_size: i64,
    /// Maximum number of outstanding orders.
    pub max_outstanding_orders: usize,
    /// Maximum daily loss (magnitude).
    pub max_daily_loss: i64,
    /// Maximum drawdown from the peak, as a fraction (50_000_000 is 5%).
    pub max_drawdown: i64,
    /// Price increment (0: any price).
    pub tick_size: u64,
    /// Maximum distance of a price from the mid, in basis points.
    pub max_price_distance_bps: u32,
}

/// The default limits.
pub open spec fn default_risk_limits() -> RiskLimits {
    RiskLimits {
        max_position: MAX_POSITION,
        max_short: MAX_SHORT,
        max_order_size: (MAX_POSITION / 2) as i64,
        min_order_size: 1_000_000,
        max_outstanding_orders: 10,
        max_daily_loss: MAX_DAILY_LOSS,
        max_drawdown: MAX_DRAWDOWN,
        tick_size: TICK_SIZE,
        max_price_distance_bps: 50,
    }
}

impl Default for RiskLimits {
    fn default() -> (r: Self)
        ensures
            r == default_risk_limits(),
    {
        RiskLimits {
            max_position: MAX_POSITION,
            max_short: MAX_SHORT,
            max_order_size: MAX_POSITION / 2,
            min_order_size: 1_000_000,
            max_outstanding_orders: 10,
            max_daily_loss: MAX_DAILY_LOSS,
            max_drawdown: MAX_DRAWDOWN,
            tick_size: TICK_SIZE,
            max_price_distance_bps: 50,
        }
    }
}

/// A limit that a signal or the PnL breaks.
#[derive(Clone, Copy, PartialEq, Eq, Structural, Debug)]
pub enum RiskViolation {
    OrderSizeTooSmall { size: i64, min: i64 },
    OrderSizeTooLarge { size: i64, max: i64 },
    PositionLimitExceeded { projected: i64, limit: i64 },
    ShortLimitExceeded { projected: i64, limit: i64 },
    TooManyOutstandingOrders { current: usize, max: usize },
    DailyLossLimitBreached { daily_pnl: i64, limit: i64 },
    DrawdownLimitBreached { drawdown: i64, limit: i64 },
    KillSwitchActive,
    TradingPaused,
    InvalidTick { price: u64, tick_size: u64 },
    PriceTooFarFromMid { price: u64, mid: u64, max_distance_bps: u32 },
}

/// Text of a violation.
pub open spec fn spec_violation_text(v: RiskViolation) -> Seq<char> {
    match v {
        RiskViolation::OrderSizeTooSmall { size, min } =>
            "Order size "@ + dec_signed(size as int) + " is below minimum "@ + dec_signed(min as int),
        RiskViolation::OrderSizeTooLarge { size, max } =>
            "Order size "@ + dec_signed(size as int) + " exceeds maximum "@ + dec_signed(max as int),
        RiskViolation::PositionLimitExceeded { projected, limit } =>
            "Projected position "@ + dec_signed(projected as int) + " would exceed limit "@ + dec_signed(limit as int),
        RiskViolation::ShortLimitExceeded { projected, limit } =>
            "Projected short position "@ + dec_signed(projected as int) + " would exceed limit "@ + dec_signed(limit as int),
        RiskViolation::TooManyOutstandingOrders { current, max } =>
            "Outstanding orders "@ + dec_digits(current as nat) + " would exceed maximum "@ + dec_digits(max as nat),
        RiskViolation::DailyLossLimitBreached { daily_pnl, limit } =>
            "Daily PnL "@ + dec_signed(daily_pnl as int) + " breaches loss limit "@ + dec_signed(limit as int),
        RiskViolation::DrawdownLimitBreached { drawdown, limit } =>
            "Drawdown "@ + dec_signed(drawdown as int) + " breaches limit "@ + dec_signed(limit as int),
        RiskViolation::KillSwitchActive => "Kill switch active"@,
        RiskViolation::TradingPaused => "Trading paused"@,
        RiskViolation::InvalidTick { price, tick_size } =>
            "Price "@ + dec_digits(price as nat) + " not on tick size "@ + dec_digits(tick_size as nat),
        RiskViolation::PriceTooFarFromMid { price, mid, max_distance_bps } =>
            "Price "@ + dec_digits(price as nat) + " too far from mid "@ + dec_digits(mid as nat) + " (max: "@
                + dec_digits(max_distance_bps as nat) + "bps)"@,
    }
}

impl RiskViolation {
    /// Human-readable description of the violation.
    pub fn to_string(&self) -> (s: String)
        ensures
            s@ == spec_violation_text(*self),
    {
        let mut s = String::new();
        match *self {
            RiskViolation::OrderSizeTooSmall { size, min } => {
                s.append("Order size ");
                push_i64(&mut s, size);
                s.append(" is below minimum ");
                push_i64(&mut s, min);
            },
            RiskViolation::OrderSizeTooLarge { size, max } => {
                s.append("Order size ");
                push_i64(&mut s, size);
                s.append(" exceeds maximum ");
                push_i64(&mut s, max);
            },
            RiskViolation::PositionLimitExceeded { projected, limit } => {
                s.append("Projected position ");
                push_i64(&mut s, projected);
                s.append(" would exceed limit ");
                push_i64(&mut s, limit);
            },
            RiskViolation::ShortLimitExceeded { projected, limit } => {
                s.append("Projected short position ");
                push_i64(&mut s, projected);
                s.append(" would exceed limit ");
                push_i64(&mut s, limit);
            },
            RiskViolation::TooManyOutstandingOrders { current, max } => {
                s.append("Outstanding orders ");
                push_u64(&mut s, current as u64);
                s.append(" would exceed maximum ");
                push_u64(&mut s, max as u64);
            },
            RiskViolation::DailyLossLimitBreached { daily_pnl, limit } => {
                s.append("Daily PnL ");
                push_i64(&mut s, daily_pnl);
                s.append(" breaches loss limit ");
                push_i64(&mut s, limit);
            },
            RiskViolation::DrawdownLimitBreached { drawdown, limit } => {
                s.append("Drawdown ");
                push_i64(&mut s, drawdown);
                s.append(" breaches limit ");
                push_i64(&mut s, limit);
            },
            RiskViolation::KillSwitchActive => s.append("Kill switch active"),
            RiskViolation::TradingPaused => s.append("Trading paused"),
            RiskViolation::InvalidTick { price, tick_size } => {
                s.append("Price ");
                push_u64(&mut s, price);
                s.append(" not on tick size ");
                push_u64(&mut s, tick_size);
            },
            RiskViolation::PriceTooFarFromMid { price, mid, max_distance_bps } => {
                s.append("Price ");
                push_u64(&mut s, price);
                s.append(" too far from mid ");
                push_u64(&mut s, mid);
                s.append(" (max: ");
                push_u64(&mut s, max_distance_bps as u64);
                s.append("bps)");
            },
        }
        s
    }
}

/// Start of the UTC day containing `now_secs` (seconds since the Unix epoch).
pub open spec fn spec_day_start(now_secs: u64) -> int {
    (now_secs / SECONDS_PER_DAY) * SECONDS_PER_DAY
}

/// Outcome of the daily-loss check.
pub open spec fn spec_check_daily_loss(limits: RiskLimits, daily_total_pnl: i64) -> Result<(), RiskViolation> {
    if daily_total_pnl < -limits.max_daily_loss {
        Err(RiskViolation::DailyLossLimitBreached { daily_pnl: daily_total_pnl, limit: limits.max_daily_loss })
    } else {
        Ok(())
    }
}

/// Drawdown allowed from a positive peak: the configured fraction of the peak,
/// capped at `i64::MAX`.
pub open spec fn spec_allowed_drawdown(peak_pnl: i64, max_drawdown: i64) -> int {
    let x = (peak_pnl as int * max_drawdown as int) / (SCALE as int);
    if x > i64::MAX { i64::MAX as int } else { x }
}

/// Outcome of the drawdown check: only with a positive peak and a positive limit, a
/// drawdown (peak minus current, saturating) above the allowed amount is a breach.
pub open spec fn spec_check_drawdown(limits: RiskLimits, daily_total_pnl: i64, peak_pnl: i64) -> Result<(), RiskViolation> {
    let drawdown = spec_sat_add_i64(peak_pnl as int, -(daily_total_pnl as int));
    let allowed = spec_allowed_drawdown(peak_pnl, limits.max_drawdown);
    if peak_pnl > 0 && limits.max_drawdown > 0 && allowed > 0 && drawdown > allowed {
        Err(RiskViolation::DrawdownLimitBreached { drawdown, limit: allowed as i64 })
    } else {
        Ok(())
    }
}

/// Outcome of the sanity check of one price: a zero price passes; otherwise it must be
/// on the tick grid and, with a positive mid, within the maximum distance from it.
pub open spec fn spec_validate_price(limits: RiskLimits, price: u64, mid_price: u64) -> Result<(), RiskViolation> {
    if price == 0 {
        Ok(())
    } else if limits.tick_size > 0 && price % limits.tick_size != 0 {
        Err(RiskViolation::InvalidTick { price, tick_size: limits.tick_size })
    } else if mid_price > 0 && distance_bps_u32(price, mid_price) > limits.max_price_distance_bps {
        Err(RiskViolation::PriceTooFarFromMid { price, mid: mid_price, max_distance_bps: limits.max_price_distance_bps })
    } else {
        Ok(())
    }
}

/// The first failing check of two, in order.
pub open spec fn first_err(a: Result<(), RiskViolation>, b: Result<(), RiskViolation>) -> Result<(), RiskViolation> {
    if a is Err { a } else { b }
}

/// Outcome of the price checks of a signal: the prices it will quote or trade at.
pub open spec fn spec_signal_prices(limits: RiskLimits, signal: Signal, mid_price: u64) -> Result<(), RiskViolation> {
    let bid = spec_validate_price(limits, signal.bid_price, mid_price);
    let ask = spec_validate_price(limits, signal.ask_price, mid_price);
    match signal.action {
        SignalAction::QuoteBoth => first_err(bid, ask),
        SignalAction::QuoteBid => bid,
        SignalAction::QuoteAsk => ask,
        SignalAction::TakePosition => first_err(bid, ask),
        _ => Ok(()),
    }
}

/// Position after buying `size` on top of the open long exposure (saturating).
pub open spec fn projected_long(qty: i64, open_long: i64, size: i64) -> i64 {
    spec_sat_add_i64(spec_sat_add_i64(qty as int, open_long as int) as int, size as int)
}

/// Position after selling `size` on top of the open short exposure (saturating).
pub open spec fn projected_short(qty: i64, open_short: i64, size: i64) -> i64 {
    spec_sat_add_i64(spec_sat_add_i64(qty as int, -(open_short as int)) as int, -(size as int))
}

/// Projected position that a one-sided signal is checked against.
pub open spec fn projected_one_side(signal: Signal, qty: i64, open_long: i64, open_short: i64, size: i64) -> i64 {
    let buying = (signal.action == SignalAction::QuoteBid || signal.action == SignalAction::TakePosition) && signal.side == Side::Buy;
    let selling = (signal.action == SignalAction::QuoteAsk || signal.action == SignalAction::TakePosition) && signal.side == Side::Sell;
    if buying {
        projected_long(qty, open_long, size)
    } else if selling {
        projected_short(qty, open_short, size)
    } else {
        qty
    }
}

/// Outcome of validating a signal, given the kill switch state, the current position
/// quantity, the open exposure on each side, the mid price and the outstanding orders.
pub open spec fn spec_validate_signal(
    limits: RiskLimits,
    ks: Option<KillSwitchState>,
    outstanding: usize,
    signal: Signal,
    qty: i64,
    open_long: i64,
    open_short: i64,
    mid_price: u64,
) -> Result<(), RiskViolation> {
    let size = signal.size as i64;
    if !signal.spec_requires_action() || signal.action == SignalAction::CancelAll {
        Ok(())
    } else if ks == Some(KillSwitchState::ShuttingDown) || ks == Some(KillSwitchState::EmergencyStop) {
        Err(RiskViolation::KillSwitchActive)
    } else if ks == Some(KillSwitchState::Paused) {
        Err(RiskViolation::TradingPaused)
    } else if size < limits.min_order_size {
        Err(RiskViolation::OrderSizeTooSmall { size, min: limits.min_order_size })
    } else if size > limits.max_order_size {
        Err(RiskViolation::OrderSizeTooLarge { size, max: limits.max_order_size })
    } else if spec_signal_prices(limits, signal, mid_price) is Err {
        spec_signal_prices(limits, signal, mid_price)
    } else if signal.action == SignalAction::QuoteBoth {
        let long = projected_long(qty, open_long, size);
        let short = projected_short(qty, open_short, size);
        if long > limits.max_position {
            Err(RiskViolation::PositionLimitExceeded { projected: long, limit: limits.max_position })
        } else if short < -limits.max_short {
            Err(RiskViolation::ShortLimitExceeded { projected: short, limit: limits.max_short })
        } else {
            Ok(())
        }
    } else {
        let projected = projected_one_side(signal, qty, open_long, open_short, size);
        if projected > limits.max_position {
            Err(RiskViolation::PositionLimitExceeded { projected, limit: limits.max_position })
        } else if projected < -limits.max_short {
            Err(RiskViolation::ShortLimitExceeded { projected, limit: limits.max_short })
        } else if outstanding + 1 > limits.max_outstanding_orders {
            Err(RiskViolation::TooManyOutstandingOrders { current: (outstanding + 1) as usize, max: limits.max_outstanding_orders })
        } else {
            Ok(())
        }
    }
}

/// Abstract state of a [`RiskManager`].
pub struct RiskManagerModel {
    pub limits: RiskLimits,
    pub daily_reset_timestamp: u64,
    pub outstanding_order_count: usize,
    pub kill_switch: Option<KillSwitchState>,
}

/// Risk manager: limits, the start of the current trading day, the count of
/// outstanding orders and an optional kill switch.
pub struct RiskManager {
    limits: RiskLimits,
    daily_reset_timestamp: u64,
    outstanding_order_count: usize,
    kill_switch: Option<KillSwitch>,
}

impl View for RiskManager {
    type V = RiskManagerModel;

    closed spec fn view(&self) -> RiskManagerModel {
        RiskManagerModel {
            limits: self.limits,
            daily_reset_timestamp: self.daily_reset_timestamp,
            outstanding_order_count: self.outstanding_order_count,
            kill_switch: kill_switch_state(self.kill_switch),
        }
    }
}

/// Start of the UTC day containing `now_secs`.
fn day_start(now_secs: u64) -> (r: u64)
    ensures
        r == spec_day_start(now_secs),
        r % SECONDS_PER_DAY == 0,
        r <= now_secs,
{
    let r = (now_secs / SECONDS_PER_DAY) * SECONDS_PER_DAY;
    assert(r <= now_secs) by (nonlinear_arith)
        requires r == (now_secs / SECONDS_PER_DAY) * SECONDS_PER_DAY;
    assert(r % SECONDS_PER_DAY == 0) by (nonlinear_arith)
        requires r == (now_secs / SECONDS_PER_DAY) * SECONDS_PER_DAY;
    r
}

/// Start of the current UTC day, read from the wall clock.
fn get_day_start_timestamp() -> (r: u64)
    ensures
        r % SECONDS_PER_DAY == 0,
        exists|t: std::time::SystemTime| r == spec_day_start(#[trigger] unix_secs_at(t)),
{
    day_start(unix_now_secs())
}

impl RiskManager {
    /// A risk manager with the default limits, its day starting today.
    pub fn new() -> (rm: Self)
        ensures
            rm@.limits == default_risk_limits(),
            rm@.outstanding_order_count == 0,
            rm@.kill_switch is None,
            rm@.daily_reset_timestamp % SECONDS_PER_DAY == 0,
            exists|t: std::time::SystemTime| rm@.daily_reset_timestamp == spec_day_start(#[trigger] unix_secs_at(t)),
    {
        Self::with_limits(RiskLimits::default())
    }

    /// A risk manager with the given limits, its day starting today.
    pub fn with_limits(limits: RiskLimits) -> (rm: Self)
        ensures
            rm@.limits == limits,
            rm@.outstanding_order_count == 0,
            rm@.kill_switch is None,
            rm@.daily_reset_timestamp % SECONDS_PER_DAY == 0,
            exists|t: std::time::SystemTime| rm@.daily_reset_timestamp == spec_day_start(#[trigger] unix_secs_at(t)),
    {
        RiskManager {
            limits,
            daily_reset_timestamp: get_day_start_timestamp(),
            outstanding_order_count: 0,
            kill_switch: None,
        }
    }

    /// A risk manager with the given limits that also consults a kill switch.
    pub fn with_kill_switch(limits: RiskLimits, kill_switch: KillSwitch) -> (rm: Self)
        ensures
            rm@.limits == limits,
            rm@.outstanding_order_count == 0,
            rm@.kill_switch == Some(kill_switch@.state),
            rm@.daily_reset_timestamp % SECONDS_PER_DAY == 0,
            exists|t: std::time::SystemTime| rm@.daily_reset_timestamp == spec_day_start(#[trigger] unix_secs_at(t)),
    {
        RiskManager {
            limits,
            daily_reset_timestamp: get_day_start_timestamp(),
            outstanding_order_count: 0,
            kill_switch: Some(kill_switch),
        }
    }

    /// Resets the daily PnL when the wall clock has entered a new UTC day.
    pub fn check_daily_reset(&mut self, position: &mut Position)
        ensures
            exists|now_secs: u64| (final(self)@, *final(position)) == spec_daily_reset(old(self)@, *old(position), now_secs),
    {
        self.check_daily_reset_at(position, unix_now_secs());
    }

    /// Resets the daily PnL when `now_secs` lies in a later UTC day than the current
    /// trading day: the daily PnL goes to zero, the daily high-water mark is raised to the
    /// realized PnL, and the new day starts.
    pub fn check_daily_reset_at(&mut self, position: &mut Position, now_secs: u64)
        ensures
            (final(self)@, *final(position)) == spec_daily_reset(old(self)@, *old(position), now_secs),
    {
        let current_day_start = day_start(now_secs);
        if current_day_start > self.daily_reset_timestamp {
            position.reset_daily_pnl();
            let total_pnl = position.get_realized_pnl();
            position.update_daily_high_water_mark(total_pnl);
            self.daily_reset_timestamp = current_day_start;
        }
    }

    /// Daily loss check: a PnL below minus the maximum daily loss is a breach.
    pub fn check_daily_loss(&self, daily_total_pnl: i64) -> (r: Result<(), RiskViolation>)
        requires
            self@.limits.max_daily_loss != i64::MIN,
        ensures
            r == spec_check_daily_loss(self@.limits, daily_total_pnl),
    {
        if daily_total_pnl < -self.limits.max_daily_loss {
            return Err(RiskViolation::DailyLossLimitBreached {
                daily_pnl: daily_total_pnl,
                limit: self.limits.max_daily_loss,
            });
        }
        Ok(())
    }

    /// Drawdown check against the configured fraction of a positive peak.
    pub fn check_drawdown(&self, daily_total_pnl: i64, peak_pnl: i64) -> (r: Result<(), RiskViolation>)
        ensures
            r == spec_check_drawdown(self@.limits, daily_total_pnl, peak_pnl),
    {
        let drawdown = saturating_sub_i64(peak_pnl, daily_total_pnl);
        if peak_pnl > 0 && self.limits.max_drawdown > 0 {
            let p = peak_pnl;
            let d = self.limits.max_drawdown;
            assert(0 < p as int * d as int <= 0x4000_0000_0000_0000_0000_0000_0000_0000int) by (nonlinear_arith)
                requires
                    0 < p <= i64::MAX,
                    0 < d <= i64::MAX,
            ;
            let product: i128 = p as i128 * d as i128;
            let scaled: i128 = product / (SCALE as i128);
            let allowed_drawdown: i64 = if scaled > i64::MAX as i128 { i64::MAX } else { scaled as i64 };
            if allowed_drawdown > 0 && drawdown > allowed_drawdown {
                return Err(RiskViolation::DrawdownLimitBreached { drawdown, limit: allowed_drawdown });
            }
        }
        Ok(())
    }

    /// Validates a signal before execution: kill switch, order size, prices, projected
    /// position including open exposure, and outstanding orders.
    pub fn validate_signal(
        &self,
        signal: &Signal,
        position: &Position,
        open_long_exposure: i64,
        open_short_exposure: i64,
        mid_price: u64,
    ) -> (r: Result<(), RiskViolation>)
        requires
            self@.limits.max_short != i64::MIN,
            self@.outstanding_order_count < usize::MAX,
        ensures
            r == spec_validate_signal(
                self@.limits,
                self@.kill_switch,
                self@.outstanding_order_count,
                *signal,
                position.quantity,
                open_long_exposure,
                open_short_exposure,
                mid_price,
            ),
    {
        if !signal.requires_action() || matches!(signal.action, SignalAction::CancelAll) {
            return Ok(());
        }
        if let Some(ref ks) = self.kill_switch {
            if ks.should_stop() {
                return Err(RiskViolation::KillSwitchActive);
            }
            if ks.is_paused() {
                return Err(RiskViolation::TradingPaused);
            }
        }
        let size_i64 = signal.size as i64;
        if size_i64 < self.limits.min_order_size {
            return Err(RiskViolation::OrderSizeTooSmall { size: size_i64, min: self.limits.min_order_size });
        }
        if size_i64 > self.limits.max_order_size {
            return Err(RiskViolation::OrderSizeTooLarge { size: size_i64, max: self.limits.max_order_size });
        }
        match signal.action {
            SignalAction::QuoteBoth => {
                self.validate_price(signal.bid_price, mid_price)?;
                self.validate_price(signal.ask_price, mid_price)?;
            },
            SignalAction::QuoteBid => {
                self.validate_price(signal.bid_price, mid_price)?;
            },
            SignalAction::QuoteAsk => {
                self.validate_price(signal.ask_price, mid_price)?;
            },
            SignalAction::TakePosition => {
                if signal.bid_price > 0 {
                    self.validate_price(signal.bid_price, mid_price)?;
                }
                if signal.ask_price > 0 {
                    self.validate_price(signal.ask_price, mid_price)?;
                }
            },
            _ => {},
        }
        let current_qty = position.get_quantity();
        let buying = match signal.action {
            SignalAction::QuoteBid | SignalAction::TakePosition => matches!(signal.side, Side::Buy),
            _ => false,
        };
        let selling = match signal.action {
            SignalAction::QuoteAsk | SignalAction::TakePosition => matches!(signal.side, Side::Sell),
            _ => false,
        };
        if matches!(signal.action, SignalAction::QuoteBoth) {
            let long_proj = saturating_add_i64(saturating_add_i64(current_qty, open_long_exposure), size_i64);
            let short_proj = saturating_sub_i64(saturating_sub_i64(current_qty, open_short_exposure), size_i64);
            if long_proj > self.limits.max_position {
                return Err(RiskViolation::PositionLimitExceeded { projected: long_proj, limit: self.limits.max_position });
            }
            if short_proj < -self.limits.max_short {
                return Err(RiskViolation::ShortLimitExceeded { projected: short_proj, limit: self.limits.max_short });
            }
            return Ok(());
        }
        let projected = if buying {
            saturating_add_i64(saturating_add_i64(current_qty, open_long_exposure), size_i64)
        } else if selling {
            saturating_sub_i64(saturating_sub_i64(current_qty, open_short_exposure), size_i64)
        } else {
            current_qty
        };
        if projected > self.limits.max_position {
            return Err(RiskViolation::PositionLimitExceeded { projected, limit: self.limits.max_position });
        }
        if projected < -self.limits.max_short {
            return Err(RiskViolation::ShortLimitExceeded { projected, limit: self.limits.max_short });
        }
        let new_count = self.outstanding_order_count + 1;
        if new_count > self.limits.max_outstanding_orders {
            return Err(RiskViolation::TooManyOutstandingOrders { current: new_count, max: self.limits.max_outstanding_orders });
        }
        Ok(())
    }

    /// Sanity check of one price: tick grid and distance from the mid.
    fn validate_price(&self, price: u64, mid_price: u64) -> (r: Result<(), RiskViolation>)
        ensures
            r == spec_validate_price(self@.limits, price, mid_price),
    {
        if price == 0 {
            return Ok(());
        }
        if self.limits.tick_size > 0 && price % self.limits.tick_size != 0 {
            return Err(RiskViolation::InvalidTick { price, tick_size: self.limits.tick_size });
        }
        if mid_price > 0 {
            let distance = if price > mid_price { price - mid_price } else { mid_price - price };
            let wide: u128 = (distance as u128 * 10_000) / mid_price as u128;
            let distance_bps = wide as u32;
            if distance_bps > self.limits.max_price_distance_bps {
                return Err(RiskViolation::PriceTooFarFromMid {
                    price,
                    mid: mid_price,
                    max_distance_bps: self.limits.max_price_distance_bps,
                });
            }
        }
        Ok(())
    }

    /// Adds `count` outstanding orders.
    pub fn increment_order_count(&mut self, count: usize)
        requires
            old(self)@.outstanding_order_count + count <= usize::MAX,
        ensures
            final(self)@ == (RiskManagerModel {
                outstanding_order_count: (old(self)@.outstanding_order_count + count) as usize,
                ..old(self)@
            }),
    {
        self.outstanding_order_count = self.outstanding_order_count + count;
    }

    /// Removes `count` outstanding orders, stopping at zero.
    pub fn decrement_order_count(&mut self, count: usize)
        ensures
            final(self)@ == (RiskManagerModel {
                outstanding_order_count: if old(self)@.outstanding_order_count >= count {
                    (old(self)@.outstanding_order_count - count) as usize
                } else {
                    0
                },
                ..old(self)@
            }),
    {
        self.outstanding_order_count = if self.outstanding_order_count >= count {
            self.outstanding_order_count - count
        } else {
            0
        };
    }

    /// The risk limits.
    pub fn limits(&self) -> (r: &RiskLimits)
        ensures
            *r == self@.limits,
    {
        &self.limits
    }

    /// Number of orders counted as outstanding.
    pub fn outstanding_order_count(&self) -> (r: usize)
        ensures
            r == self@.outstanding_order_count,
    {
        self.outstanding_order_count
    }
}

/// State after the daily-reset check at `now_secs`.
pub open spec fn spec_daily_reset(m: RiskManagerModel, p: Position, now_secs: u64) -> (RiskManagerModel, Position) {
    let day = spec_day_start(now_secs);
    if day > m.daily_reset_timestamp {
        (
            RiskManagerModel { daily_reset_timestamp: day as u64, ..m },
            Position {
                daily_pnl: 0,
                daily_high_water_mark: if p.realized_pnl > p.daily_high_water_mark { p.realized_pnl } else { p.daily_high_water_mark },
                ..p
            },
        )
    } else {
        (m, p)
    }
}

impl Default for RiskManager {
    fn default() -> (rm: Self)
        ensures
            rm@.limits == default_risk_limits(),
            rm@.outstanding_order_count == 0,
            rm@.kill_switch is None,
            rm@.daily_reset_timestamp % SECONDS_PER_DAY == 0,
            exists|t: std::time::SystemTime| rm@.daily_reset_timestamp == spec_day_start(#[trigger] unix_secs_at(t)),
    {
        Self::new()
    }
}

/// An accepted signal respects the limits: its size lies within the order size limits,
/// and every side it buys or sells on keeps the projected position (including open
/// exposure) within the long and short limits.
pub proof fn lemma_accepted_signal_within_limits(
    limits: RiskLimits,
    ks: Option<KillSwitchState>,
    outstanding: usize,
    signal: Signal,
    qty: i64,
    open_long: i64,
    open_short: i64,
    mid_price: u64,
)
    requires
        spec_validate_signal(limits, ks, outstanding, signal, qty, open_long, open_short, mid_price) is Ok,
        signal.spec_requires_action(),
        signal.action != SignalAction::CancelAll,
    ensures
        limits.min_order_size <= signal.size as i64 <= limits.max_order_size,
        spec_signal_prices(limits, signal, mid_price) is Ok,
        (signal.action == SignalAction::QuoteBoth || ((signal.action == SignalAction::QuoteBid
            || signal.action == SignalAction::TakePosition) && signal.side == Side::Buy))
            ==> projected_long(qty, open_long, signal.size as i64) <= limits.max_position,
        (signal.action == SignalAction::QuoteBoth || ((signal.action == SignalAction::QuoteAsk
            || signal.action == SignalAction::TakePosition) && signal.side == Side::Sell))
            ==> projected_short(qty, open_short, signal.size as i64) >= -limits.max_short,
{
}

/// Whether a signal sells: a two-sided quote, or an ask quote or a take on the sell side.
pub open spec fn signal_sells(signal: Signal) -> bool {
    signal.action == SignalAction::QuoteBoth
        || ((signal.action == SignalAction::QuoteAsk || signal.action == SignalAction::TakePosition) && signal.side == Side::Sell)
}

/// Whether a signal buys: a two-sided quote, or a bid quote or a take on the buy side.
pub open spec fn signal_buys(signal: Signal) -> bool {
    signal.action == SignalAction::QuoteBoth
        || ((signal.action == SignalAction::QuoteBid || signal.action == SignalAction::TakePosition) && signal.side == Side::Buy)
}

/// Position limits count the resting orders: an accepted signal that sells keeps the
/// position, minus every open short order, minus its own size, within the short limit;
/// one that buys keeps the position plus every open long order plus its size within the
/// long limit (unless that limit is the largest `i64`, where sums beyond it are not told
/// apart). The more is already resting on a side, the less a new order on it may add.
pub proof fn lemma_accepted_signal_counts_open_exposure(
    limits: RiskLimits,
    ks: Option<KillSwitchState>,
    outstanding: usize,
    signal: Signal,
    qty: i64,
    open_long: i64,
    open_short: i64,
    mid_price: u64,
)
    requires
        spec_validate_signal(limits, ks, outstanding, signal, qty, open_long, open_short, mid_price) is Ok,
        signal.spec_requires_action(),
        signal.action != SignalAction::CancelAll,
        limits.min_order_size >= 0,
    ensures
        signal_sells(signal) ==> (qty as int - open_short as int - (signal.size as i64) as int) >= -(limits.max_short as int),
        signal_buys(signal) && limits.max_position < i64::MAX ==>
            (qty as int + open_long as int + (signal.size as i64) as int) <= limits.max_position as int,
{
    lemma_accepted_signal_within_limits(limits, ks, outstanding, signal, qty, open_long, open_short, mid_price);
    let size = signal.size as i64;
    assert(size >= 0);
    if signal_sells(signal) {
        let s1 = spec_sat_add_i64(qty as int, -(open_short as int));
        let s2 = spec_sat_add_i64(s1 as int, -(size as int));
        assert(s2 == projected_short(qty, open_short, size));
        assert(s2 >= -(limits.max_short as int));
        let t1 = qty as int - open_short as int;
        if t1 > i64::MAX {
            assert(s1 == i64::MAX);
        } else if t1 < i64::MIN {
            assert(s1 == i64::MIN);
            assert(s2 == i64::MIN);
        } else {
            assert(s1 as int == t1);
        }
    }
    if signal_buys(signal) && limits.max_position < i64::MAX {
        let s1 = spec_sat_add_i64(qty as int, open_long as int);
        let s2 = spec_sat_add_i64(s1 as int, size as int);
        assert(s2 == projected_long(qty, open_long, size));
        assert(s2 <= limits.max_position);
        let t1 = qty as int + open_long as int;
        if t1 > i64::MAX {
            assert(s1 == i64::MAX);
            assert(s2 == i64::MAX);
        } else if t1 < i64::MIN {
            assert(s1 == i64::MIN);
        } else {
            assert(s1 as int == t1);
        }
    }
}

/// A selling signal that would take the position, with every open short order and its
/// own size, beyond the short limit is refused with that projected position, once it
/// has passed the kill-switch, size and price checks (and the sums stay within `i64`).
pub proof fn lemma_open_short_exposure_refuses_sell(
    limits: RiskLimits,
    outstanding: usize,
    signal: Signal,
    qty: i64,
    open_long: i64,
    open_short: i64,
    mid_price: u64,
)
    requires
        signal.action == SignalAction::QuoteAsk || signal.action == SignalAction::TakePosition,
        signal.side == Side::Sell,
        0 <= limits.max_short,
        0 <= limits.max_position,
        signal.spec_requires_action(),
        limits.min_order_size <= signal.size as i64 <= limits.max_order_size,
        spec_signal_prices(limits, signal, mid_price) is Ok,
        i64::MIN <= (qty as int - open_short as int) <= i64::MAX,
        i64::MIN <= qty as int - open_short as int - (signal.size as i64) as int,
        (qty as int - open_short as int - (signal.size as i64) as int) < -(limits.max_short as int),
    ensures
        spec_validate_signal(limits, None, outstanding, signal, qty, open_long, open_short, mid_price)
            == Err::<(), RiskViolation>(RiskViolation::ShortLimitExceeded {
                projected: (qty as int - open_short as int - (signal.size as i64) as int) as i64,
                limit: limits.max_short,
            }),
{
}

/// A buying signal that would take the position, with every open long order and its own
/// size, beyond the long limit is refused with that projected position, once it has
/// passed the kill-switch, size and price checks (and the sums stay within `i64`).
pub proof fn lemma_open_long_exposure_refuses_buy(
    limits: RiskLimits,
    outstanding: usize,
    signal: Signal,
    qty: i64,
    open_long: i64,
    open_short: i64,
    mid_price: u64,
)
    requires
        signal.action == SignalAction::QuoteBid || signal.action == SignalAction::TakePosition,
        signal.side == Side::Buy,
        signal.spec_requires_action(),
        limits.min_order_size <= signal.size as i64 <= limits.max_order_size,
        spec_signal_prices(limits, signal, mid_price) is Ok,
        i64::MIN <= (qty as int + open_long as int) <= i64::MAX,
        (qty as int + open_long as int + (signal.size as i64) as int) <= i64::MAX,
        (qty as int + open_long as int + (signal.size as i64) as int) > limits.max_position as int,
    ensures
        spec_validate_signal(limits, None, outstanding, signal, qty, open_long, open_short, mid_price)
            == Err::<(), RiskViolation>(RiskViolation::PositionLimitExceeded {
                projected: (qty as int + open_long as int + (signal.size as i64) as int) as i64,
                limit: limits.max_position,
            }),
{
}

/// A stopped or paused kill switch blocks every signal that would place orders.
pub proof fn lemma_kill_switch_blocks_orders(
    limits: RiskLimits,
    ks: KillSwitchState,
    outstanding: usize,
    signal: Signal,
    qty: i64,
    open_long: i64,
    open_short: i64,
    mid_price: u64,
)
    requires
        ks != KillSwitchState::Running,
        signal.spec_requires_action(),
        signal.action != SignalAction::CancelAll,
    ensures
        spec_validate_signal(limits, Some(ks), outstanding, signal, qty, open_long, open_short, mid_price) is Err,
{
}

/// The daily reset happens once per day: after a reset at `now_secs`, a second check
/// at the same time (or any time in the same day) changes nothing, and the daily PnL
/// that the first one left is zero whenever it reset.
pub proof fn lemma_daily_reset_once_per_day(m: RiskManagerModel, p: Position, now_secs: u64, later_secs: u64)
    requires
        now_secs <= later_secs,
        spec_day_start(later_secs) == spec_day_start(now_secs),
    ensures
        ({
            let (m1, p1) = spec_daily_reset(m, p, now_secs);
            &&& spec_daily_reset(m1, p1, later_secs) == (m1, p1)
            &&& spec_day_start(now_secs) > m.daily_reset_timestamp ==> p1.daily_pnl == 0
        }),
{
}

} // verus!
