//! Pre-trade validation: the last check of an order before it reaches the exchange.
//!
//! In order: the kill switch (stopped, then paused), the exchange's minimum and maximum
//! order size, the price tick, and the distance of the price from the mid.
use vstd::prelude::*;
use vstd::string::StringExecFns;
use crate::resilience::kill_switch::{KillSwitch, KillSwitchState};
use crate::text::{dec_digits, push_u64};

verus! {

/// Reason an order is rejected.
#[derive(Clone, Copy, PartialEq, Eq, Structural, Debug)]
pub enum PreTradeRejection {
    /// Kill switch is active.
    KillSwitchActive,
    /// Trading is paused.
    TradingPaused,
    /// Exchange connection unhealthy.
    ConnectionUnhealthy,
    /// Insufficient account balance.
    InsufficientBalance { required: u64, available: u64 },
    /// Insufficient margin.
    InsufficientMargin,
    /// Order size below the exchange minimum.
    SizeBelowMinimum { size: u64, minimum: u64 },
    /// Order size above the exchange maximum.
    SizeAboveMaximum { size: u64, maximum: u64 },
    /// Price not on a valid tick.
    InvalidTick { price: u64, tick_size: u64 },
    /// Price too far from the market.
    PriceTooFarFromMarket { price: u64, mid: u64, max_distance_bps: u32 },
}

/// Outcome of pre-trade validation.
#[derive(Clone, Copy, PartialEq, Eq, Structural, Debug)]
pub enum PreTradeResult {
    /// The order may be placed.
    Allowed,
    /// The order must not be placed.
    Rejected(PreTradeRejection),
}

impl PreTradeResult {
    /// Whether the order may be placed.
    pub fn is_allowed(&self) -> (r: bool)
        ensures
            r == (*self is Allowed),
    {
        matches!(self, PreTradeResult::Allowed)
    }
}

/// Text of a rejection.
pub open spec fn spec_rejection_text(r: PreTradeRejection) -> Seq<char> {
    match r {
        PreTradeRejection::KillSwitchActive => "Kill switch active"@,
        PreTradeRejection::TradingPaused => "Trading paused"@,
        PreTradeRejection::ConnectionUnhealthy => "Exchange connection unhealthy"@,
        PreTradeRejection::InsufficientBalance { required, available } =>
            "Insufficient balance: need "@ + dec_digits(required as nat) + ", have "@ + dec_digits(available as nat),
        PreTradeRejection::InsufficientMargin => "Insufficient margin"@,
        PreTradeRejection::SizeBelowMinimum { size, minimum } =>
            "Size "@ + dec_digits(size as nat) + " below minimum "@ + dec_digits(minimum as nat),
        PreTradeRejection::SizeAboveMaximum { size, maximum } =>
            "Size "@ + dec_digits(size as nat) + " above maximum "@ + dec_digits(maximum as nat),
        PreTradeRejection::InvalidTick { price, tick_size } =>
            "Price "@ + dec_digits(price as nat) + " not on tick size "@ + dec_digits(tick_size as nat),
        PreTradeRejection::PriceTooFarFromMarket { price, mid, max_distance_bps } =>
            "Price "@ + dec_digits(price as nat) + " too far from mid "@ + dec_digits(mid as nat) + " (max: "@
                + dec_digits(max_distance_bps as nat) + "bps)"@,
    }
}

impl PreTradeRejection {
    /// Human-readable description of the rejection.
    pub fn to_string(&self) -> (s: String)
        ensures
            s@ == spec_rejection_text(*self),
    {
        let mut s = String::new();
        match *self {
            PreTradeRejection::KillSwitchActive => s.append("Kill switch active"),
            PreTradeRejection::TradingPaused => s.append("Trading paused"),
            PreTradeRejection::ConnectionUnhealthy => s.append("Exchange connection unhealthy"),
            PreTradeRejection::InsufficientBalance { required, available } => {
                s.append("Insufficient balance: need ");
                push_u64(&mut s, required);
                s.append(", have ");
                push_u64(&mut s, available);
            },
            PreTradeRejection::InsufficientMargin => s.append("Insufficient margin"),
            PreTradeRejection::SizeBelowMinimum { size, minimum } => {
                s.append("Size ");
                push_u64(&mut s, size);
                s.append(" below minimum ");
                push_u64(&mut s, minimum);
            },
            PreTradeRejection::SizeAboveMaximum { size, maximum } => {
                s.append("Size ");
                push_u64(&mut s, size);
                s.append(" above maximum ");
                push_u64(&mut s, maximum);
            },
            PreTradeRejection::InvalidTick { price, tick_size } => {
                s.append("Price ");
                push_u64(&mut s, price);
                s.append(" not on tick size ");
                push_u64(&mut s, tick_size);
            },
            PreTradeRejection::PriceTooFarFromMarket { price, mid, max_distance_bps } => {
                s.append("Price ");
                push_u64(&mut s, price);
                s.append(" too far from mid ");
                push_u64(&mut s, mid);
                s.append(" (max: ");
                push_u64(&mut s, max_distance_bps as u64);
                s.append("bps)");
            },
        }
        s
    }
}

/// Trading rules of an exchange.
#[derive(Clone, Copy, PartialEq, Eq, Structural, Debug)]
pub struct ExchangeRules {
    /// Minimum order size.
    pub min_order_size: u64,
    /// Maximum order size.
    pub max_order_size: u64,
    /// Price increment (0: any price).
    pub tick_size: u64,
    /// Maximum distance of a price from the mid, in basis points.
    pub max_price_distance_bps: u32,
}

impl ExchangeRules {
    /// Rules of the Lighter BTC/USD market.
    pub fn lighter_btc_usd() -> (r: Self)
        ensures
            r == (ExchangeRules {
                min_order_size: 1_000_000,
                max_order_size: 10_000_000_000,
                tick_size: 10_000_000,
                max_price_distance_bps: 500,
            }),
    {
        ExchangeRules {
            min_order_size: 1_000_000,
            max_order_size: 10_000_000_000,
            tick_size: 10_000_000,
            max_price_distance_bps: 500,
        }
    }
}

/// Whether a price is on the tick grid (always, with no tick size).
pub open spec fn on_tick(price: u64, tick_size: u64) -> bool {
    tick_size == 0 || price % tick_size == 0
}

/// Distance of a price from the mid in basis points, as a `u32` (truncated).
pub open spec fn distance_bps_u32(price: u64, mid: u64) -> u32 {
    let distance = if price > mid { price - mid } else { mid - price };
    ((distance as int * 10_000) / mid as int) as u32
}

/// Outcome of validating an order of `size` at `price` against the rules, with the kill
/// switch in state `ks` (if one is attached) and the market mid at `mid_price`
/// (0: no price-distance check).
pub open spec fn spec_validate(rules: ExchangeRules, ks: Option<KillSwitchState>, price: u64, size: u64, mid_price: u64) -> PreTradeResult {
    if ks == Some(KillSwitchState::ShuttingDown) || ks == Some(KillSwitchState::EmergencyStop) {
        PreTradeResult::Rejected(PreTradeRejection::KillSwitchActive)
    } else if ks == Some(KillSwitchState::Paused) {
        PreTradeResult::Rejected(PreTradeRejection::TradingPaused)
    } else if size < rules.min_order_size {
        PreTradeResult::Rejected(PreTradeRejection::SizeBelowMinimum { size, minimum: rules.min_order_size })
    } else if size > rules.max_order_size {
        PreTradeResult::Rejected(PreTradeRejection::SizeAboveMaximum { size, maximum: rules.max_order_size })
    } else if !on_tick(price, rules.tick_size) {
        PreTradeResult::Rejected(PreTradeRejection::InvalidTick { price, tick_size: rules.tick_size })
    } else if mid_price > 0 && distance_bps_u32(price, mid_price) > rules.max_price_distance_bps {
        PreTradeResult::Rejected(PreTradeRejection::PriceTooFarFromMarket {
            price,
            mid: mid_price,
            max_distance_bps: rules.max_price_distance_bps,
        })
    } else {
        PreTradeResult::Allowed
    }
}

/// Pre-trade validator: exchange rules and an optional kill switch.
pub struct PreTradeValidator {
    pub rules: ExchangeRules,
    pub kill_switch: Option<KillSwitch>,
}

/// State of the attached kill switch, if any.
pub open spec fn kill_switch_state(ks: Option<KillSwitch>) -> Option<KillSwitchState> {
    match ks {
        Some(k) => Some(k@.state),
        None => None,
    }
}

impl PreTradeValidator {
    /// A validator with the given rules and no kill switch.
    pub fn new(rules: ExchangeRules) -> (v: Self)
        ensures
            v.rules == rules,
            v.kill_switch is None,
    {
        PreTradeValidator { rules, kill_switch: None }
    }

    /// A validator that also consults a kill switch.
    pub fn with_kill_switch(rules: ExchangeRules, kill_switch: KillSwitch) -> (v: Self)
        ensures
            v.rules == rules,
            v.kill_switch == Some(kill_switch),
    {
        PreTradeValidator { rules, kill_switch: Some(kill_switch) }
    }

    /// Validates an order of `size` at `price` with the market mid at `mid_price`.
    pub fn validate(&self, price: u64, size: u64, mid_price: u64) -> (r: PreTradeResult)
        ensures
            r == spec_validate(self.rules, kill_switch_state(self.kill_switch), price, size, mid_price),
    {
        if let Some(ref ks) = self.kill_switch {
            if ks.should_stop() {
                return PreTradeResult::Rejected(PreTradeRejection::KillSwitchActive);
            }
            if ks.is_paused() {
                return PreTradeResult::Rejected(PreTradeRejection::TradingPaused);
            }
        }
        if size < self.rules.min_order_size {
            return PreTradeResult::Rejected(PreTradeRejection::SizeBelowMinimum {
                size,
                minimum: self.rules.min_order_size,
            });
        }
        if size > self.rules.max_order_size {
            return PreTradeResult::Rejected(PreTradeRejection::SizeAboveMaximum {
                size,
                maximum: self.rules.max_order_size,
            });
        }
        if !self.is_on_tick(price) {
            return PreTradeResult::Rejected(PreTradeRejection::InvalidTick { price, tick_size: self.rules.tick_size });
        }
        if mid_price > 0 {
            let distance = if price > mid_price { price - mid_price } else { mid_price - price };
            let wide: u128 = (distance as u128 * 10_000) / mid_price as u128;
            let distance_bps = wide as u32;
            if distance_bps > self.rules.max_price_distance_bps {
                return PreTradeResult::Rejected(PreTradeRejection::PriceTooFarFromMarket {
                    price,
                    mid: mid_price,
                    max_distance_bps: self.rules.max_price_distance_bps,
                });
            }
        }
        PreTradeResult::Allowed
    }

    /// Whether a price is on the tick grid.
    fn is_on_tick(&self, price: u64) -> (r: bool)
        ensures
            r == on_tick(price, self.rules.tick_size),
    {
        if self.rules.tick_size == 0 {
            return true;
        }
        price % self.rules.tick_size == 0
    }

    /// Account balance check; no balance source is connected, so it always passes.
    pub fn check_balance(&self, _required: u64) -> (r: Result<(), PreTradeRejection>)
        ensures
            r is Ok,
    {
        Ok(())
    }

    /// Margin check; no margin source is connected, so it always passes.
    pub fn check_margin(&self, _required: u64) -> (r: Result<(), PreTradeRejection>)
        ensures
            r is Ok,
    {
        Ok(())
    }

    /// Connection health check; no health endpoint is connected, so it always passes.
    pub fn check_connection(&self) -> (r: Result<(), PreTradeRejection>)
        ensures
            r is Ok,
    {
        Ok(())
    }
}

/// An allowed order meets every exchange rule: the kill switch (if any) is running, the
/// size lies within the limits, the price is on the tick grid and, with a positive mid,
/// within the maximum distance of it.
pub proof fn lemma_allowed_order_meets_rules(rules: ExchangeRules, ks: Option<KillSwitchState>, price: u64, size: u64, mid_price: u64)
    requires
        spec_validate(rules, ks, price, size, mid_price) is Allowed,
    ensures
        ks is None || ks == Some(KillSwitchState::Running),
        rules.min_order_size <= size <= rules.max_order_size,
        on_tick(price, rules.tick_size),
        mid_price > 0 ==> distance_bps_u32(price, mid_price) <= rules.max_price_distance_bps,
{
}

} // verus!
