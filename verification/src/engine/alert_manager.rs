//! Alerting for the trading engine: alert types with default severities, per-severity
//! rate limits over a one-minute window, statistics, and a trading halt on critical
//! alerts.
use vstd::prelude::*;
use std::collections::HashMap;
use crate::clock::{duration_from_secs, duration_nanos, elapsed_ns, instant_now, system_time_now};

verus! {

/// Alert severity, from least to most severe.
#[derive(Clone, Copy, PartialEq, Eq, Structural, PartialOrd, Ord, Hash, Debug)]
pub enum AlertSeverity {
    Info,
    Warning,
    Error,
    Critical,
}

/// Rank of a severity: 1 for info up to 4 for critical.
pub open spec fn severity_rank(s: AlertSeverity) -> int {
    match s {
        AlertSeverity::Info => 1,
        AlertSeverity::Warning => 2,
        AlertSeverity::Error => 3,
        AlertSeverity::Critical => 4,
    }
}

impl AlertSeverity {
    /// Rank of the severity: 1 for info up to 4 for critical.
    pub fn rank(&self) -> (r: u8)
        ensures
            r == severity_rank(*self),
    {
        match self {
            AlertSeverity::Info => 1,
            AlertSeverity::Warning => 2,
            AlertSeverity::Error => 3,
            AlertSeverity::Critical => 4,
        }
    }
}

/// Kind of alert.
#[derive(Clone, Copy, PartialEq, Eq, Structural, Hash, Debug)]
pub enum AlertType {
    DataStale,
    DataGap,
    DataInvalid,
    HuginnRestart,
    HighQueueDepth,
    PositionDrift,
    PositionLimitExceeded,
    UnexpectedFill,
    OrderbookCrossed,
    SpreadTooWide,
    LowLiquidity,
    PriceSpike,
    HighLatency,
    MemoryPressure,
    RecoveryFailed,
    CircuitBreakerTriggered,
    OrderRejected,
    ExecutionFailed,
    RiskLimitHit,
}

/// Number of alert types.
pub const ALERT_TYPE_COUNT: usize = 19;

/// Position of an alert type in declaration order.
pub open spec fn type_index(t: AlertType) -> int {
    match t {
        AlertType::DataStale => 0,
        AlertType::DataGap => 1,
        AlertType::DataInvalid => 2,
        AlertType::HuginnRestart => 3,
        AlertType::HighQueueDepth => 4,
        AlertType::PositionDrift => 5,
        AlertType::PositionLimitExceeded => 6,
        AlertType::UnexpectedFill => 7,
        AlertType::OrderbookCrossed => 8,
        AlertType::SpreadTooWide => 9,
        AlertType::LowLiquidity => 10,
        AlertType::PriceSpike => 11,
        AlertType::HighLatency => 12,
        AlertType::MemoryPressure => 13,
        AlertType::RecoveryFailed => 14,
        AlertType::CircuitBreakerTriggered => 15,
        AlertType::OrderRejected => 16,
        AlertType::ExecutionFailed => 17,
        AlertType::RiskLimitHit => 18,
    }
}

/// Default severity of each alert type.
pub open spec fn spec_default_severity(t: AlertType) -> AlertSeverity {
    match t {
        AlertType::HighQueueDepth => AlertSeverity::Info,
        AlertType::DataStale | AlertType::SpreadTooWide | AlertType::LowLiquidity | AlertType::HighLatency => AlertSeverity::Warning,
        AlertType::DataGap | AlertType::HuginnRestart | AlertType::PositionDrift | AlertType::OrderRejected
            | AlertType::ExecutionFailed => AlertSeverity::Error,
        _ => AlertSeverity::Critical,
    }
}

/// Short name of each alert type.
pub open spec fn spec_type_name(t: AlertType) -> Seq<char> {
    match t {
        AlertType::DataStale => "DATA_STALE"@,
        AlertType::DataGap => "DATA_GAP"@,
        AlertType::DataInvalid => "DATA_INVALID"@,
        AlertType::HuginnRestart => "HUGINN_RESTART"@,
        AlertType::HighQueueDepth => "HIGH_QUEUE_DEPTH"@,
        AlertType::PositionDrift => "POSITION_DRIFT"@,
        AlertType::PositionLimitExceeded => "POSITION_LIMIT"@,
        AlertType::UnexpectedFill => "UNEXPECTED_FILL"@,
        AlertType::OrderbookCrossed => "ORDERBOOK_CROSSED"@,
        AlertType::SpreadTooWide => "SPREAD_WIDE"@,
        AlertType::LowLiquidity => "LOW_LIQUIDITY"@,
        AlertType::PriceSpike => "PRICE_SPIKE"@,
        AlertType::HighLatency => "HIGH_LATENCY"@,
        AlertType::MemoryPressure => "MEMORY_PRESSURE"@,
        AlertType::RecoveryFailed => "RECOVERY_FAILED"@,
        AlertType::CircuitBreakerTriggered => "CIRCUIT_BREAKER"@,
        AlertType::OrderRejected => "ORDER_REJECTED"@,
        AlertType::ExecutionFailed => "EXECUTION_FAILED"@,
        AlertType::RiskLimitHit => "RISK_LIMIT"@,
    }
}

impl AlertType {
    /// Default severity: info for queue depth, warnings for staleness, wide spreads,
    /// thin books and latency, errors for gaps, restarts, drift and order failures,
    /// critical for everything else.
    pub fn default_severity(&self) -> (s: AlertSeverity)
        ensures
            s == spec_default_severity(*self),
    {
        match self {
            AlertType::HighQueueDepth => AlertSeverity::Info,
            AlertType::DataStale | AlertType::SpreadTooWide | AlertType::LowLiquidity | AlertType::HighLatency => {
                AlertSeverity::Warning
            },
            AlertType::DataGap | AlertType::HuginnRestart | AlertType::PositionDrift | AlertType::OrderRejected
            | AlertType::ExecutionFailed => AlertSeverity::Error,
            AlertType::DataInvalid | AlertType::OrderbookCrossed | AlertType::PriceSpike | AlertType::PositionLimitExceeded
            | AlertType::UnexpectedFill | AlertType::RecoveryFailed | AlertType::CircuitBreakerTriggered
            | AlertType::RiskLimitHit | AlertType::MemoryPressure => AlertSeverity::Critical,
        }
    }

    /// Position in declaration order.
    pub fn index(&self) -> (i: usize)
        ensures
            i == type_index(*self),
            i < ALERT_TYPE_COUNT,
    {
        match self {
            AlertType::DataStale => 0,
            AlertType::DataGap => 1,
            AlertType::DataInvalid => 2,
            AlertType::HuginnRestart => 3,
            AlertType::HighQueueDepth => 4,
            AlertType::PositionDrift => 5,
            AlertType::PositionLimitExceeded => 6,
            AlertType::UnexpectedFill => 7,
            AlertType::OrderbookCrossed => 8,
            AlertType::SpreadTooWide => 9,
            AlertType::LowLiquidity => 10,
            AlertType::PriceSpike => 11,
            AlertType::HighLatency => 12,
            AlertType::MemoryPressure => 13,
            AlertType::RecoveryFailed => 14,
            AlertType::CircuitBreakerTriggered => 15,
            AlertType::OrderRejected => 16,
            AlertType::ExecutionFailed => 17,
            AlertType::RiskLimitHit => 18,
        }
    }

    /// Short name for logs.
    pub fn to_string(&self) -> (r: &'static str)
        ensures
            r@ == spec_type_name(*self),
    {
        proof {
            reveal_strlit("DATA_STALE");
            reveal_strlit("DATA_GAP");
            reveal_strlit("DATA_INVALID");
            reveal_strlit("HUGINN_RESTART");
            reveal_strlit("HIGH_QUEUE_DEPTH");
            reveal_strlit("POSITION_DRIFT");
            reveal_strlit("POSITION_LIMIT");
            reveal_strlit("UNEXPECTED_FILL");
            reveal_strlit("ORDERBOOK_CROSSED");
            reveal_strlit("SPREAD_WIDE");
            reveal_strlit("LOW_LIQUIDITY");
            reveal_strlit("PRICE_SPIKE");
            reveal_strlit("HIGH_LATENCY");
            reveal_strlit("MEMORY_PRESSURE");
            reveal_strlit("RECOVERY_FAILED");
            reveal_strlit("CIRCUIT_BREAKER");
            reveal_strlit("ORDER_REJECTED");
            reveal_strlit("EXECUTION_FAILED");
            reveal_strlit("RISK_LIMIT");
        }
        match self {
            AlertType::DataStale => "DATA_STALE",
            AlertType::DataGap => "DATA_GAP",
            AlertType::DataInvalid => "DATA_INVALID",
            AlertType::HuginnRestart => "HUGINN_RESTART",
            AlertType::HighQueueDepth => "HIGH_QUEUE_DEPTH",
            AlertType::PositionDrift => "POSITION_DRIFT",
            AlertType::PositionLimitExceeded => "POSITION_LIMIT",
            AlertType::UnexpectedFill => "UNEXPECTED_FILL",
            AlertType::OrderbookCrossed => "ORDERBOOK_CROSSED",
            AlertType::SpreadTooWide => "SPREAD_WIDE",
            AlertType::LowLiquidity => "LOW_LIQUIDITY",
            AlertType::PriceSpike => "PRICE_SPIKE",
            AlertType::HighLatency => "HIGH_LATENCY",
            AlertType::MemoryPressure => "MEMORY_PRESSURE",
            AlertType::RecoveryFailed => "RECOVERY_FAILED",
            AlertType::CircuitBreakerTriggered => "CIRCUIT_BREAKER",
            AlertType::OrderRejected => "ORDER_REJECTED",
            AlertType::ExecutionFailed => "EXECUTION_FAILED",
            AlertType::RiskLimitHit => "RISK_LIMIT",
        }
    }
}

/// An alert.
#[derive(Debug)]
pub struct Alert {
    pub alert_type: AlertType,
    pub severity: AlertSeverity,
    pub message: String,
    pub context: HashMap<String, String>,
    pub timestamp: std::time::SystemTime,
    pub id: u64,
}

/// Alerting configuration.
#[derive(Debug)]
pub struct AlertConfig {
    /// Alert types that are raised (a type missing here is enabled).
    pub enabled_alerts: HashMap<AlertType, bool>,
    /// Severities that replace the defaults.
    pub severity_overrides: HashMap<AlertType, AlertSeverity>,
    /// Alerts per type per minute for a severity with no limit of its own.
    pub rate_limit_per_minute: u32,
    /// Alerts per type per minute, by severity.
    pub rate_limit_by_severity: HashMap<AlertSeverity, u32>,
    /// Window over which alerts are aggregated.
    pub aggregation_window: std::time::Duration,
    pub log_to_file: bool,
    pub send_to_monitoring: bool,
    /// Whether a critical alert halts trading.
    pub halt_on_critical: bool,
}

/// All alert types in declaration order.
fn all_alert_types() -> (v: Vec<AlertType>)
    ensures
        v.len() == ALERT_TYPE_COUNT,
{
    vec![
        AlertType::DataStale,
        AlertType::DataGap,
        AlertType::DataInvalid,
        AlertType::HuginnRestart,
        AlertType::HighQueueDepth,
        AlertType::PositionDrift,
        AlertType::PositionLimitExceeded,
        AlertType::UnexpectedFill,
        AlertType::OrderbookCrossed,
        AlertType::SpreadTooWide,
        AlertType::LowLiquidity,
        AlertType::PriceSpike,
        AlertType::HighLatency,
        AlertType::MemoryPressure,
        AlertType::RecoveryFailed,
        AlertType::CircuitBreakerTriggered,
        AlertType::OrderRejected,
        AlertType::ExecutionFailed,
        AlertType::RiskLimitHit,
    ]
}

impl Default for AlertConfig {
    /// Every type enabled, no overrides; per minute 20 info, 15 warning, 10 error and
    /// 100 critical alerts, 10 otherwise; a one-minute window; halt on critical.
    fn default() -> (c: Self)
        ensures
            c.rate_limit_per_minute == 10,
            duration_nanos(c.aggregation_window) == 60_000_000_000,
            c.log_to_file,
            !c.send_to_monitoring,
            c.halt_on_critical,
    {
        let mut enabled_alerts: HashMap<AlertType, bool> = HashMap::new();
        let types = all_alert_types();
        let mut i: usize = 0;
        while i < types.len()
            decreases types.len() - i,
        {
            enabled_alerts.insert(types[i], true);
            i = i + 1;
        }
        let mut rate_limit_by_severity: HashMap<AlertSeverity, u32> = HashMap::new();
        rate_limit_by_severity.insert(AlertSeverity::Info, 20);
        rate_limit_by_severity.insert(AlertSeverity::Warning, 15);
        rate_limit_by_severity.insert(AlertSeverity::Error, 10);
        rate_limit_by_severity.insert(AlertSeverity::Critical, 100);
        AlertConfig {
            enabled_alerts,
            severity_overrides: HashMap::new(),
            rate_limit_per_minute: 10,
            rate_limit_by_severity,
            aggregation_window: duration_from_secs(60),
            log_to_file: true,
            send_to_monitoring: false,
            halt_on_critical: true,
        }
    }
}

/// Alert statistics.
#[derive(Debug)]
pub struct AlertStats {
    pub total_alerts: u64,
    pub info_count: u64,
    pub warning_count: u64,
    pub error_count: u64,
    pub critical_count: u64,
    pub alerts_by_type: HashMap<AlertType, u64>,
    pub last_alert_time: Option<std::time::Instant>,
}

/// Length of the rate-limit window, in nanoseconds.
pub const RATE_WINDOW_NS: u128 = 60_000_000_000;

/// Times of a type's alerts still inside the window ending at `now_ns`.
pub open spec fn in_window(times: Seq<u128>, now_ns: u128) -> Seq<u128>
    decreases times.len(),
{
    if times.len() == 0 {
        Seq::empty()
    } else {
        let kept = in_window(times.drop_last(), now_ns);
        if times.last() + RATE_WINDOW_NS > now_ns { kept.push(times.last()) } else { kept }
    }
}

/// Whether the rate limit lets an alert through: below the limit, or critical.
pub open spec fn rate_allows(count: nat, limit: u32, severity: AlertSeverity) -> bool {
    count < limit || severity == AlertSeverity::Critical
}

/// Abstract state of an [`AlertManager`].
pub struct AlertManagerModel {
    pub halt_on_critical: bool,
    pub next_alert_id: u64,
    /// Type, severity and id of every alert kept, oldest first.
    pub history: Seq<(AlertType, AlertSeverity, u64)>,
    /// Per alert type, the times of its recent alerts.
    pub windows: Seq<Seq<u128>>,
    pub total_alerts: u64,
    pub info_count: u64,
    pub warning_count: u64,
    pub error_count: u64,
    pub critical_count: u64,
    pub trading_halted: bool,
}

/// Model after raising an alert of type `t` at `now_ns`, given whether the type is
/// enabled, its severity and its rate limit as configured: a disabled type does
/// nothing; otherwise the type's window drops expired times, and unless the limit is
/// reached (critical alerts are never held back) the alert is counted, kept with the
/// next id, and a critical one halts trading when configured to.
pub open spec fn spec_raise(m: AlertManagerModel, t: AlertType, enabled: bool, severity: AlertSeverity, limit: u32, now_ns: u128)
    -> AlertManagerModel
{
    let i = type_index(t);
    let window = in_window(m.windows[i], now_ns);
    if !enabled {
        m
    } else if !rate_allows(window.len(), limit, severity) {
        AlertManagerModel { windows: m.windows.update(i, window), ..m }
    } else {
        AlertManagerModel {
            windows: m.windows.update(i, window.push(now_ns)),
            next_alert_id: m.next_alert_id.wrapping_add(1),
            history: m.history.push((t, severity, m.next_alert_id)),
            total_alerts: (m.total_alerts + 1) as u64,
            info_count: if severity == AlertSeverity::Info { (m.info_count + 1) as u64 } else { m.info_count },
            warning_count: if severity == AlertSeverity::Warning { (m.warning_count + 1) as u64 } else { m.warning_count },
            error_count: if severity == AlertSeverity::Error { (m.error_count + 1) as u64 } else { m.error_count },
            critical_count: if severity == AlertSeverity::Critical { (m.critical_count + 1) as u64 } else { m.critical_count },
            trading_halted: m.trading_halted || (severity == AlertSeverity::Critical && m.halt_on_critical),
            ..m
        }
    }
}

/// Alert manager: rate limiting, statistics and the trading halt.
pub struct AlertManager {
    config: AlertConfig,
    next_alert_id: u64,
    alert_history: Vec<Alert>,
    alert_windows: Vec<Vec<u128>>,
    stats: AlertStats,
    trading_halted: bool,
    start: std::time::Instant,
}

impl View for AlertManager {
    type V = AlertManagerModel;

    closed spec fn view(&self) -> AlertManagerModel {
        AlertManagerModel {
            halt_on_critical: self.config.halt_on_critical,
            next_alert_id: self.next_alert_id,
            history: self.alert_history@.map_values(|a: Alert| (a.alert_type, a.severity, a.id)),
            windows: self.alert_windows@.map_values(|w: Vec<u128>| w@),
            total_alerts: self.stats.total_alerts,
            info_count: self.stats.info_count,
            warning_count: self.stats.warning_count,
            error_count: self.stats.error_count,
            critical_count: self.stats.critical_count,
            trading_halted: self.trading_halted,
        }
    }
}

/// Counts by severity add up to the total.
pub open spec fn counts_consistent(m: AlertManagerModel) -> bool {
    m.info_count + m.warning_count + m.error_count + m.critical_count == m.total_alerts
}

/// Keeps the times still inside the window ending at `now_ns`.
fn retain_window(times: &Vec<u128>, now_ns: u128) -> (kept: Vec<u128>)
    ensures
        kept@ == in_window(times@, now_ns),
{
    let mut kept: Vec<u128> = Vec::new();
    let mut i: usize = 0;
    while i < times.len()
        invariant
            0 <= i <= times.len(),
            kept@ == in_window(times@.take(i as int), now_ns),
        decreases times.len() - i,
    {
        assert(times@.take(i as int + 1).drop_last() =~= times@.take(i as int));
        let t = times[i];
        if t >= now_ns || now_ns - t < RATE_WINDOW_NS {
            kept.push(t);
        }
        i = i + 1;
    }
    assert(times@.take(times.len() as int) =~= times@);
    kept
}

impl AlertManager {
    /// A manager with the given configuration and no alerts.
    pub fn new(config: AlertConfig) -> (m: Self)
        ensures
            m@.halt_on_critical == config.halt_on_critical,
            m@.next_alert_id == 1,
            m@.history == Seq::<(AlertType, AlertSeverity, u64)>::empty(),
            m@.windows.len() == ALERT_TYPE_COUNT,
            forall|i: int| 0 <= i < ALERT_TYPE_COUNT ==> m@.windows[i] == Seq::<u128>::empty(),
            m@.total_alerts == 0 && m@.info_count == 0 && m@.warning_count == 0,
            m@.error_count == 0 && m@.critical_count == 0,
            !m@.trading_halted,
    {
        let mut windows: Vec<Vec<u128>> = Vec::new();
        let mut i: usize = 0;
        while i < ALERT_TYPE_COUNT
            invariant
                0 <= i <= ALERT_TYPE_COUNT,
                windows.len() == i,
                forall|j: int| 0 <= j < i ==> windows@[j]@ == Seq::<u128>::empty(),
            decreases ALERT_TYPE_COUNT - i,
        {
            windows.push(Vec::new());
            i = i + 1;
        }
        let m = AlertManager {
            config,
            next_alert_id: 1,
            alert_history: Vec::new(),
            alert_windows: windows,
            stats: AlertStats {
                total_alerts: 0,
                info_count: 0,
                warning_count: 0,
                error_count: 0,
                critical_count: 0,
                alerts_by_type: HashMap::new(),
                last_alert_time: None,
            },
            trading_halted: false,
            start: instant_now(),
        };
        assert(m@.history =~= Seq::<(AlertType, AlertSeverity, u64)>::empty());
        m
    }

    /// Raises an alert now.
    pub fn raise_alert(&mut self, alert_type: AlertType, message: String, context: HashMap<String, String>)
        -> (r: Result<(), String>)
        requires
            old(self)@.windows.len() == ALERT_TYPE_COUNT,
            counts_consistent(old(self)@),
            old(self)@.total_alerts < u64::MAX,
        ensures
            r is Ok,
            exists|enabled: bool, severity: AlertSeverity, limit: u32, now_ns: u128|
                final(self)@ == #[trigger] spec_raise(old(self)@, alert_type, enabled, severity, limit, now_ns),
            final(self)@.windows.len() == ALERT_TYPE_COUNT,
            counts_consistent(final(self)@),
    {
        let now_ns = elapsed_ns(&self.start);
        self.raise_alert_at(alert_type, message, context, now_ns)
    }

    /// Raises an alert at `now_ns` nanoseconds after the manager was created.
    pub fn raise_alert_at(&mut self, alert_type: AlertType, message: String, context: HashMap<String, String>, now_ns: u128)
        -> (r: Result<(), String>)
        requires
            old(self)@.windows.len() == ALERT_TYPE_COUNT,
            counts_consistent(old(self)@),
            old(self)@.total_alerts < u64::MAX,
        ensures
            r is Ok,
            exists|enabled: bool, severity: AlertSeverity, limit: u32|
                final(self)@ == #[trigger] spec_raise(old(self)@, alert_type, enabled, severity, limit, now_ns),
            final(self)@.windows.len() == ALERT_TYPE_COUNT,
            counts_consistent(final(self)@),
    {
        let enabled = match self.config.enabled_alerts.get(&alert_type) {
            Some(e) => *e,
            None => true,
        };
        let severity = match self.config.severity_overrides.get(&alert_type) {
            Some(s) => *s,
            None => alert_type.default_severity(),
        };
        let limit = match self.config.rate_limit_by_severity.get(&severity) {
            Some(l) => *l,
            None => self.config.rate_limit_per_minute,
        };
        if !enabled {
            assert(self@ == spec_raise(old(self)@, alert_type, enabled, severity, limit, now_ns));
            return Ok(());
        }
        let idx = alert_type.index();
        let window = retain_window(&self.alert_windows[idx], now_ns);
        let allowed = (window.len() as u64) < (limit as u64) || severity == AlertSeverity::Critical;
        let ghost before = self@;
        if !allowed {
            self.alert_windows.set(idx, window);
            assert(self@.windows =~= old(self)@.windows.update(idx as int, in_window(old(self)@.windows[idx as int], now_ns)));
            assert(self@ == spec_raise(old(self)@, alert_type, enabled, severity, limit, now_ns));
            return Ok(());
        }
        let mut window = window;
        window.push(now_ns);
        self.alert_windows.set(idx, window);
        let id = self.next_alert_id;
        self.next_alert_id = self.next_alert_id.wrapping_add(1);
        let alert = Alert { alert_type, severity, message, context, timestamp: system_time_now(), id };
        self.stats.total_alerts = self.stats.total_alerts + 1;
        self.stats.last_alert_time = Some(instant_now());
        match severity {
            AlertSeverity::Info => self.stats.info_count = self.stats.info_count + 1,
            AlertSeverity::Warning => self.stats.warning_count = self.stats.warning_count + 1,
            AlertSeverity::Error => self.stats.error_count = self.stats.error_count + 1,
            AlertSeverity::Critical => self.stats.critical_count = self.stats.critical_count + 1,
        }
        let by_type: u64 = match self.stats.alerts_by_type.get(&alert_type) {
            Some(c) => *c,
            None => 0,
        };
        self.stats.alerts_by_type.insert(alert_type, by_type.wrapping_add(1));
        self.alert_history.push(alert);
        if severity == AlertSeverity::Critical && self.config.halt_on_critical {
            self.trading_halted = true;
        }
        assert(self@.windows =~= old(self)@.windows.update(idx as int, in_window(old(self)@.windows[idx as int], now_ns).push(now_ns)));
        assert(self@.history =~= old(self)@.history.push((alert_type, severity, id)));
        assert(self@ == spec_raise(old(self)@, alert_type, enabled, severity, limit, now_ns));
        Ok(())
    }

    /// Whether a critical alert halted trading.
    pub fn is_trading_halted(&self) -> (r: bool)
        ensures
            r == self@.trading_halted,
    {
        self.trading_halted
    }

    /// Lifts the trading halt.
    pub fn reset_halt(&mut self)
        ensures
            final(self)@ == (AlertManagerModel { trading_halted: false, ..old(self)@ }),
    {
        self.trading_halted = false;
    }

    /// The statistics.
    pub fn stats(&self) -> (s: &AlertStats)
        ensures
            s.total_alerts == self@.total_alerts,
            s.info_count == self@.info_count,
            s.warning_count == self@.warning_count,
            s.error_count == self@.error_count,
            s.critical_count == self@.critical_count,
    {
        &self.stats
    }

    /// The last `count` alerts kept, oldest first.
    pub fn recent_alerts(&self, count: usize) -> (r: Vec<&Alert>)
        ensures
            r@.map_values(|a: &Alert| (a.alert_type, a.severity, a.id))
                == self@.history.subrange(
                    if self@.history.len() >= count { self@.history.len() - count } else { 0 },
                    self@.history.len() as int),
    {
        let n = self.alert_history.len();
        let start = if n >= count { n - count } else { 0 };
        let mut r: Vec<&Alert> = Vec::new();
        let mut i = start;
        while i < n
            invariant
                start <= i <= n,
                n == self.alert_history.len(),
                r@.map_values(|a: &Alert| (a.alert_type, a.severity, a.id))
                    == self@.history.subrange(start as int, i as int),
            decreases n - i,
        {
            let ghost before = r@;
            let a = &self.alert_history[i];
            assert(self@.history[i as int] == (a.alert_type, a.severity, a.id));
            r.push(a);
            assert(r@.map_values(|a: &Alert| (a.alert_type, a.severity, a.id))
                =~= before.map_values(|a: &Alert| (a.alert_type, a.severity, a.id)).push((a.alert_type, a.severity, a.id)));
            assert(r@.map_values(|a: &Alert| (a.alert_type, a.severity, a.id))
                =~= self@.history.subrange(start as int, i as int + 1));
            i = i + 1;
        }
        r
    }

    /// Forgets the alert history and the rate-limit windows.
    pub fn clear_history(&mut self)
        ensures
            final(self)@ == (AlertManagerModel {
                history: Seq::empty(),
                windows: Seq::new(old(self)@.windows.len(), |i: int| Seq::<u128>::empty()),
                ..old(self)@
            }),
    {
        self.alert_history.clear();
        let n = self.alert_windows.len();
        let mut i: usize = 0;
        while i < n
            invariant
                0 <= i <= n,
                n == self.alert_windows.len(),
                forall|j: int| 0 <= j < i ==> self.alert_windows@[j]@ == Seq::<u128>::empty(),
                forall|j: int| i <= j < n ==> self.alert_windows@[j] == old(self).alert_windows@[j],
                self.alert_history@ == Seq::<Alert>::empty(),
                self.stats == old(self).stats,
                self.next_alert_id == old(self).next_alert_id,
                self.trading_halted == old(self).trading_halted,
                self.config.halt_on_critical == old(self).config.halt_on_critical,
            decreases n - i,
        {
            self.alert_windows.set(i, Vec::new());
            i = i + 1;
        }
        assert(self@.windows =~= Seq::new(old(self)@.windows.len(), |i: int| Seq::<u128>::empty()));
        assert(self@.history =~= Seq::<(AlertType, AlertSeverity, u64)>::empty());
    }
}

/// Critical alerts are never held back by the rate limit: an enabled critical alert is
/// always recorded, and halts trading when the manager is configured to.
pub proof fn lemma_critical_alert_always_recorded(m: AlertManagerModel, t: AlertType, limit: u32, now_ns: u128)
    requires
        m.windows.len() == ALERT_TYPE_COUNT,
        m.critical_count < u64::MAX,
    ensures
        ({
            let m1 = spec_raise(m, t, true, AlertSeverity::Critical, limit, now_ns);
            &&& m1.history == m.history.push((t, AlertSeverity::Critical, m.next_alert_id))
            &&& m1.critical_count == m.critical_count + 1
            &&& m.halt_on_critical ==> m1.trading_halted
        }),
{
}

/// A non-critical alert type is limited to `limit` alerts per window: once its window
/// holds `limit` recent alerts, a further alert at the same time is not recorded.
pub proof fn lemma_rate_limit_holds_back(m: AlertManagerModel, t: AlertType, severity: AlertSeverity, limit: u32, now_ns: u128)
    requires
        severity != AlertSeverity::Critical,
        in_window(m.windows[type_index(t)], now_ns).len() >= limit,
    ensures
        spec_raise(m, t, true, severity, limit, now_ns).history == m.history,
        spec_raise(m, t, true, severity, limit, now_ns).total_alerts == m.total_alerts,
{
}

} // verus!
