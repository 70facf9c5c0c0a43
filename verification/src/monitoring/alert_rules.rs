//! Alert rules over the position and the feed connection.
use vstd::prelude::*;
use vstd::string::StringExecFns;
use crate::clock::{duration_as_secs, duration_nanos};
use crate::core_types::Position;
use crate::monitoring::alerts::{details_view, spec_set_detail, Alert, AlertCategory, AlertSeverity};
use crate::text::{dec_digits, dec_signed, push_i64, push_u64};

verus! {

/// Decimal text of an `i64`.
fn i64_text(n: i64) -> (s: String)
    ensures
        s@ == dec_signed(n as int),
{
    let mut s = String::new();
    push_i64(&mut s, n);
    s
}

/// The alert text "`prefix` `a` `sep` `b`".
fn two_numbers(prefix: &str, a: i64, sep: &str, b: i64) -> (s: String)
    ensures
        s@ == prefix@ + dec_signed(a as int) + sep@ + dec_signed(b as int),
{
    let mut s = String::from_str(prefix);
    push_i64(&mut s, a);
    s.append(sep);
    push_i64(&mut s, b);
    s
}

/// Alerts when the absolute position exceeds a limit.
pub struct PositionLimitRule {
    pub max_position: i64,
    pub severity: AlertSeverity,
}

impl PositionLimitRule {
    /// A rule with the given limit and severity.
    pub fn new(max_position: i64, severity: AlertSeverity) -> (r: Self)
        ensures
            r.max_position == max_position && r.severity == severity,
    {
        PositionLimitRule { max_position, severity }
    }

    /// Name of the rule.
    pub fn name(&self) -> (r: &'static str)
        ensures
            r@ == "position_limit_exceeded"@,
    {
        proof {
            reveal_strlit("position_limit_exceeded");
        }
        "position_limit_exceeded"
    }

    /// Category of the rule.
    pub fn category(&self) -> (c: AlertCategory)
        ensures
            c == AlertCategory::Risk,
    {
        AlertCategory::Risk
    }

    /// Alert for a position whose absolute quantity exceeds the limit, with the
    /// quantity, the limit and the excess as details; none otherwise or with no position.
    pub fn evaluate(&self, position: Option<&Position>) -> (r: Option<Alert>)
        requires
            position matches Some(p) ==> p.quantity != i64::MIN
                && (abs_i64(p.quantity) > self.max_position ==> abs_i64(p.quantity) - self.max_position <= i64::MAX),
        ensures
            match position {
                Some(p) => (r is Some <==> abs_i64(p.quantity) > self.max_position) && (r matches Some(a) ==> {
                    &&& a.id.category == AlertCategory::Risk
                    &&& a.id.name@ == "position_limit_exceeded"@
                    &&& a.severity == self.severity
                    &&& a.message@ == "Position limit exceeded: "@ + dec_signed(p.quantity as int) + " > "@
                        + dec_signed(self.max_position as int)
                    &&& details_view(a.details@) == seq![
                        ("current_position"@, dec_signed(p.quantity as int)),
                        ("limit"@, dec_signed(self.max_position as int)),
                        ("excess"@, dec_signed(abs_i64(p.quantity) - self.max_position)),
                    ]
                }),
                None => r is None,
            },
    {
        match position {
            Some(p) => {
                let current_position = p.get_quantity();
                let abs_position = if current_position < 0 { -current_position } else { current_position };
                if abs_position > self.max_position {
                    let message = two_numbers("Position limit exceeded: ", current_position, " > ", self.max_position);
                    let alert = Alert::new(self.category(), self.name(), self.severity, message.as_str());
                    assert(details_view(alert.details@) =~= Seq::<(Seq<char>, Seq<char>)>::empty());
                    let alert = alert.with_detail("current_position", i64_text(current_position).as_str());
                    let alert = alert.with_detail("limit", i64_text(self.max_position).as_str());
                    let alert = alert.with_detail("excess", i64_text(abs_position - self.max_position).as_str());
                    proof {
                        reveal_strlit("current_position");
                        reveal_strlit("limit");
                        reveal_strlit("excess");
                        assert("current_position"@.len() != "limit"@.len());
                        assert("current_position"@.len() != "excess"@.len());
                        assert("limit"@.len() != "excess"@.len());
                        lemma_three_fresh_details("current_position"@, "limit"@, "excess"@);
                    }
                    Some(alert)
                } else {
                    None
                }
            },
            None => None,
        }
    }
}

/// Absolute value of an `i64`, as an integer.
pub open spec fn abs_i64(n: i64) -> int {
    if n < 0 { -(n as int) } else { n as int }
}

/// Setting three distinct keys on no details keeps them in that order.
proof fn lemma_three_fresh_details(k1: Seq<char>, k2: Seq<char>, k3: Seq<char>)
    ensures
        forall|v1: Seq<char>, v2: Seq<char>, v3: Seq<char>|
            k1 != k2 && k1 != k3 && k2 != k3 ==> #[trigger] spec_set_detail(spec_set_detail(spec_set_detail(
                Seq::<(Seq<char>, Seq<char>)>::empty(), k1, v1), k2, v2), k3, v3) == seq![(k1, v1), (k2, v2), (k3, v3)],
{
    assert forall|v1: Seq<char>, v2: Seq<char>, v3: Seq<char>|
        k1 != k2 && k1 != k3 && k2 != k3 implies #[trigger] spec_set_detail(spec_set_detail(spec_set_detail(
            Seq::<(Seq<char>, Seq<char>)>::empty(), k1, v1), k2, v2), k3, v3) == seq![(k1, v1), (k2, v2), (k3, v3)] by {
        let d0 = Seq::<(Seq<char>, Seq<char>)>::empty();
        let d1 = spec_set_detail(d0, k1, v1);
        assert(d1 =~= seq![(k1, v1)]);
        let d2 = spec_set_detail(d1, k2, v2);
        assert(!(exists|i: int| 0 <= i < d1.len() && d1[i].0 == k2));
        assert(d2 =~= seq![(k1, v1), (k2, v2)]);
        assert(!(exists|i: int| 0 <= i < d2.len() && d2[i].0 == k3));
        assert(spec_set_detail(d2, k3, v3) =~= seq![(k1, v1), (k2, v2), (k3, v3)]);
    }
}

/// Alerts when the daily loss exceeds a limit.
pub struct DailyLossLimitRule {
    pub max_daily_loss: i64,
    pub severity: AlertSeverity,
}

impl DailyLossLimitRule {
    /// A rule with the given limit and severity.
    pub fn new(max_daily_loss: i64, severity: AlertSeverity) -> (r: Self)
        ensures
            r.max_daily_loss == max_daily_loss && r.severity == severity,
    {
        DailyLossLimitRule { max_daily_loss, severity }
    }

    /// Name of the rule.
    pub fn name(&self) -> (r: &'static str)
        ensures
            r@ == "daily_loss_limit_exceeded"@,
    {
        proof {
            reveal_strlit("daily_loss_limit_exceeded");
        }
        "daily_loss_limit_exceeded"
    }

    /// Category of the rule.
    pub fn category(&self) -> (c: AlertCategory)
        ensures
            c == AlertCategory::Risk,
    {
        AlertCategory::Risk
    }

    /// Alert for a negative daily PnL whose magnitude exceeds the limit, with the PnL,
    /// the limit and the excess loss as details; none otherwise or with no position.
    pub fn evaluate(&self, position: Option<&Position>) -> (r: Option<Alert>)
        requires
            position matches Some(p) ==> p.daily_pnl != i64::MIN
                && ((p.daily_pnl < 0 && abs_i64(p.daily_pnl) > self.max_daily_loss)
                    ==> abs_i64(p.daily_pnl) - self.max_daily_loss <= i64::MAX),
        ensures
            match position {
                Some(p) => (r is Some <==> (p.daily_pnl < 0 && abs_i64(p.daily_pnl) > self.max_daily_loss))
                    && (r matches Some(a) ==> {
                    &&& a.id.category == AlertCategory::Risk
                    &&& a.id.name@ == "daily_loss_limit_exceeded"@
                    &&& a.severity == self.severity
                    &&& a.message@ == "Daily loss limit exceeded: "@ + dec_signed(p.daily_pnl as int) + " < -"@
                        + dec_signed(self.max_daily_loss as int)
                    &&& details_view(a.details@) == seq![
                        ("daily_pnl"@, dec_signed(p.daily_pnl as int)),
                        ("limit"@, dec_signed(self.max_daily_loss as int)),
                        ("excess_loss"@, dec_signed(abs_i64(p.daily_pnl) - self.max_daily_loss)),
                    ]
                }),
                None => r is None,
            },
    {
        match position {
            Some(p) => {
                let daily_pnl = p.get_daily_pnl();
                if daily_pnl < 0 && -daily_pnl > self.max_daily_loss {
                    let loss = -daily_pnl;
                    let message = two_numbers("Daily loss limit exceeded: ", daily_pnl, " < -", self.max_daily_loss);
                    let alert = Alert::new(self.category(), self.name(), self.severity, message.as_str());
                    assert(details_view(alert.details@) =~= Seq::<(Seq<char>, Seq<char>)>::empty());
                    let alert = alert.with_detail("daily_pnl", i64_text(daily_pnl).as_str());
                    let alert = alert.with_detail("limit", i64_text(self.max_daily_loss).as_str());
                    let alert = alert.with_detail("excess_loss", i64_text(loss - self.max_daily_loss).as_str());
                    proof {
                        reveal_strlit("daily_pnl");
                        reveal_strlit("limit");
                        reveal_strlit("excess_loss");
                        assert("daily_pnl"@.len() != "limit"@.len());
                        assert("daily_pnl"@.len() != "excess_loss"@.len());
                        assert("limit"@.len() != "excess_loss"@.len());
                        lemma_three_fresh_details("daily_pnl"@, "limit"@, "excess_loss"@);
                    }
                    Some(alert)
                } else {
                    None
                }
            },
            None => None,
        }
    }
}

/// Alerts when the market-data connection is down.
pub struct HuginnConnectionRule {
    pub grace_period: std::time::Duration,
    pub severity: AlertSeverity,
}

impl HuginnConnectionRule {
    /// A rule with the given grace period and severity.
    pub fn new(grace_period: std::time::Duration, severity: AlertSeverity) -> (r: Self)
        ensures
            r.grace_period == grace_period && r.severity == severity,
    {
        HuginnConnectionRule { grace_period, severity }
    }

    /// Name of the rule.
    pub fn name(&self) -> (r: &'static str)
        ensures
            r@ == "huginn_connection_lost"@,
    {
        proof {
            reveal_strlit("huginn_connection_lost");
        }
        "huginn_connection_lost"
    }

    /// Category of the rule.
    pub fn category(&self) -> (c: AlertCategory)
        ensures
            c == AlertCategory::System,
    {
        AlertCategory::System
    }

    /// Alert when the connection gauge reads 0, with the grace period in seconds and
    /// the action to take as details.
    pub fn evaluate(&self, huginn_connected: i64) -> (r: Option<Alert>)
        ensures
            (r is Some <==> huginn_connected == 0),
            r matches Some(a) ==> {
                &&& a.id.category == AlertCategory::System
                &&& a.id.name@ == "huginn_connection_lost"@
                &&& a.severity == self.severity
                &&& a.message@ == "Huginn market data connection lost"@
                &&& details_view(a.details@) == seq![
                    ("grace_period_secs"@, dec_digits((duration_nanos(self.grace_period) / 1_000_000_000) as nat)),
                    ("action"@, "Check Huginn service and shared memory"@),
                ]
            },
    {
        if huginn_connected == 0 {
            let mut secs = String::new();
            push_u64(&mut secs, duration_as_secs(&self.grace_period));
            let alert = Alert::new(self.category(), self.name(), self.severity, "Huginn market data connection lost");
            assert(details_view(alert.details@) =~= Seq::<(Seq<char>, Seq<char>)>::empty());
            let alert = alert.with_detail("grace_period_secs", secs.as_str());
            let alert = alert.with_detail("action", "Check Huginn service and shared memory");
            proof {
                reveal_strlit("grace_period_secs");
                reveal_strlit("action");
                let d0 = Seq::<(Seq<char>, Seq<char>)>::empty();
                let d1 = spec_set_detail(d0, "grace_period_secs"@, secs@);
                assert(d1 =~= seq![("grace_period_secs"@, secs@)]);
                assert("grace_period_secs"@.len() != "action"@.len());
                assert(!(exists|i: int| 0 <= i < d1.len() && d1[i].0 == "action"@));
                assert(spec_set_detail(d1, "action"@, "Check Huginn service and shared memory"@)
                    =~= seq![("grace_period_secs"@, secs@), ("action"@, "Check Huginn service and shared memory"@)]);
            }
            Some(alert)
        } else {
            None
        }
    }
}

} // verus!
