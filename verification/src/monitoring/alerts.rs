//! Operational alerts: identity, severity, details and their text form.
use vstd::prelude::*;
use vstd::string::StringExecFns;
use crate::clock::{system_time_now, unix_now_ns};

verus! {

/// Alert severity, from least to most severe.
#[derive(Clone, Copy, PartialEq, Eq, Structural, PartialOrd, Ord, Hash, Debug)]
pub enum AlertSeverity {
    Info,
    Warning,
    Error,
    Critical,
}

/// Label of a severity.
pub open spec fn spec_severity_label(s: AlertSeverity) -> Seq<char> {
    match s {
        AlertSeverity::Info => "INFO"@,
        AlertSeverity::Warning => "WARN"@,
        AlertSeverity::Error => "ERROR"@,
        AlertSeverity::Critical => "CRITICAL"@,
    }
}

/// Symbol of a severity.
pub open spec fn spec_severity_emoji(s: AlertSeverity) -> Seq<char> {
    match s {
        AlertSeverity::Info => "ℹ️"@,
        AlertSeverity::Warning => "⚠️"@,
        AlertSeverity::Error => "❌"@,
        AlertSeverity::Critical => "🚨"@,
    }
}

/// Rank of a severity: 0 for info up to 3 for critical.
pub open spec fn severity_level(s: AlertSeverity) -> int {
    match s {
        AlertSeverity::Info => 0,
        AlertSeverity::Warning => 1,
        AlertSeverity::Error => 2,
        AlertSeverity::Critical => 3,
    }
}

impl AlertSeverity {
    /// "INFO", "WARN", "ERROR" or "CRITICAL".
    pub fn as_str(&self) -> (r: &'static str)
        ensures
            r@ == spec_severity_label(*self),
    {
        proof {
            reveal_strlit("INFO");
            reveal_strlit("WARN");
            reveal_strlit("ERROR");
            reveal_strlit("CRITICAL");
        }
        match self {
            AlertSeverity::Info => "INFO",
            AlertSeverity::Warning => "WARN",
            AlertSeverity::Error => "ERROR",
            AlertSeverity::Critical => "CRITICAL",
        }
    }

    /// A symbol for the severity.
    pub fn emoji(&self) -> (r: &'static str)
        ensures
            r@ == spec_severity_emoji(*self),
    {
        proof {
            reveal_strlit("ℹ️");
            reveal_strlit("⚠️");
            reveal_strlit("❌");
            reveal_strlit("🚨");
        }
        match self {
            AlertSeverity::Info => "ℹ️",
            AlertSeverity::Warning => "⚠️",
            AlertSeverity::Error => "❌",
            AlertSeverity::Critical => "🚨",
        }
    }

    /// Rank of the severity: 0 for info up to 3 for critical.
    pub fn level(&self) -> (r: u8)
        ensures
            r == severity_level(*self),
    {
        match self {
            AlertSeverity::Info => 0,
            AlertSeverity::Warning => 1,
            AlertSeverity::Error => 2,
            AlertSeverity::Critical => 3,
        }
    }
}

/// Area an alert belongs to.
#[derive(Clone, Copy, PartialEq, Eq, Structural, Hash, Debug)]
pub enum AlertCategory {
    Risk,
    System,
    Trading,
    Performance,
}

/// Label of a category.
pub open spec fn spec_category_label(c: AlertCategory) -> Seq<char> {
    match c {
        AlertCategory::Risk => "RISK"@,
        AlertCategory::System => "SYSTEM"@,
        AlertCategory::Trading => "TRADING"@,
        AlertCategory::Performance => "PERFORMANCE"@,
    }
}

impl AlertCategory {
    /// "RISK", "SYSTEM", "TRADING" or "PERFORMANCE".
    pub fn as_str(&self) -> (r: &'static str)
        ensures
            r@ == spec_category_label(*self),
    {
        proof {
            reveal_strlit("RISK");
            reveal_strlit("SYSTEM");
            reveal_strlit("TRADING");
            reveal_strlit("PERFORMANCE");
        }
        match self {
            AlertCategory::Risk => "RISK",
            AlertCategory::System => "SYSTEM",
            AlertCategory::Trading => "TRADING",
            AlertCategory::Performance => "PERFORMANCE",
        }
    }
}

/// Identity of an alert: its category and name.
#[derive(Debug, Eq, Hash)]
pub struct AlertId {
    pub category: AlertCategory,
    pub name: String,
}

impl PartialEq for AlertId {
    fn eq(&self, other: &AlertId) -> (r: bool) {
        self.category == other.category && self.name == other.name
    }
}

impl vstd::std_specs::cmp::PartialEqSpecImpl for AlertId {
    open spec fn obeys_eq_spec() -> bool {
        true
    }

    open spec fn eq_spec(&self, other: &AlertId) -> bool {
        self.category == other.category && self.name@ == other.name@
    }
}

impl Clone for AlertId {
    fn clone(&self) -> (r: Self)
        ensures
            r.category == self.category,
            r.name@ == self.name@,
    {
        AlertId { category: self.category, name: self.name.clone() }
    }
}

impl AlertId {
    /// The identity of alert `name` in `category`.
    pub fn new(category: AlertCategory, name: &str) -> (id: Self)
        ensures
            id.category == category,
            id.name@ == name@,
    {
        AlertId { category, name: String::from_str(name) }
    }

    /// "CATEGORY.name".
    pub fn to_string(&self) -> (s: String)
        ensures
            s@ == spec_category_label(self.category) + "."@ + self.name@,
    {
        let mut s = String::from_str(self.category.as_str());
        s.append(".");
        s.append(self.name.as_str());
        s
    }
}

/// Details of an alert as text pairs.
pub open spec fn details_view(d: Seq<(String, String)>) -> Seq<(Seq<char>, Seq<char>)> {
    d.map_values(|p: (String, String)| (p.0@, p.1@))
}

/// Whether no key occurs twice.
pub open spec fn keys_distinct(d: Seq<(Seq<char>, Seq<char>)>) -> bool {
    forall|i: int, j: int| 0 <= i < j < d.len() ==> d[i].0 != d[j].0
}

/// Details after setting `key` to `value`: the value of an existing key is replaced in
/// place; a new key is added at the end.
pub open spec fn spec_set_detail(d: Seq<(Seq<char>, Seq<char>)>, key: Seq<char>, value: Seq<char>) -> Seq<(Seq<char>, Seq<char>)> {
    if exists|i: int| 0 <= i < d.len() && d[i].0 == key {
        let i = choose|i: int| 0 <= i < d.len() && d[i].0 == key;
        d.update(i, (key, value))
    } else {
        d.push((key, value))
    }
}

/// Details after setting each pair of `pairs` in order.
pub open spec fn spec_set_details(d: Seq<(Seq<char>, Seq<char>)>, pairs: Seq<(Seq<char>, Seq<char>)>) -> Seq<(Seq<char>, Seq<char>)>
    decreases pairs.len(),
{
    if pairs.len() == 0 {
        d
    } else {
        let prev = spec_set_details(d, pairs.drop_last());
        spec_set_detail(prev, pairs.last().0, pairs.last().1)
    }
}

/// Lines of the detail section.
pub open spec fn spec_detail_lines(d: Seq<(Seq<char>, Seq<char>)>) -> Seq<char>
    decreases d.len(),
{
    if d.len() == 0 {
        Seq::empty()
    } else {
        spec_detail_lines(d.drop_last()) + "\n    "@ + d.last().0 + ": "@ + d.last().1
    }
}

/// An alert: identity, severity, message, details and the time it was raised.
#[derive(Debug)]
pub struct Alert {
    pub id: AlertId,
    pub severity: AlertSeverity,
    pub message: String,
    /// Detail pairs, each key at most once, in the order they were first set.
    pub details: Vec<(String, String)>,
    pub timestamp: std::time::SystemTime,
}

/// Text of an alert: symbol, severity, identity and message, then one line per detail.
pub open spec fn spec_format(a: Alert) -> Seq<char> {
    let head = "["@ + spec_severity_emoji(a.severity) + "] "@ + spec_severity_label(a.severity) + " "@
        + spec_category_label(a.id.category) + "."@ + a.id.name@ + " - "@ + a.message@;
    if a.details.len() == 0 {
        head
    } else {
        head + "\n  Details:"@ + spec_detail_lines(details_view(a.details@))
    }
}

impl Alert {
    /// A new alert with no details, stamped with the current time.
    pub fn new(category: AlertCategory, name: &str, severity: AlertSeverity, message: &str) -> (a: Self)
        ensures
            a.id.category == category,
            a.id.name@ == name@,
            a.severity == severity,
            a.message@ == message@,
            a.details@ == Seq::<(String, String)>::empty(),
    {
        Alert {
            id: AlertId::new(category, name),
            severity,
            message: String::from_str(message),
            details: Vec::new(),
            timestamp: system_time_now(),
        }
    }

    /// Sets one detail, replacing the value of an existing key.
    pub fn with_detail(self, key: &str, value: &str) -> (a: Self)
        requires
            keys_distinct(details_view(self.details@)),
        ensures
            a.id == self.id && a.severity == self.severity && a.message == self.message,
            details_view(a.details@) == spec_set_detail(details_view(self.details@), key@, value@),
            keys_distinct(details_view(a.details@)),
    {
        let mut a = self;
        set_detail(&mut a.details, String::from_str(key), String::from_str(value));
        a
    }

    /// Sets each of the given details in order.
    pub fn with_details(self, details: Vec<(String, String)>) -> (a: Self)
        requires
            keys_distinct(details_view(self.details@)),
        ensures
            a.id == self.id && a.severity == self.severity && a.message == self.message,
            details_view(a.details@) == spec_set_details(details_view(self.details@), details_view(details@)),
            keys_distinct(details_view(a.details@)),
    {
        let mut a = self;
        let mut pairs = details;
        let ghost all = details_view(pairs@);
        let ghost start = details_view(a.details@);
        let ghost mut i: int = 0;
        while pairs.len() > 0
            invariant
                0 <= i <= all.len(),
                details_view(pairs@) == all.skip(i),
                a.id == self.id && a.severity == self.severity && a.message == self.message,
                details_view(a.details@) == spec_set_details(start, all.take(i)),
                keys_distinct(details_view(a.details@)),
            decreases pairs.len(),
        {
            let ghost before = pairs@;
            assert(details_view(before).len() == before.len());
            assert(i < all.len());
            let (k, v) = pairs.remove(0);
            assert(all.take(i + 1).drop_last() =~= all.take(i));
            assert(details_view(before)[0] == all[i]);
            assert(pairs@ =~= before.subrange(1, before.len() as int));
            assert(details_view(pairs@) =~= details_view(before).subrange(1, before.len() as int));
            assert(details_view(pairs@) =~= all.skip(i + 1));
            set_detail(&mut a.details, k, v);
            proof {
                i = i + 1;
            }
        }
        assert(all.take(i) =~= all);
        a
    }

    /// The alert as text: "[symbol] SEVERITY CATEGORY.name - message", then a
    /// "Details:" line and one indented "key: value" line per detail.
    pub fn format(&self) -> (s: String)
        ensures
            s@ == spec_format(*self),
    {
        let mut s = String::from_str("[");
        s.append(self.severity.emoji());
        s.append("] ");
        s.append(self.severity.as_str());
        s.append(" ");
        let id = self.id.to_string();
        s.append(id.as_str());
        s.append(" - ");
        s.append(self.message.as_str());
        if self.details.len() > 0 {
            s.append("\n  Details:");
            let ghost head = s@;
            let mut i: usize = 0;
            while i < self.details.len()
                invariant
                    0 <= i <= self.details.len(),
                    s@ == head + spec_detail_lines(details_view(self.details@.take(i as int))),
                decreases self.details.len() - i,
            {
                assert(details_view(self.details@.take(i as int + 1)).drop_last() =~= details_view(self.details@.take(i as int)));
                s.append("\n    ");
                s.append(self.details[i].0.as_str());
                s.append(": ");
                s.append(self.details[i].1.as_str());
                i = i + 1;
            }
            assert(self.details@.take(self.details.len() as int) =~= self.details@);
        }
        s
    }
}

/// Sets `key` to `value` in an association list with distinct keys.
fn set_detail(details: &mut Vec<(String, String)>, key: String, value: String)
    requires
        keys_distinct(details_view(old(details)@)),
    ensures
        details_view(final(details)@) == spec_set_detail(details_view(old(details)@), key@, value@),
        keys_distinct(details_view(final(details)@)),
{
    let ghost d = details_view(details@);
    let mut i: usize = 0;
    while i < details.len()
        invariant
            0 <= i <= details.len(),
            details@ == old(details)@,
            d == details_view(details@),
            keys_distinct(d),
            forall|j: int| 0 <= j < i ==> d[j].0 != key@,
        decreases details.len() - i,
    {
        assert(d[i as int].0 == details@[i as int].0@);
        if details[i].0 == key {
            assert(d[i as int].0 == key@);
            assert(exists|j: int| 0 <= j < d.len() && d[j].0 == key@);
            let ghost c = choose|j: int| 0 <= j < d.len() && d[j].0 == key@;
            proof {
                if c != i as int {
                    if c < i as int {
                        assert(d[c].0 != d[i as int].0);
                    } else {
                        assert(d[i as int].0 != d[c].0);
                    }
                }
            }
            assert(c == i as int);
            details.set(i, (key, value));
            assert(details_view(details@) =~= d.update(i as int, (key@, value@)));
            return;
        }
        i = i + 1;
    }
    details.push((key, value));
    assert(details_view(details@) =~= d.push((key@, value@)));
}

/// Where alerts are delivered, and from which severity on.
#[derive(Debug)]
pub enum AlertOutput {
    /// The log.
    Console { min_severity: AlertSeverity },
    /// A file, one JSON alert per line.
    File { path: std::path::PathBuf, min_severity: AlertSeverity },
    /// An HTTP endpoint.
    Webhook { url: String, min_severity: AlertSeverity, timeout_ms: u64 },
}

#[verifier::external_type_specification]
#[verifier::external_body]
pub struct ExPathBuf(std::path::PathBuf);

/// Alert delivery configuration.
#[derive(Debug)]
pub struct AlertManagerConfig {
    pub outputs: Vec<AlertOutput>,
    /// Minimum seconds between two sends of the same non-critical alert.
    pub rate_limit_secs: u64,
    /// Seconds of silence after which an alert resolves itself.
    pub auto_resolve_secs: u64,
    pub enable_aggregation: bool,
}

impl Default for AlertManagerConfig {
    /// Warnings and worse to the log; one send per minute per alert; resolve after five
    /// minutes; no aggregation.
    fn default() -> (c: Self)
        ensures
            c.outputs@.len() == 1,
            c.outputs@[0] matches AlertOutput::Console { min_severity } && min_severity == AlertSeverity::Warning,
            c.rate_limit_secs == 60,
            c.auto_resolve_secs == 300,
            !c.enable_aggregation,
    {
        AlertManagerConfig {
            outputs: vec![AlertOutput::Console { min_severity: AlertSeverity::Warning }],
            rate_limit_secs: 60,
            auto_resolve_secs: 300,
            enable_aggregation: false,
        }
    }
}


/// Severity from which an output takes alerts.
pub open spec fn output_min_severity(o: AlertOutput) -> AlertSeverity {
    match o {
        AlertOutput::Console { min_severity } => min_severity,
        AlertOutput::File { min_severity, .. } => min_severity,
        AlertOutput::Webhook { min_severity, .. } => min_severity,
    }
}

/// Identity of an alert as plain values: its category and name.
pub open spec fn alert_key(id: AlertId) -> (AlertCategory, Seq<char>) {
    (id.category, id.name@)
}

/// Tracking state of one active alert.
pub struct AlertState {
    pub id: AlertId,
    /// When the alert was first raised, in nanoseconds since the Unix epoch.
    pub first_seen_ns: u64,
    /// When it was last raised.
    pub last_seen_ns: u64,
    /// How many times it was raised and sent.
    pub count: u64,
    /// When it was last sent.
    pub last_sent_ns: Option<u64>,
}

/// Abstract tracking state of an active alert.
pub struct AlertStateModel {
    pub key: (AlertCategory, Seq<char>),
    pub first_seen_ns: u64,
    pub last_seen_ns: u64,
    pub count: u64,
    pub last_sent_ns: Option<u64>,
}

/// Model of an alert state.
pub open spec fn state_model(s: AlertState) -> AlertStateModel {
    AlertStateModel {
        key: alert_key(s.id),
        first_seen_ns: s.first_seen_ns,
        last_seen_ns: s.last_seen_ns,
        count: s.count,
        last_sent_ns: s.last_sent_ns,
    }
}

/// Abstract state of an [`AlertManager`].
pub struct AlertManagerModel {
    /// Severity threshold of each output, in order.
    pub thresholds: Seq<AlertSeverity>,
    pub rate_limit_secs: u64,
    pub auto_resolve_secs: u64,
    /// Active alerts, oldest first, each key at most once.
    pub active: Seq<AlertStateModel>,
    /// Alerts sent, by severity rank (info to critical).
    pub counts: Seq<u64>,
}

/// Whether no key occurs twice among the active alerts.
pub open spec fn active_keys_distinct(active: Seq<AlertStateModel>) -> bool {
    forall|i: int, j: int| 0 <= i < j < active.len() ==> active[i].key != active[j].key
}

/// Position of the active alert with key `key`, if any.
pub open spec fn active_index(active: Seq<AlertStateModel>, key: (AlertCategory, Seq<char>)) -> Option<int> {
    if exists|i: int| 0 <= i < active.len() && active[i].key == key {
        Some(choose|i: int| 0 <= i < active.len() && active[i].key == key)
    } else {
        None
    }
}

/// Whether an alert is sent at `now_ns`: critical alerts always are; others unless
/// the same alert was sent less than `rate_limit_secs` before (a send time later than
/// `now_ns` does not hold an alert back).
pub open spec fn spec_should_send(m: AlertManagerModel, severity: AlertSeverity, key: (AlertCategory, Seq<char>), now_ns: u64) -> bool {
    severity == AlertSeverity::Critical || match active_index(m.active, key) {
        None => true,
        Some(i) => match m.active[i].last_sent_ns {
            None => true,
            Some(t) => !(now_ns >= t && now_ns - t < m.rate_limit_secs * 1_000_000_000),
        },
    }
}

/// State after sending an alert at `now_ns`: the alert's state is refreshed (or created)
/// with one more occurrence, and the count of its severity grows by one.
pub open spec fn spec_record_send(m: AlertManagerModel, severity: AlertSeverity, key: (AlertCategory, Seq<char>), now_ns: u64) -> AlertManagerModel {
    let active = match active_index(m.active, key) {
        Some(i) => m.active.update(i, AlertStateModel {
            last_seen_ns: now_ns,
            count: m.active[i].count.wrapping_add(1),
            last_sent_ns: Some(now_ns),
            ..m.active[i]
        }),
        None => m.active.push(AlertStateModel {
            key,
            first_seen_ns: now_ns,
            last_seen_ns: now_ns,
            count: 1,
            last_sent_ns: Some(now_ns),
        }),
    };
    let r = severity_level(severity);
    AlertManagerModel { active, counts: m.counts.update(r, m.counts[r].wrapping_add(1)), ..m }
}

/// Outputs, among the first `n`, whose threshold a severity reaches, in order.
pub open spec fn spec_deliveries(thresholds: Seq<AlertSeverity>, severity: AlertSeverity, n: int) -> Seq<usize>
    decreases n,
{
    if n <= 0 {
        Seq::empty()
    } else {
        let prev = spec_deliveries(thresholds, severity, n - 1);
        if severity_level(severity) >= severity_level(thresholds[n - 1]) { prev.push((n - 1) as usize) } else { prev }
    }
}

/// Whether an active alert is kept at `now_ns`: it was raised no more than
/// `auto_resolve_secs` before (or its last time lies in the future).
pub open spec fn still_active(now_ns: u64, auto_resolve_secs: u64) -> spec_fn(AlertStateModel) -> bool {
    |s: AlertStateModel| !(now_ns >= s.last_seen_ns && now_ns - s.last_seen_ns > auto_resolve_secs * 1_000_000_000)
}

/// Central alert manager: decides which alerts are sent, to which outputs, and tracks
/// the active ones. Delivery itself is left to the caller.
pub struct AlertManager {
    config: AlertManagerConfig,
    active: Vec<AlertState>,
    counts: [u64; 4],
}

impl View for AlertManager {
    type V = AlertManagerModel;

    closed spec fn view(&self) -> AlertManagerModel {
        AlertManagerModel {
            thresholds: self.config.outputs@.map_values(|o: AlertOutput| output_min_severity(o)),
            rate_limit_secs: self.config.rate_limit_secs,
            auto_resolve_secs: self.config.auto_resolve_secs,
            active: self.active@.map_values(|s: AlertState| state_model(s)),
            counts: self.counts@,
        }
    }
}

impl AlertManager {
    #[verifier::type_invariant]
    spec fn keys_distinct(&self) -> bool {
        active_keys_distinct(self.active@.map_values(|s: AlertState| state_model(s)))
    }

    /// A manager with no active alert and no alert counted.
    pub fn new(config: AlertManagerConfig) -> (m: Self)
        ensures
            m@.thresholds == config.outputs@.map_values(|o: AlertOutput| output_min_severity(o)),
            m@.rate_limit_secs == config.rate_limit_secs,
            m@.auto_resolve_secs == config.auto_resolve_secs,
            m@.active.len() == 0,
            m@.counts == seq![0u64, 0u64, 0u64, 0u64],
    {
        let m = AlertManager { config, active: Vec::new(), counts: [0u64; 4] };
        assert(m@.active =~= Seq::<AlertStateModel>::empty());
        assert(m@.counts =~= seq![0u64, 0u64, 0u64, 0u64]);
        m
    }

    /// Position of the active alert with the given identity.
    fn find(&self, id: &AlertId) -> (r: Option<usize>)
        ensures
            r matches Some(i) ==> i < self@.active.len() && active_index(self@.active, alert_key(*id)) == Some(i as int),
            r is None ==> active_index(self@.active, alert_key(*id)) is None,
    {
        proof {
            use_type_invariant(self);
        }
        let ghost act = self@.active;
        let mut i: usize = 0;
        while i < self.active.len()
            invariant
                0 <= i <= self.active@.len(),
                act == self.active@.map_values(|s: AlertState| state_model(s)),
                active_keys_distinct(act),
                forall|j: int| 0 <= j < i ==> act[j].key != alert_key(*id),
            decreases self.active.len() - i,
        {
            if self.active[i].id == *id {
                assert(act[i as int].key == alert_key(*id));
                let ghost c = choose|k: int| 0 <= k < act.len() && act[k].key == alert_key(*id);
                proof {
                    if c != i as int {
                        if c < i as int {
                            assert(act[c].key != act[i as int].key);
                        } else {
                            assert(act[i as int].key != act[c].key);
                        }
                    }
                }
                return Some(i);
            }
            i = i + 1;
        }
        None
    }

    /// Whether an alert raised at `now_ns` would be sent (see [`spec_should_send`]).
    pub fn should_send_at(&self, alert: &Alert, now_ns: u64) -> (r: bool)
        ensures
            r == spec_should_send(self@, alert.severity, alert_key(alert.id), now_ns),
    {
        if matches!(alert.severity, AlertSeverity::Critical) {
            return true;
        }
        match self.find(&alert.id) {
            None => true,
            Some(i) => match self.active[i].last_sent_ns {
                None => true,
                Some(t) => !(now_ns >= t && ((now_ns - t) as u128) < (self.config.rate_limit_secs as u128) * 1_000_000_000),
            },
        }
    }

    /// Whether an alert raised now would be sent.
    pub fn should_send(&self, alert: &Alert) -> (r: bool)
        ensures
            exists|now_ns: u64| r == spec_should_send(self@, alert.severity, alert_key(alert.id), now_ns),
    {
        self.should_send_at(alert, unix_now_ns())
    }

    /// Decides on an alert raised at `now_ns` (nanoseconds since the Unix epoch): when it
    /// is sent, its state and count are updated and the outputs it goes to are returned,
    /// in order; when it is held back, nothing changes and no output is returned.
    pub fn send_at(&mut self, alert: &Alert, now_ns: u64) -> (r: Vec<usize>)
        ensures
            spec_should_send(old(self)@, alert.severity, alert_key(alert.id), now_ns) ==> {
                &&& final(self)@ == spec_record_send(old(self)@, alert.severity, alert_key(alert.id), now_ns)
                &&& r@ == spec_deliveries(old(self)@.thresholds, alert.severity, old(self)@.thresholds.len() as int)
            },
            !spec_should_send(old(self)@, alert.severity, alert_key(alert.id), now_ns) ==> {
                &&& final(self)@ == old(self)@
                &&& r@.len() == 0
            },
    {
        proof {
            use_type_invariant(&*self);
        }
        let ghost m0 = self@;
        if !self.should_send_at(alert, now_ns) {
            return Vec::new();
        }
        let found = self.find(&alert.id);
        let ghost key = alert_key(alert.id);
        let mut act: Vec<AlertState> = Vec::new();
        std::mem::swap(&mut act, &mut self.active);
        assert(act@.map_values(|s: AlertState| state_model(s)) == m0.active);
        match found {
            Some(i) => {
                let ghost before = act@;
                let mut st = act.remove(i);
                st.last_seen_ns = now_ns;
                st.count = st.count.wrapping_add(1);
                st.last_sent_ns = Some(now_ns);
                act.insert(i, st);
                assert(act@ =~= before.update(i as int, st));
                assert(act@.map_values(|s: AlertState| state_model(s)) =~= m0.active.update(i as int, state_model(st)));
                proof {
                    let a = m0.active.update(i as int, state_model(st));
                    assert forall|x: int, y: int| 0 <= x < y < a.len() implies a[x].key != a[y].key by {
                        assert(a[x].key == m0.active[x].key);
                        assert(a[y].key == m0.active[y].key);
                    }
                }
            },
            None => {
                let st = AlertState {
                    id: alert.id.clone(),
                    first_seen_ns: now_ns,
                    last_seen_ns: now_ns,
                    count: 1,
                    last_sent_ns: Some(now_ns),
                };
                act.push(st);
                assert(act@.map_values(|s: AlertState| state_model(s)) =~= m0.active.push(state_model(st)));
                assert(state_model(st).key == key);
                proof {
                    let a = m0.active.push(state_model(st));
                    assert forall|x: int, y: int| 0 <= x < y < a.len() implies a[x].key != a[y].key by {
                        if y == m0.active.len() {
                            assert(a[x] == m0.active[x]);
                            assert(!(0 <= x < m0.active.len() && m0.active[x].key == key));
                        } else {
                            assert(a[x] == m0.active[x] && a[y] == m0.active[y]);
                        }
                    }
                }
            },
        }
        self.active = act;
        let r = severity_rank(alert.severity);
        let mut counts = self.counts;
        counts[r] = counts[r].wrapping_add(1);
        self.counts = counts;
        assert(self@.counts =~= m0.counts.update(r as int, m0.counts[r as int].wrapping_add(1)));
        let mut out: Vec<usize> = Vec::new();
        let n = self.config.outputs.len();
        let mut k: usize = 0;
        while k < n
            invariant
                0 <= k <= n,
                n == self.config.outputs@.len(),
                self@.thresholds == m0.thresholds,
                out@ == spec_deliveries(m0.thresholds, alert.severity, k as int),
            decreases n - k,
        {
            let min = output_threshold(&self.config.outputs[k]);
            assert(min == m0.thresholds[k as int]);
            if alert.severity.level() >= min.level() {
                out.push(k);
            }
            k = k + 1;
        }
        out
    }

    /// Decides on an alert raised now (see [`AlertManager::send_at`]).
    pub fn send(&mut self, alert: &Alert) -> (r: Vec<usize>)
        ensures
            exists|now_ns: u64| {
                &&& spec_should_send(old(self)@, alert.severity, alert_key(alert.id), now_ns) ==> {
                    &&& final(self)@ == spec_record_send(old(self)@, alert.severity, alert_key(alert.id), now_ns)
                    &&& r@ == spec_deliveries(old(self)@.thresholds, alert.severity, old(self)@.thresholds.len() as int)
                }
                &&& !spec_should_send(old(self)@, alert.severity, alert_key(alert.id), now_ns) ==> {
                    &&& final(self)@ == old(self)@
                    &&& r@.len() == 0
                }
            },
    {
        let now_ns = unix_now_ns();
        self.send_at(alert, now_ns)
    }

    /// Marks an alert as no longer active.
    pub fn resolve(&mut self, alert_id: &AlertId)
        ensures
            match active_index(old(self)@.active, alert_key(*alert_id)) {
                Some(i) => final(self)@ == (AlertManagerModel { active: old(self)@.active.remove(i), ..old(self)@ }),
                None => final(self)@ == old(self)@,
            },
    {
        proof {
            use_type_invariant(&*self);
        }
        let ghost m0 = self@;
        match self.find(alert_id) {
            Some(i) => {
                let mut act: Vec<AlertState> = Vec::new();
                std::mem::swap(&mut act, &mut self.active);
                let _ = act.remove(i);
                assert(act@.map_values(|s: AlertState| state_model(s)) =~= m0.active.remove(i as int));
                proof {
                    let a = m0.active.remove(i as int);
                    assert forall|x: int, y: int| 0 <= x < y < a.len() implies a[x].key != a[y].key by {
                        let xo = if x < i { x } else { x + 1 };
                        let yo = if y < i { y } else { y + 1 };
                        assert(a[x] == m0.active[xo]);
                        assert(a[y] == m0.active[yo]);
                    }
                }
                self.active = act;
            },
            None => {},
        }
    }

    /// The configured outputs, in order.
    pub fn outputs(&self) -> (r: &Vec<AlertOutput>)
        ensures
            r@.map_values(|o: AlertOutput| output_min_severity(o)) == self@.thresholds,
    {
        &self.config.outputs
    }

    /// Number of active alerts.
    pub fn active_count(&self) -> (r: usize)
        ensures
            r == self@.active.len(),
    {
        self.active.len()
    }

    /// Alerts sent so far for each severity that was sent at least once, from info to
    /// critical.
    pub fn counts_by_severity(&self) -> (r: Vec<(AlertSeverity, u64)>)
        ensures
            forall|i: int| 0 <= i < r@.len() ==> r@[i].1 == self@.counts[severity_level(r@[i].0)] && r@[i].1 > 0,
            forall|s: AlertSeverity| self@.counts[severity_level(s)] > 0 ==> exists|i: int| 0 <= i < r@.len() && r@[i].0 == s,
    {
        let mut r: Vec<(AlertSeverity, u64)> = Vec::new();
        if self.counts[0] > 0 {
            r.push((AlertSeverity::Info, self.counts[0]));
        }
        if self.counts[1] > 0 {
            r.push((AlertSeverity::Warning, self.counts[1]));
        }
        if self.counts[2] > 0 {
            r.push((AlertSeverity::Error, self.counts[2]));
        }
        if self.counts[3] > 0 {
            r.push((AlertSeverity::Critical, self.counts[3]));
        }
        proof {
            assert forall|s: AlertSeverity| self@.counts[severity_level(s)] > 0 implies
                exists|i: int| 0 <= i < r@.len() && r@[i].0 == s by {
                let ghost w = choose|i: int| 0 <= i < r@.len() && r@[i].0 == s;
                match s {
                    AlertSeverity::Info => { assert(r@[0].0 == s); },
                    AlertSeverity::Warning => {
                        let j: int = if self.counts[0] > 0 { 1 } else { 0 };
                        assert(r@[j].0 == s);
                    },
                    AlertSeverity::Error => {
                        let j: int = (if self.counts[0] > 0 { 1int } else { 0int }) + (if self.counts[1] > 0 { 1int } else { 0int });
                        assert(r@[j].0 == s);
                    },
                    AlertSeverity::Critical => {
                        let j: int = (if self.counts[0] > 0 { 1int } else { 0int }) + (if self.counts[1] > 0 { 1int } else { 0int })
                            + (if self.counts[2] > 0 { 1int } else { 0int });
                        assert(r@[j].0 == s);
                    },
                }
            }
        }
        r
    }

    /// Drops the alerts raised last more than `auto_resolve_secs` before `now_ns`.
    pub fn cleanup_old_alerts_at(&mut self, now_ns: u64)
        ensures
            final(self)@ == (AlertManagerModel {
                active: old(self)@.active.filter(still_active(now_ns, old(self)@.auto_resolve_secs)),
                ..old(self)@
            }),
    {
        proof {
            use_type_invariant(&*self);
        }
        let ghost m0 = self@;
        let ghost pred = still_active(now_ns, m0.auto_resolve_secs);
        let limit: u128 = (self.config.auto_resolve_secs as u128) * 1_000_000_000;
        let mut old_active: Vec<AlertState> = Vec::new();
        std::mem::swap(&mut old_active, &mut self.active);
        let ghost src = old_active@.map_values(|s: AlertState| state_model(s));
        assert(src == m0.active);
        let mut kept: Vec<AlertState> = Vec::new();
        let mut rest = old_active;
        let ghost mut done: int = 0;
        assert(src.skip(0) =~= src);
        assert(kept@.map_values(|s: AlertState| state_model(s)) =~= src.take(0).filter(pred)) by {
            reveal(Seq::filter);
            assert(src.take(0) =~= Seq::<AlertStateModel>::empty());
        }
        while rest.len() > 0
            invariant
                0 <= done <= src.len(),
                rest@.map_values(|s: AlertState| state_model(s)) == src.skip(done),
                kept@.map_values(|s: AlertState| state_model(s)) == src.take(done).filter(pred),
                limit == m0.auto_resolve_secs * 1_000_000_000,
                pred == still_active(now_ns, m0.auto_resolve_secs),
            decreases rest.len(),
        {
            let ghost before = rest@;
            assert(before.map_values(|s: AlertState| state_model(s)).len() == before.len());
            assert(done < src.len());
            assert(before.map_values(|s: AlertState| state_model(s))[0] == state_model(before[0]));
            assert(src.skip(done)[0] == src[done]);
            let st = rest.remove(0);
            assert(state_model(st) == src[done]);
            assert(rest@ =~= before.subrange(1, before.len() as int));
            assert forall|k: int| 0 <= k < rest@.len() implies
                rest@.map_values(|s: AlertState| state_model(s))[k] == #[trigger] src.skip(done + 1)[k] by {
                assert(before.map_values(|s: AlertState| state_model(s))[k + 1] == state_model(before[k + 1]));
                assert(src.skip(done)[k + 1] == src[done + 1 + k]);
            }
            assert(rest@.map_values(|s: AlertState| state_model(s)) =~= src.skip(done + 1));
            assert(src.take(done + 1) =~= src.take(done).push(src[done]));
            proof {
                lemma_filter_push(src.take(done), src[done], pred);
            }
            let keep = !(now_ns >= st.last_seen_ns && ((now_ns - st.last_seen_ns) as u128) > limit);
            assert(keep == pred(state_model(st)));
            if keep {
                let ghost kb = kept@;
                kept.push(st);
                assert(kept@.map_values(|s: AlertState| state_model(s)) =~= kb.map_values(|s: AlertState| state_model(s)).push(state_model(st)));
            }
            proof {
                done = done + 1;
            }
        }
        assert(src.take(done) =~= src);
        proof {
            lemma_filter_keys_distinct(src, pred);
        }
        self.active = kept;
    }

    /// Drops the alerts raised last more than `auto_resolve_secs` ago (clock read now).
    pub fn cleanup_old_alerts(&mut self)
        ensures
            exists|now_ns: u64| final(self)@ == (AlertManagerModel {
                active: old(self)@.active.filter(#[trigger] still_active(now_ns, old(self)@.auto_resolve_secs)),
                ..old(self)@
            }),
    {
        let now_ns = unix_now_ns();
        self.cleanup_old_alerts_at(now_ns);
    }
}

/// Rank of a severity as an index, 0 for info up to 3 for critical.
fn severity_rank(s: AlertSeverity) -> (r: usize)
    ensures
        r == severity_level(s),
        r < 4,
{
    match s {
        AlertSeverity::Info => 0,
        AlertSeverity::Warning => 1,
        AlertSeverity::Error => 2,
        AlertSeverity::Critical => 3,
    }
}

/// Threshold of an output.
fn output_threshold(o: &AlertOutput) -> (r: AlertSeverity)
    ensures
        r == output_min_severity(*o),
{
    match o {
        AlertOutput::Console { min_severity } => *min_severity,
        AlertOutput::File { min_severity, .. } => *min_severity,
        AlertOutput::Webhook { min_severity, .. } => *min_severity,
    }
}

/// Filtering a sequence extended by one element.
proof fn lemma_filter_push(s: Seq<AlertStateModel>, x: AlertStateModel, pred: spec_fn(AlertStateModel) -> bool)
    ensures
        s.push(x).filter(pred) == (if pred(x) { s.filter(pred).push(x) } else { s.filter(pred) }),
{
    reveal(Seq::filter);
    assert(s.push(x).drop_last() =~= s);
}

/// Keys stay distinct through a filter.
proof fn lemma_filter_keys_distinct(s: Seq<AlertStateModel>, pred: spec_fn(AlertStateModel) -> bool)
    requires
        active_keys_distinct(s),
    ensures
        active_keys_distinct(s.filter(pred)),
    decreases s.len(),
{
    reveal(Seq::filter);
    if s.len() > 0 {
        let p = s.drop_last();
        let last = s.last();
        assert(active_keys_distinct(p));
        lemma_filter_keys_distinct(p, pred);
        let fp = p.filter(pred);
        assert(s =~= p.push(last));
        lemma_filter_push(p, last, pred);
        if pred(last) {
            assert forall|i: int| 0 <= i < fp.len() implies fp[i].key != last.key by {
                assert(fp.contains(fp[i]));
                p.lemma_filter_contains_rev(pred, fp[i]);
                let j = choose|j: int| 0 <= j < p.len() && p[j] == fp[i];
                assert(s[j] == p[j]);
                assert(s[j].key != s[s.len() - 1].key);
            }
            let a = fp.push(last);
            assert forall|x: int, y: int| 0 <= x < y < a.len() implies a[x].key != a[y].key by {
                if y == fp.len() {
                    assert(a[x] == fp[x]);
                } else {
                    assert(a[x] == fp[x] && a[y] == fp[y]);
                }
            }
        }
    }
}

/// With distinct keys, the position of a key is the one index holding it.
proof fn lemma_active_index_unique(active: Seq<AlertStateModel>, key: (AlertCategory, Seq<char>), i: int)
    requires
        active_keys_distinct(active),
        0 <= i < active.len(),
        active[i].key == key,
    ensures
        active_index(active, key) == Some(i),
{
    let c = choose|k: int| 0 <= k < active.len() && active[k].key == key;
    if c != i {
        if c < i {
            assert(active[c].key != active[i].key);
        } else {
            assert(active[i].key != active[c].key);
        }
    }
}

/// A critical alert is never held back: it is sent whatever was sent before and whenever.
pub proof fn lemma_critical_always_sent(m: AlertManagerModel, key: (AlertCategory, Seq<char>), now_ns: u64)
    ensures
        spec_should_send(m, AlertSeverity::Critical, key, now_ns),
{
}

/// Once a non-critical alert has been sent, the same alert raised again less than
/// `rate_limit_secs` later is held back.
pub proof fn lemma_repeat_within_window_held_back(
    m: AlertManagerModel,
    severity: AlertSeverity,
    key: (AlertCategory, Seq<char>),
    t: u64,
    later: u64,
)
    requires
        active_keys_distinct(m.active),
        m.counts.len() == 4,
        spec_should_send(m, severity, key, t),
        severity != AlertSeverity::Critical,
        t <= later,
        later - t < m.rate_limit_secs * 1_000_000_000,
    ensures
        !spec_should_send(spec_record_send(m, severity, key, t), severity, key, later),
{
    let m2 = spec_record_send(m, severity, key, t);
    match active_index(m.active, key) {
        Some(i) => {
            assert(0 <= i < m.active.len() && m.active[i].key == key);
            assert forall|x: int, y: int| 0 <= x < y < m2.active.len() implies m2.active[x].key != m2.active[y].key by {
                assert(m2.active[x].key == m.active[x].key);
                assert(m2.active[y].key == m.active[y].key);
            }
            lemma_active_index_unique(m2.active, key, i);
        },
        None => {
            let n = m.active.len() as int;
            assert(m2.active[n].key == key);
            assert forall|x: int, y: int| 0 <= x < y < m2.active.len() implies m2.active[x].key != m2.active[y].key by {
                if y == n {
                    assert(m2.active[x] == m.active[x]);
                    assert(!(0 <= x < m.active.len() && m.active[x].key == key));
                } else {
                    assert(m2.active[x] == m.active[x] && m2.active[y] == m.active[y]);
                }
            }
            lemma_active_index_unique(m2.active, key, n);
        },
    }
}

} // verus!
