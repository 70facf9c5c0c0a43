//! Performance counters laid out one per cache line, and a cache-line-aligned wrapper.
//!
//! Alignment comes from a zero-length array of a 64-byte-aligned vector type: it makes
//! a struct start on a cache line without adding to its size.
use vstd::prelude::*;

verus! {

/// A counter alone on its 64-byte cache line.
pub struct PaddedCounter {
    value: u64,
    _padding: [u8; 56],
}

impl View for PaddedCounter {
    type V = u64;

    closed spec fn view(&self) -> u64 {
        self.value
    }
}

impl PaddedCounter {
    /// A counter at `value`.
    pub fn new(value: u64) -> (c: Self)
        ensures
            c@ == value,
    {
        PaddedCounter { value, _padding: [0u8; 56] }
    }

    /// The counter's value.
    pub fn get(&self) -> (r: u64)
        ensures
            r == self@,
    {
        self.value
    }

    /// Adds `n`, wrapping.
    pub fn add_wrapping(&mut self, n: u64)
        ensures
            final(self)@ == old(self)@.wrapping_add(n),
    {
        self.value = self.value.wrapping_add(n);
    }

    /// Sets the value.
    pub fn set(&mut self, value: u64)
        ensures
            final(self)@ == value,
    {
        self.value = value;
    }
}

/// Hot-path counters, each on its own cache line.
pub struct Metrics {
    pub updates_received: PaddedCounter,
    pub signals_generated: PaddedCounter,
    pub orders_placed: PaddedCounter,
    pub fills_received: PaddedCounter,
    pub total_latency_ns: PaddedCounter,
    _align: [core::arch::x86_64::__m512i; 0],
}

/// Values of the counters at one moment.
#[derive(Clone, Copy, PartialEq, Eq, Structural, Debug)]
pub struct MetricsSnapshot {
    pub updates_received: u64,
    pub signals_generated: u64,
    pub orders_placed: u64,
    pub fills_received: u64,
    pub total_latency_ns: u64,
}

impl View for Metrics {
    type V = MetricsSnapshot;

    closed spec fn view(&self) -> MetricsSnapshot {
        MetricsSnapshot {
            updates_received: self.updates_received@,
            signals_generated: self.signals_generated@,
            orders_placed: self.orders_placed@,
            fills_received: self.fills_received@,
            total_latency_ns: self.total_latency_ns@,
        }
    }
}

/// All counters at zero.
pub open spec fn zero_snapshot() -> MetricsSnapshot {
    MetricsSnapshot { updates_received: 0, signals_generated: 0, orders_placed: 0, fills_received: 0, total_latency_ns: 0 }
}

impl Metrics {
    /// All counters at zero.
    pub fn new() -> (m: Self)
        ensures
            m@ == zero_snapshot(),
    {
        Metrics {
            updates_received: PaddedCounter::new(0),
            signals_generated: PaddedCounter::new(0),
            orders_placed: PaddedCounter::new(0),
            fills_received: PaddedCounter::new(0),
            total_latency_ns: PaddedCounter::new(0),
            _align: [],
        }
    }

    /// Counts a market-data update (wrapping).
    pub fn inc_updates(&mut self)
        ensures
            final(self)@ == (MetricsSnapshot { updates_received: old(self)@.updates_received.wrapping_add(1), ..old(self)@ }),
    {
        self.updates_received.add_wrapping(1);
    }

    /// Counts a signal (wrapping).
    pub fn inc_signals(&mut self)
        ensures
            final(self)@ == (MetricsSnapshot { signals_generated: old(self)@.signals_generated.wrapping_add(1), ..old(self)@ }),
    {
        self.signals_generated.add_wrapping(1);
    }

    /// Counts an order (wrapping).
    pub fn inc_orders(&mut self)
        ensures
            final(self)@ == (MetricsSnapshot { orders_placed: old(self)@.orders_placed.wrapping_add(1), ..old(self)@ }),
    {
        self.orders_placed.add_wrapping(1);
    }

    /// Counts a fill (wrapping).
    pub fn inc_fills(&mut self)
        ensures
            final(self)@ == (MetricsSnapshot { fills_received: old(self)@.fills_received.wrapping_add(1), ..old(self)@ }),
    {
        self.fills_received.add_wrapping(1);
    }

    /// Adds to the total latency (wrapping).
    pub fn add_latency(&mut self, latency_ns: u64)
        ensures
            final(self)@ == (MetricsSnapshot { total_latency_ns: old(self)@.total_latency_ns.wrapping_add(latency_ns), ..old(self)@ }),
    {
        self.total_latency_ns.add_wrapping(latency_ns);
    }

    /// The current values.
    pub fn snapshot(&self) -> (s: MetricsSnapshot)
        ensures
            s == self@,
    {
        MetricsSnapshot {
            updates_received: self.updates_received.get(),
            signals_generated: self.signals_generated.get(),
            orders_placed: self.orders_placed.get(),
            fills_received: self.fills_received.get(),
            total_latency_ns: self.total_latency_ns.get(),
        }
    }

    /// Sets every counter back to zero.
    pub fn reset(&mut self)
        ensures
            final(self)@ == zero_snapshot(),
    {
        self.updates_received.set(0);
        self.signals_generated.set(0);
        self.orders_placed.set(0);
        self.fills_received.set(0);
        self.total_latency_ns.set(0);
    }
}

impl Default for Metrics {
    fn default() -> (m: Self)
        ensures
            m@ == zero_snapshot(),
    {
        Metrics::new()
    }
}

/// A value aligned on a 64-byte cache line.
pub struct CacheAligned<T> {
    inner: T,
    _align: [core::arch::x86_64::__m512i; 0],
}

impl<T> View for CacheAligned<T> {
    type V = T;

    closed spec fn view(&self) -> T {
        self.inner
    }
}

impl<T> CacheAligned<T> {
    /// Wraps a value.
    pub fn new(inner: T) -> (a: Self)
        ensures
            a@ == inner,
    {
        CacheAligned { inner, _align: [] }
    }

    /// The wrapped value.
    pub fn get(&self) -> (r: &T)
        ensures
            *r == self@,
    {
        &self.inner
    }

    /// The wrapped value, mutably.
    pub fn get_mut(&mut self) -> (r: &mut T)
        ensures
            *r == old(self)@,
            final(self)@ == *final(r),
    {
        &mut self.inner
    }

    /// Unwraps the value.
    pub fn into_inner(self) -> (r: T)
        ensures
            r == self@,
    {
        self.inner
    }
}

} // verus!
