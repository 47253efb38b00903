//! Central telemetry store: the bounded history of sensor readings, the
//! total-ingested counter, the connected-client registry, and the
//! statistics engine.
//!
//! The store itself is a plain value; callers that share it across tasks
//! wrap it in their own synchronization, taking exclusive access for one
//! append and shared access for one query.

use vstd::prelude::*;

use std::collections::VecDeque;

use crate::models::SensorReading;
use crate::sys;

verus! {

/// Maximum number of readings kept in memory by default (one hour at one
/// reading per second).
pub const MAX_READINGS: usize = 3600;

/// One append step of the bounded history: when the history is at
/// capacity, the oldest reading is evicted before the new one is appended.
pub open spec fn spec_record(
    h: Seq<SensorReading>,
    capacity: usize,
    r: SensorReading,
) -> Seq<SensorReading> {
    if h.len() >= capacity {
        h.subrange(1, h.len() as int).push(r)
    } else {
        h.push(r)
    }
}

/// The history an initially empty store holds after recording `inputs` in
/// order, with the given capacity.
pub open spec fn spec_history_after(
    capacity: usize,
    inputs: Seq<SensorReading>,
) -> Seq<SensorReading>
    decreases inputs.len(),
{
    if inputs.len() == 0 {
        Seq::empty()
    } else {
        spec_record(spec_history_after(capacity, inputs.drop_last()), capacity, inputs.last())
    }
}

/// The total-ingested counter an initially empty store holds after
/// recording `inputs` in order: incremented once per step, whether or not
/// the step evicted.
pub open spec fn spec_total_after(inputs: Seq<SensorReading>) -> int
    decreases inputs.len(),
{
    if inputs.len() == 0 {
        0
    } else {
        spec_total_after(inputs.drop_last()) + 1
    }
}

/// The readings of `s`, dereferenced.
pub open spec fn spec_derefs(s: Seq<&SensorReading>) -> Seq<SensorReading> {
    s.map_values(|p: &SensorReading| *p)
}

/// The most recent reading of a history, if any.
pub open spec fn spec_latest(h: Seq<SensorReading>) -> Option<SensorReading> {
    if h.len() == 0 {
        None
    } else {
        Some(h.last())
    }
}

/// The `count` most recent readings of a history, most recent first
/// (fewer when the history is smaller).
pub open spec fn spec_recent(h: Seq<SensorReading>, count: int) -> Seq<SensorReading> {
    Seq::new(
        (if count <= h.len() { count } else { h.len() as int }) as nat,
        |i: int| h[h.len() - 1 - i],
    )
}

/// The readings with a capture time of at least `cutoff`, in stored order.
pub open spec fn spec_since(h: Seq<SensorReading>, cutoff: i64) -> Seq<SensorReading> {
    h.filter(|x: SensorReading| x.timestamp >= cutoff)
}

/// The readings with a capture time within `start..=end`, in stored order.
pub open spec fn spec_in_range(h: Seq<SensorReading>, start: i64, end: i64) -> Seq<SensorReading> {
    h.filter(|x: SensorReading| start <= x.timestamp && x.timestamp <= end)
}

/// Sum of the temperature channel over a history, in tenths.
pub open spec fn spec_sum_temperature(s: Seq<SensorReading>) -> int
    decreases s.len(),
{
    if s.len() == 0 {
        0
    } else {
        spec_sum_temperature(s.drop_last()) + s.last().temperature
    }
}

/// Sum of the humidity channel over a history, in tenths.
pub open spec fn spec_sum_humidity(s: Seq<SensorReading>) -> int
    decreases s.len(),
{
    if s.len() == 0 {
        0
    } else {
        spec_sum_humidity(s.drop_last()) + s.last().humidity
    }
}

/// Sum of the sound channel over a history, in tenths.
pub open spec fn spec_sum_sound(s: Seq<SensorReading>) -> int
    decreases s.len(),
{
    if s.len() == 0 {
        0
    } else {
        spec_sum_sound(s.drop_last()) + s.last().sound
    }
}

/// Sum of the heart-rate channel over a history, in tenths.
pub open spec fn spec_sum_heart_rate(s: Seq<SensorReading>) -> int
    decreases s.len(),
{
    if s.len() == 0 {
        0
    } else {
        spec_sum_heart_rate(s.drop_last()) + s.last().heart_rate
    }
}

/// Minimum of the temperature channel (zero on an empty history).
pub open spec fn spec_min_temperature(s: Seq<SensorReading>) -> int
    decreases s.len(),
{
    if s.len() == 0 {
        0
    } else if s.len() == 1 {
        s[0].temperature as int
    } else {
        let m = spec_min_temperature(s.drop_last());
        if s.last().temperature < m {
            s.last().temperature as int
        } else {
            m
        }
    }
}

/// Maximum of the temperature channel (zero on an empty history).
pub open spec fn spec_max_temperature(s: Seq<SensorReading>) -> int
    decreases s.len(),
{
    if s.len() == 0 {
        0
    } else if s.len() == 1 {
        s[0].temperature as int
    } else {
        let m = spec_max_temperature(s.drop_last());
        if s.last().temperature > m {
            s.last().temperature as int
        } else {
            m
        }
    }
}

/// Minimum of the heart-rate channel (zero on an empty history).
pub open spec fn spec_min_heart_rate(s: Seq<SensorReading>) -> int
    decreases s.len(),
{
    if s.len() == 0 {
        0
    } else if s.len() == 1 {
        s[0].heart_rate as int
    } else {
        let m = spec_min_heart_rate(s.drop_last());
        if s.last().heart_rate < m {
            s.last().heart_rate as int
        } else {
            m
        }
    }
}

/// Maximum of the heart-rate channel (zero on an empty history).
pub open spec fn spec_max_heart_rate(s: Seq<SensorReading>) -> int
    decreases s.len(),
{
    if s.len() == 0 {
        0
    } else if s.len() == 1 {
        s[0].heart_rate as int
    } else {
        let m = spec_max_heart_rate(s.drop_last());
        if s.last().heart_rate > m {
            s.last().heart_rate as int
        } else {
            m
        }
    }
}

/// Division rounding toward zero, for a positive divisor.
pub open spec fn spec_div_toward_zero(a: int, b: int) -> int
    recommends
        b > 0,
{
    if a >= 0 {
        a / b
    } else {
        -((-a) / b)
    }
}

/// The statistics snapshot of a history: count, per-channel arithmetic
/// means rounded toward zero, and the temperature and heart-rate extrema.
/// Aggregate fields are in thousandths of the physical unit; an empty
/// history gives the all-zero snapshot.
pub open spec fn spec_statistics(h: Seq<SensorReading>) -> ReadingStatistics {
    if h.len() == 0 {
        ReadingStatistics {
            count: 0,
            avg_temperature: 0,
            avg_humidity: 0,
            avg_sound: 0,
            avg_heart_rate: 0,
            min_temperature: 0,
            max_temperature: 0,
            min_heart_rate: 0,
            max_heart_rate: 0,
        }
    } else {
        ReadingStatistics {
            count: h.len() as usize,
            avg_temperature: spec_div_toward_zero(
                100 * spec_sum_temperature(h),
                h.len() as int,
            ) as i64,
            avg_humidity: spec_div_toward_zero(100 * spec_sum_humidity(h), h.len() as int) as i64,
            avg_sound: spec_div_toward_zero(100 * spec_sum_sound(h), h.len() as int) as i64,
            avg_heart_rate: spec_div_toward_zero(
                100 * spec_sum_heart_rate(h),
                h.len() as int,
            ) as i64,
            min_temperature: (100 * spec_min_temperature(h)) as i64,
            max_temperature: (100 * spec_max_temperature(h)) as i64,
            min_heart_rate: (100 * spec_min_heart_rate(h)) as i64,
            max_heart_rate: (100 * spec_max_heart_rate(h)) as i64,
        }
    }
}

/// Statistical summary of readings. The count is the number of readings
/// summarized; every other field is in thousandths of the physical unit
/// (a mean temperature of 25.0 degrees is 25000).
#[derive(Debug, Clone, PartialEq, Eq, Structural)]
pub struct ReadingStatistics {
    pub count: usize,
    pub avg_temperature: i64,
    pub avg_humidity: i64,
    pub avg_sound: i64,
    pub avg_heart_rate: i64,
    pub min_temperature: i64,
    pub max_temperature: i64,
    pub min_heart_rate: i64,
    pub max_heart_rate: i64,
}

impl ReadingStatistics {
    /// The all-zero snapshot reported for an empty history.
    pub fn empty() -> (r: ReadingStatistics)
        ensures
            r == spec_statistics(Seq::<SensorReading>::empty()),
            r.count == 0,
    {
        ReadingStatistics {
            count: 0,
            avg_temperature: 0,
            avg_humidity: 0,
            avg_sound: 0,
            avg_heart_rate: 0,
            min_temperature: 0,
            max_temperature: 0,
            min_heart_rate: 0,
            max_heart_rate: 0,
        }
    }
}

/// Divide `a` by the positive divisor `b`, rounding toward zero. The
/// magnitude bound on `a` keeps the quotient within the range of the
/// statistics fields.
fn div_toward_zero(a: i128, b: i128) -> (r: i64)
    requires
        0 < b <= u64::MAX as i128,
        -1_023_000 * b <= a <= 1_023_000 * b,
    ensures
        r == spec_div_toward_zero(a as int, b as int),
        -1_023_000 <= r <= 1_023_000,
{
    proof {
        vstd::arithmetic::div_mod::lemma_div_is_ordered(a as int, 1_023_000 * b, b as int);
        vstd::arithmetic::div_mod::lemma_div_is_ordered(-a as int, 1_023_000 * b, b as int);
        vstd::arithmetic::div_mod::lemma_div_by_multiple(1_023_000, b as int);
    }
    if a >= 0 {
        let q = (a as u128) / (b as u128);
        q as i64
    } else {
        let q = ((-a) as u128) / (b as u128);
        -(q as i64)
    }
}

/// Central application state.
#[derive(Debug)]
pub struct AppState {
    /// Bounded buffer of sensor readings, oldest first.
    readings: VecDeque<SensorReading>,
    /// Bound on the number of retained readings.
    capacity: usize,
    /// Store creation time, in milliseconds since the Unix epoch.
    start_time: i64,
    /// Total readings processed, never decreased or reset.
    total_readings: u64,
    /// Connected streaming client identifiers, without duplicates.
    connected_clients: Vec<String>,
}

impl AppState {
    /// The retained history, oldest reading first.
    pub closed spec fn history(&self) -> Seq<SensorReading> {
        self.readings@
    }

    /// The registered client identifiers, in registration order.
    pub closed spec fn clients(&self) -> Seq<Seq<char>> {
        self.connected_clients@.map_values(|c: String| c@)
    }

    /// The history bound.
    pub closed spec fn spec_capacity(&self) -> usize {
        self.capacity
    }

    /// The total-ingested counter.
    pub closed spec fn spec_total(&self) -> u64 {
        self.total_readings
    }

    /// The store creation time.
    pub closed spec fn spec_start_time(&self) -> i64 {
        self.start_time
    }

    /// `id` is a registered client.
    pub open spec fn spec_has_client(&self, id: Seq<char>) -> bool {
        exists|k: int| 0 <= k < self.clients().len() && self.clients()[k] == id
    }

    /// Store invariant: the history respects its bound and holds only
    /// well-formed readings, and client identifiers are unique.
    pub open spec fn wf(&self) -> bool {
        &&& 1 <= self.spec_capacity()
        &&& self.history().len() <= self.spec_capacity()
        &&& forall|i: int|
            0 <= i < self.history().len() ==> (#[trigger] self.history()[i]).wf()
        &&& forall|i: int, j: int|
            0 <= i < j < self.clients().len() ==> self.clients()[i] != self.clients()[j]
    }

    /// Create a new store with the default capacity, stamped with the
    /// current time.
    pub fn new() -> (r: AppState)
        ensures
            r.wf(),
            r.history().len() == 0,
            r.spec_capacity() == MAX_READINGS,
            r.spec_total() == 0,
            r.clients().len() == 0,
    {
        AppState::with_capacity(MAX_READINGS)
    }

    /// Create a new store retaining at most `capacity` readings.
    pub fn with_capacity(capacity: usize) -> (r: AppState)
        requires
            capacity >= 1,
        ensures
            r.wf(),
            r.history().len() == 0,
            r.spec_capacity() == capacity,
            r.spec_total() == 0,
            r.clients().len() == 0,
    {
        let r = AppState {
            readings: VecDeque::new(),
            capacity,
            start_time: sys::now_millis(),
            total_readings: 0,
            connected_clients: Vec::new(),
        };
        proof {
            assert(r.clients() =~= Seq::<Seq<char>>::empty());
        }
        r
    }

    /// Append one well-formed reading, evicting the oldest reading first
    /// when the history is at capacity, and count it in the total.
    pub fn add_reading(&mut self, reading: SensorReading)
        requires
            old(self).wf(),
            reading.wf(),
            old(self).spec_total() < u64::MAX,
        ensures
            final(self).wf(),
            final(self).history() == spec_record(
                old(self).history(),
                old(self).spec_capacity(),
                reading,
            ),
            final(self).spec_total() == old(self).spec_total() + 1,
            final(self).spec_capacity() == old(self).spec_capacity(),
            final(self).spec_start_time() == old(self).spec_start_time(),
            final(self).clients() == old(self).clients(),
    {
        self.total_readings = self.total_readings + 1;
        if self.readings.len() >= self.capacity {
            self.readings.pop_front();
        }
        self.readings.push_back(reading);
        proof {
            assert(final(self).clients() =~= old(self).clients());
            if old(self).history().len() >= old(self).spec_capacity() {
                assert(final(self).history() =~= old(self).history().subrange(
                    1,
                    old(self).history().len() as int,
                ).push(reading));
            }
        }
    }

    /// The most recently recorded reading, or `None` if the history is
    /// empty.
    pub fn get_latest(&self) -> (r: Option<&SensorReading>)
        ensures
            match r {
                Some(x) => self.history().len() > 0 && *x == self.history().last(),
                None => self.history().len() == 0,
            },
            r is Some <==> spec_latest(self.history()) is Some,
            r matches Some(x) ==> spec_latest(self.history()) == Some(*x),
    {
        let n = self.readings.len();
        if n == 0 {
            None
        } else {
            Some(&self.readings[n - 1])
        }
    }

    /// The last `count` readings, most recent first.
    pub fn get_recent(&self, count: usize) -> (r: Vec<&SensorReading>)
        ensures
            spec_derefs(r@) == spec_recent(self.history(), count as int),
            r@.len() == if count <= self.history().len() {
                count as int
            } else {
                self.history().len() as int
            },
    {
        let n = self.readings.len();
        let k = if count <= n {
            count
        } else {
            n
        };
        let mut out: Vec<&SensorReading> = Vec::new();
        let mut i: usize = 0;
        while i < k
            invariant
                k <= n,
                n == self.history().len(),
                i <= k,
                out@.len() == i,
                forall|j: int| 0 <= j < i ==> *(#[trigger] out@[j]) == self.history()[n - 1 - j],
            decreases k - i,
        {
            out.push(&self.readings[n - 1 - i]);
            i = i + 1;
        }
        proof {
            assert(spec_derefs(out@) =~= spec_recent(self.history(), count as int));
        }
        out
    }

    /// All readings with a capture time within `start..=end`, in stored
    /// (chronological) order.
    pub fn get_range(&self, start: i64, end: i64) -> (r: Vec<&SensorReading>)
        ensures
            spec_derefs(r@) == spec_in_range(self.history(), start, end),
    {
        let n = self.readings.len();
        let mut out: Vec<&SensorReading> = Vec::new();
        let mut i: usize = 0;
        proof {
            assert(self.history().subrange(0, 0) =~= Seq::<SensorReading>::empty());
            assert(spec_derefs(out@) =~= spec_in_range(
                self.history().subrange(0, 0),
                start,
                end,
            ));
        }
        while i < n
            invariant
                n == self.history().len(),
                i <= n,
                spec_derefs(out@) == spec_in_range(self.history().subrange(0, i as int), start, end),
            decreases n - i,
        {
            let ghost prefix = self.history().subrange(0, i as int);
            let x = &self.readings[i];
            if start <= x.timestamp && x.timestamp <= end {
                out.push(x);
            }
            i = i + 1;
            proof {
                lemma_in_range_push(prefix, self.history()[i - 1], start, end);
                assert(self.history().subrange(0, i as int) =~= prefix.push(
                    self.history()[i - 1],
                ));
                if start <= self.history()[i - 1].timestamp && self.history()[i
                    - 1].timestamp <= end {
                    assert(spec_derefs(out@) =~= spec_in_range(prefix, start, end).push(
                        self.history()[i - 1],
                    ));
                }
            }
        }
        proof {
            assert(self.history().subrange(0, n as int) =~= self.history());
        }
        out
    }

    /// All readings with a capture time of at least `cutoff`, in stored
    /// (chronological) order.
    pub fn readings_since(&self, cutoff: i64) -> (r: Vec<&SensorReading>)
        ensures
            spec_derefs(r@) == spec_since(self.history(), cutoff),
    {
        let n = self.readings.len();
        let mut out: Vec<&SensorReading> = Vec::new();
        let mut i: usize = 0;
        proof {
            assert(self.history().subrange(0, 0) =~= Seq::<SensorReading>::empty());
            assert(spec_derefs(out@) =~= spec_since(self.history().subrange(0, 0), cutoff));
        }
        while i < n
            invariant
                n == self.history().len(),
                i <= n,
                spec_derefs(out@) == spec_since(self.history().subrange(0, i as int), cutoff),
            decreases n - i,
        {
            let ghost prefix = self.history().subrange(0, i as int);
            let x = &self.readings[i];
            if x.timestamp >= cutoff {
                out.push(x);
            }
            i = i + 1;
            proof {
                lemma_since_push(prefix, self.history()[i - 1], cutoff);
                assert(self.history().subrange(0, i as int) =~= prefix.push(
                    self.history()[i - 1],
                ));
                if self.history()[i - 1].timestamp >= cutoff {
                    assert(spec_derefs(out@) =~= spec_since(prefix, cutoff).push(
                        self.history()[i - 1],
                    ));
                }
            }
        }
        proof {
            assert(self.history().subrange(0, n as int) =~= self.history());
        }
        out
    }

    /// All readings captured within the last `minutes` minutes of the
    /// given clock reading, in stored (chronological) order: exactly the
    /// readings whose capture time is at least `now - minutes * 60000`
    /// (saturated to the timestamp range).
    pub fn since_minutes_at(&self, now: i64, minutes: i64) -> (r: Vec<&SensorReading>)
        ensures
            spec_derefs(r@) == spec_since(
                self.history(),
                spec_cutoff(now as int, minutes as int) as i64,
            ),
    {
        let wide: i128 = now as i128 - (minutes as i128) * 60_000;
        let cutoff: i64 = if wide > i64::MAX as i128 {
            i64::MAX
        } else if wide < i64::MIN as i128 {
            i64::MIN
        } else {
            wide as i64
        };
        proof {
            assert(cutoff == spec_cutoff(now as int, minutes as int));
        }
        self.readings_since(cutoff)
    }

    /// All readings captured within the last `minutes` minutes, in stored
    /// (chronological) order. The cutoff is `minutes` minutes before the
    /// current wall clock, so the result is `since_minutes_at` of some
    /// clock reading.
    pub fn get_last_minutes(&self, minutes: i64) -> (r: Vec<&SensorReading>)
        ensures
            exists|now: i64|
                spec_derefs(r@) == spec_since(
                    self.history(),
                    #[trigger] spec_cutoff(now as int, minutes as int) as i64,
                ),
    {
        let now = sys::now_millis();
        let r = self.since_minutes_at(now, minutes);
        proof {
            assert(spec_derefs(r@) == spec_since(
                self.history(),
                spec_cutoff(now as int, minutes as int) as i64,
            ));
        }
        r
    }

    /// All readings, oldest first (for export/analysis).
    pub fn get_all(&self) -> (r: Vec<&SensorReading>)
        ensures
            spec_derefs(r@) == self.history(),
            r@.len() == self.history().len(),
    {
        let n = self.readings.len();
        let mut out: Vec<&SensorReading> = Vec::new();
        let mut i: usize = 0;
        while i < n
            invariant
                n == self.history().len(),
                i <= n,
                out@.len() == i,
                forall|j: int| 0 <= j < i ==> *(#[trigger] out@[j]) == self.history()[j],
            decreases n - i,
        {
            out.push(&self.readings[i]);
            i = i + 1;
        }
        proof {
            assert(spec_derefs(out@) =~= self.history());
        }
        out
    }

    /// Seconds from the store's creation to the given clock reading,
    /// zero when the clock reads earlier than the creation time.
    pub fn uptime_at(&self, now: i64) -> (r: u64)
        ensures
            r == spec_uptime(self.spec_start_time(), now),
    {
        if now <= self.start_time {
            0u64
        } else {
            ((now as i128 - self.start_time as i128) / 1000) as u64
        }
    }

    /// Seconds elapsed since the store was created: `uptime_at` of the
    /// current wall clock.
    pub fn uptime_seconds(&self) -> (r: u64)
        ensures
            exists|now: i64| r == spec_uptime(self.spec_start_time(), now),
    {
        let now = sys::now_millis();
        let r = self.uptime_at(now);
        proof {
            assert(r == spec_uptime(self.spec_start_time(), now));
        }
        r
    }

    /// Total readings processed.
    pub fn total_readings(&self) -> (r: u64)
        ensures
            r == self.spec_total(),
    {
        self.total_readings
    }

    /// The capture time of the latest reading, if any.
    pub fn last_reading_time(&self) -> (r: Option<i64>)
        ensures
            match spec_latest(self.history()) {
                Some(x) => r == Some(x.timestamp),
                None => r is None,
            },
    {
        let n = self.readings.len();
        if n == 0 {
            None
        } else {
            Some(self.readings[n - 1].timestamp)
        }
    }

    /// Register a streaming client; registering an already-registered
    /// identifier changes nothing.
    pub fn add_client(&mut self, client_id: String)
        requires
            old(self).wf(),
        ensures
            final(self).wf(),
            old(self).spec_has_client(client_id@) ==> final(self).clients() == old(
                self,
            ).clients(),
            !old(self).spec_has_client(client_id@) ==> final(self).clients() == old(
                self,
            ).clients().push(client_id@),
            final(self).history() == old(self).history(),
            final(self).spec_total() == old(self).spec_total(),
            final(self).spec_capacity() == old(self).spec_capacity(),
            final(self).spec_start_time() == old(self).spec_start_time(),
    {
        let n = self.connected_clients.len();
        let mut i: usize = 0;
        while i < n
            invariant
                *self == *old(self),
                self.wf(),
                n == self.clients().len(),
                i <= n,
                forall|j: int| 0 <= j < i ==> self.clients()[j] != client_id@,
            decreases n - i,
        {
            if sys::str_eq(self.connected_clients[i].as_str(), client_id.as_str()) {
                proof {
                    assert(self.clients()[i as int] == client_id@);
                }
                return ;
            }
            i = i + 1;
        }
        let ghost pre = *self;
        self.connected_clients.push(client_id);
        proof {
            assert(self.clients() =~= pre.clients().push(client_id@));
            assert forall|a: int, b: int|
                0 <= a < b < self.clients().len() implies self.clients()[a]
                != self.clients()[b] by {
                if b < pre.clients().len() {
                    assert(pre.clients()[a] != pre.clients()[b]);
                }
            }
        }
    }

    /// Remove a streaming client; removing an unregistered identifier is a
    /// no-op.
    pub fn remove_client(&mut self, client_id: &str)
        requires
            old(self).wf(),
        ensures
            final(self).wf(),
            !old(self).spec_has_client(client_id@) ==> final(self).clients() == old(
                self,
            ).clients(),
            old(self).spec_has_client(client_id@) ==> exists|k: int|
                0 <= k < old(self).clients().len() && old(self).clients()[k] == client_id@
                    && final(self).clients() == old(self).clients().remove(k),
            final(self).history() == old(self).history(),
            final(self).spec_total() == old(self).spec_total(),
            final(self).spec_capacity() == old(self).spec_capacity(),
            final(self).spec_start_time() == old(self).spec_start_time(),
    {
        let n = self.connected_clients.len();
        let mut i: usize = 0;
        while i < n
            invariant
                *self == *old(self),
                self.wf(),
                n == self.clients().len(),
                i <= n,
                forall|j: int| 0 <= j < i ==> self.clients()[j] != client_id@,
            decreases n - i,
        {
            if sys::str_eq(self.connected_clients[i].as_str(), client_id) {
                proof {
                    assert(self.clients()[i as int] == client_id@);
                }
                let ghost pre = *self;
                let ghost k: int = i as int;
                self.connected_clients.remove(i);
                proof {
                    assert(self.clients() =~= pre.clients().remove(k));
                    let nc = self.clients();
                    let oc = pre.clients();
                    assert forall|a: int, b: int|
                        0 <= a < b < nc.len() implies nc[a] != nc[b] by {
                        let oa: int = if a < k {
                            a
                        } else {
                            a + 1
                        };
                        let ob: int = if b < k {
                            b
                        } else {
                            b + 1
                        };
                        assert(nc[a] == oc[oa]);
                        assert(nc[b] == oc[ob]);
                        assert(oc[oa] != oc[ob]);
                    }
                }
                return ;
            }
            i = i + 1;
        }
    }

    /// Number of registered streaming clients.
    pub fn client_count(&self) -> (r: usize)
        ensures
            r == self.clients().len(),
    {
        self.connected_clients.len()
    }

    /// Compute the statistics snapshot of the current history: the count,
    /// each channel's arithmetic mean (in thousandths of a unit, rounded
    /// toward zero), and the minimum and maximum of the temperature and
    /// heart-rate channels (also in thousandths). An empty history gives
    /// the all-zero snapshot.
    pub fn get_statistics(&self) -> (r: ReadingStatistics)
        requires
            self.wf(),
        ensures
            r == spec_statistics(self.history()),
    {
        let n = self.readings.len();
        if n == 0 {
            return ReadingStatistics::empty();
        }
        let mut temp_sum: i128 = 0;
        let mut hum_sum: i128 = 0;
        let mut sound_sum: i128 = 0;
        let mut hr_sum: i128 = 0;
        let mut min_temp: i64 = self.readings[0].temperature;
        let mut max_temp: i64 = self.readings[0].temperature;
        let mut min_hr: i64 = self.readings[0].heart_rate;
        let mut max_hr: i64 = self.readings[0].heart_rate;
        let mut i: usize = 0;
        while i < n
            invariant
                self.wf(),
                n == self.history().len(),
                0 < n,
                i <= n,
                temp_sum == spec_sum_temperature(self.history().subrange(0, i as int)),
                hum_sum == spec_sum_humidity(self.history().subrange(0, i as int)),
                sound_sum == spec_sum_sound(self.history().subrange(0, i as int)),
                hr_sum == spec_sum_heart_rate(self.history().subrange(0, i as int)),
                -10230 * (i as int) <= temp_sum <= 10230 * (i as int),
                -10230 * (i as int) <= hum_sum <= 10230 * (i as int),
                -10230 * (i as int) <= sound_sum <= 10230 * (i as int),
                -10230 * (i as int) <= hr_sum <= 10230 * (i as int),
                i > 0 ==> min_temp == spec_min_temperature(self.history().subrange(0, i as int)),
                i > 0 ==> max_temp == spec_max_temperature(self.history().subrange(0, i as int)),
                i > 0 ==> min_hr == spec_min_heart_rate(self.history().subrange(0, i as int)),
                i > 0 ==> max_hr == spec_max_heart_rate(self.history().subrange(0, i as int)),
                i == 0 ==> min_temp == self.history()[0].temperature && max_temp == self.history()[0].temperature
                    && min_hr == self.history()[0].heart_rate && max_hr == self.history()[0].heart_rate,
                -10230 <= min_temp <= 10230,
                -10230 <= max_temp <= 10230,
                -10230 <= min_hr <= 10230,
                -10230 <= max_hr <= 10230,
            decreases n - i,
        {
            let ghost prefix = self.history().subrange(0, i as int);
            let x = &self.readings[i];
            proof {
                assert(x.wf());
            }
            temp_sum = temp_sum + x.temperature as i128;
            hum_sum = hum_sum + x.humidity as i128;
            sound_sum = sound_sum + x.sound as i128;
            hr_sum = hr_sum + x.heart_rate as i128;
            if i == 0 {
                min_temp = x.temperature;
                max_temp = x.temperature;
                min_hr = x.heart_rate;
                max_hr = x.heart_rate;
            } else {
                if x.temperature < min_temp {
                    min_temp = x.temperature;
                }
                if x.temperature > max_temp {
                    max_temp = x.temperature;
                }
                if x.heart_rate < min_hr {
                    min_hr = x.heart_rate;
                }
                if x.heart_rate > max_hr {
                    max_hr = x.heart_rate;
                }
            }
            i = i + 1;
            proof {
                assert(self.history().subrange(0, i as int) =~= prefix.push(
                    self.history()[i - 1],
                ));
                assert(self.history().subrange(0, i as int).drop_last() =~= prefix);
            }
        }
        proof {
            assert(self.history().subrange(0, n as int) =~= self.history());
        }
        let count = n;
        let r = ReadingStatistics {
            count,
            avg_temperature: div_toward_zero(temp_sum * 100, count as i128),
            avg_humidity: div_toward_zero(hum_sum * 100, count as i128),
            avg_sound: div_toward_zero(sound_sum * 100, count as i128),
            avg_heart_rate: div_toward_zero(hr_sum * 100, count as i128),
            min_temperature: min_temp * 100,
            max_temperature: max_temp * 100,
            min_heart_rate: min_hr * 100,
            max_heart_rate: max_hr * 100,
        };
        r
    }
}

impl Default for AppState {
    /// A fresh store with the default capacity.
    fn default() -> (r: AppState)
        ensures
            r.wf(),
            r.history().len() == 0,
            r.spec_capacity() == MAX_READINGS,
            r.spec_total() == 0,
            r.clients().len() == 0,
    {
        AppState::new()
    }
}

/// The capture-time cutoff that lies `minutes` minutes before `now`,
/// saturated to the timestamp range.
pub open spec fn spec_cutoff(now: int, minutes: int) -> int {
    let wide = now - minutes * 60_000;
    if wide > i64::MAX {
        i64::MAX as int
    } else if wide < i64::MIN {
        i64::MIN as int
    } else {
        wide
    }
}

/// Seconds from `start` to `now`, clamped below at zero.
pub open spec fn spec_uptime(start: i64, now: i64) -> int {
    if now <= start {
        0
    } else {
        (now - start) / 1000
    }
}

/// Appending a reading to a history extends the time-filtered view exactly
/// when the reading meets the cutoff.
proof fn lemma_since_push(h: Seq<SensorReading>, x: SensorReading, cutoff: i64)
    ensures
        x.timestamp >= cutoff ==> spec_since(h.push(x), cutoff) == spec_since(h, cutoff).push(x),
        x.timestamp < cutoff ==> spec_since(h.push(x), cutoff) == spec_since(h, cutoff),
{
    let s = h.push(x);
    assert(s.drop_last() =~= h);
    assert(s.last() == x);
    reveal_with_fuel(Seq::filter, 2);
    if x.timestamp >= cutoff {
        assert(spec_since(h.push(x), cutoff) =~= spec_since(h, cutoff).push(x));
    } else {
        assert(spec_since(h.push(x), cutoff) =~= spec_since(h, cutoff));
    }
}

/// Appending a reading to a history extends the range-filtered view
/// exactly when the reading lies in the range.
proof fn lemma_in_range_push(h: Seq<SensorReading>, x: SensorReading, start: i64, end: i64)
    ensures
        start <= x.timestamp && x.timestamp <= end ==> spec_in_range(h.push(x), start, end)
            == spec_in_range(h, start, end).push(x),
        !(start <= x.timestamp && x.timestamp <= end) ==> spec_in_range(h.push(x), start, end)
            == spec_in_range(h, start, end),
{
    let s = h.push(x);
    assert(s.drop_last() =~= h);
    assert(s.last() == x);
    reveal_with_fuel(Seq::filter, 2);
    if start <= x.timestamp && x.timestamp <= end {
        assert(spec_in_range(h.push(x), start, end) =~= spec_in_range(h, start, end).push(x));
    } else {
        assert(spec_in_range(h.push(x), start, end) =~= spec_in_range(h, start, end));
    }
}

/// After any sequence of `record` steps on an initially empty store with
/// bound `capacity`, the stored history has length `min(capacity, n)`,
/// holds exactly the most recent `min(capacity, n)` inputs in insertion
/// order, and the total-ingested counter — incremented once per step, as
/// the contract of `add_reading` states — counts every input exactly.
pub proof fn lemma_bounded_fifo_history(capacity: usize, inputs: Seq<SensorReading>)
    requires
        capacity >= 1,
    ensures
        spec_history_after(capacity, inputs).len() == if inputs.len() <= capacity {
            inputs.len() as int
        } else {
            capacity as int
        },
        spec_history_after(capacity, inputs) == inputs.subrange(
            if inputs.len() <= capacity {
                0
            } else {
                inputs.len() - capacity
            },
            inputs.len() as int,
        ),
        spec_total_after(inputs) == inputs.len(),
    decreases inputs.len(),
{
    if inputs.len() == 0 {
        assert(spec_history_after(capacity, inputs) =~= inputs.subrange(0, 0));
    } else {
        let prev = inputs.drop_last();
        lemma_bounded_fifo_history(capacity, prev);
        let before = spec_history_after(capacity, prev);
        let after = spec_history_after(capacity, inputs);
        assert(after == spec_record(before, capacity, inputs.last()));
        if before.len() >= capacity {
            assert(after =~= inputs.subrange(inputs.len() - capacity, inputs.len() as int));
        } else {
            assert(after =~= inputs.subrange(
                if inputs.len() <= capacity {
                    0
                } else {
                    inputs.len() - capacity
                },
                inputs.len() as int,
            ));
        }
    }
}

/// When the history is non-empty, the first element of `recent(count)`
/// (for any positive `count`) is exactly the latest reading.
pub proof fn lemma_recent_first_is_latest(h: Seq<SensorReading>, count: int)
    requires
        h.len() > 0,
        count > 0,
    ensures
        spec_recent(h, count).len() > 0,
        spec_latest(h) == Some(spec_recent(h, count)[0]),
        spec_recent(h, count)[0].id == spec_latest(h)->Some_0.id,
{
}

} // verus!
