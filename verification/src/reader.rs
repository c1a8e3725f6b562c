//! Staleness-aware sensor sampling.
//!
//! A [`Reader`] caches the newest externally delivered sample per input and
//! expires it after a configurable window of silence; a [`Sensor`] gates one
//! reader's value on a companion availability reader, so "the sensor reports
//! nothing" and "the sensor link is down" stay distinguishable. The transport
//! hands samples in; time is an externally sampled millisecond clock.

use vstd::prelude::*;

use crate::types::SensorState;

verus! {

/// Milliseconds elapsed from `last` to `now` on a monotonic clock; a clock
/// that appears to run backwards counts as no elapsed time.
pub open spec fn spec_elapsed_ms(last: u64, now: u64) -> u64 {
    if now >= last {
        (now - last) as u64
    } else {
        0
    }
}

/// Caches the newest delivered sample and expires it after `expire_ms`
/// milliseconds of silence.
pub struct Reader<T> {
    /// The cached sample, if any fresh enough one exists.
    pub value: Option<T>,
    /// When the cache was last refreshed, in clock milliseconds.
    pub last_update_ms: u64,
    /// The expiry window: silence strictly longer than this empties the cache.
    pub expire_ms: u64,
}

impl<T> Reader<T> {
    /// Whether the cache has gone stale by time `now_ms`: the window has been
    /// exceeded strictly.
    pub open spec fn spec_expired(self, now_ms: u64) -> bool {
        spec_elapsed_ms(self.last_update_ms, now_ms) > self.expire_ms
    }

    /// A fresh reader holds no value and starts its freshness clock at
    /// `now_ms`.
    pub fn new(expire_ms: u64, now_ms: u64) -> (r: Reader<T>)
        ensures
            r.value is None,
            r.last_update_ms == now_ms,
            r.expire_ms == expire_ms,
    {
        Reader { value: None, last_update_ms: now_ms, expire_ms }
    }

    /// The current, freshness-filtered value.
    pub fn value(&self) -> (v: &Option<T>)
        ensures
            v == self.value,
    {
        &self.value
    }

    /// Take in at most one sample for this tick. A delivered sample becomes
    /// the cached value and resets the freshness clock; absent a sample, the
    /// cache is emptied once the expiry window is exceeded and otherwise
    /// retained. A value is only ever refreshed, never invented.
    pub fn update(&mut self, sample: Option<T>, now_ms: u64)
        ensures
            final(self).expire_ms == old(self).expire_ms,
            sample is Some ==> final(self).value == sample && final(self).last_update_ms
                == now_ms,
            sample is None ==> final(self).last_update_ms == old(self).last_update_ms,
            sample is None && old(self).spec_expired(now_ms) ==> final(self).value is None,
            sample is None && !old(self).spec_expired(now_ms)
                ==> final(self).value == old(self).value,
    {
        match sample {
            Some(v) => {
                self.last_update_ms = now_ms;
                self.value = Some(v);
            },
            None => {
                let elapsed = if now_ms >= self.last_update_ms {
                    now_ms - self.last_update_ms
                } else {
                    0
                };
                if elapsed > self.expire_ms {
                    self.value = None;
                }
            },
        }
    }
}

/// A value reader gated on a companion availability reader: the value is
/// suppressed unless the availability signal currently reads on.
pub struct Sensor<T> {
    /// The availability signal of the sensor link.
    pub availability: Reader<SensorState>,
    /// The sensor's value stream.
    pub value: Reader<T>,
}

impl<T> Sensor<T> {
    /// Whether the availability signal currently reads on.
    pub open spec fn spec_available(self) -> bool {
        self.availability.value == Some(SensorState { is_on: true })
    }

    /// The gated value: the underlying reader's value when the sensor link is
    /// available, and nothing otherwise.
    pub open spec fn spec_value(self) -> Option<T> {
        if self.spec_available() {
            self.value.value
        } else {
            None
        }
    }

    /// A fresh sensor with both readers empty, their freshness clocks started
    /// at `now_ms`.
    pub fn new(expire_ms: u64, now_ms: u64) -> (r: Sensor<T>)
        ensures
            r.availability.value is None,
            r.availability.last_update_ms == now_ms,
            r.availability.expire_ms == expire_ms,
            r.value.value is None,
            r.value.last_update_ms == now_ms,
            r.value.expire_ms == expire_ms,
    {
        Sensor { availability: Reader::new(expire_ms, now_ms), value: Reader::new(expire_ms, now_ms) }
    }

    /// The current value, gated on availability: `None` whenever the
    /// availability reader does not read on, even while the underlying value
    /// reader holds a fresh sample.
    pub fn value(&self) -> (v: Option<T>)
        where T: Copy
        ensures
            v == self.spec_value(),
    {
        match self.availability.value() {
            Some(state) => {
                if state.is_on {
                    *self.value.value()
                } else {
                    None
                }
            },
            None => None,
        }
    }

    /// Take in this tick's samples for both the availability and the value
    /// stream.
    pub fn update(&mut self, availability_sample: Option<SensorState>, value_sample: Option<T>, now_ms: u64)
        ensures
            final(self).availability.expire_ms == old(self).availability.expire_ms,
            final(self).value.expire_ms == old(self).value.expire_ms,
            availability_sample is Some ==> final(self).availability.value == availability_sample
                && final(self).availability.last_update_ms == now_ms,
            availability_sample is None && old(self).availability.spec_expired(now_ms)
                ==> final(self).availability.value is None,
            availability_sample is None && !old(self).availability.spec_expired(now_ms)
                ==> final(self).availability.value == old(self).availability.value,
            availability_sample is None ==> final(self).availability.last_update_ms
                == old(self).availability.last_update_ms,
            value_sample is Some ==> final(self).value.value == value_sample
                && final(self).value.last_update_ms == now_ms,
            value_sample is None && old(self).value.spec_expired(now_ms)
                ==> final(self).value.value is None,
            value_sample is None && !old(self).value.spec_expired(now_ms)
                ==> final(self).value.value == old(self).value.value,
            value_sample is None ==> final(self).value.last_update_ms
                == old(self).value.last_update_ms,
    {
        self.availability.update(availability_sample, now_ms);
        self.value.update(value_sample, now_ms);
    }

    /// Whether the sensor link is down: no fresh availability signal at all.
    pub fn is_offline(&self) -> (r: bool)
        ensures
            r == (self.availability.value is None),
    {
        self.availability.value().is_none()
    }
}

/// Whenever the availability reader does not currently read on — it is
/// empty, or it reads off — the sensor's value is nothing, no matter what the
/// underlying value reader holds.
pub proof fn lemma_gated_value_suppressed<T>(sensor: Sensor<T>)
    requires
        sensor.availability.value != Some(SensorState { is_on: true }),
    ensures
        sensor.spec_value() is None,
{
}

} // verus!
