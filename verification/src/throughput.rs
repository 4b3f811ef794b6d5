//! Throughput normalization.
//!
//! A raw throughput sample is a number of bytes per second. To keep the
//! arithmetic exact (and the unit decision provable on every input), the raw
//! rate is carried as an integer count of *thousandths* of a byte per second,
//! and the scaled magnitude is returned as an exact rational number.
//!
//! The unit thresholds are decimal (1000 and 1,000,000 bytes per second)
//! while the conversion divisors are binary (1024 and 1024 * 1024). The
//! asymmetry is deliberate and must be preserved for output compatibility.

use vstd::prelude::*;

verus! {

/// One thousandth of a byte per second, the resolution of a raw rate.
pub const MILLI: u64 = 1000;

/// Raw rates at or above this many thousandths of a byte per second are
/// reported in kilobytes per second (1000 bytes per second).
pub const KB_THRESHOLD_MILLI: u64 = 1_000_000;

/// Raw rates at or above this many thousandths of a byte per second are
/// reported in megabytes per second (1,000,000 bytes per second).
pub const MB_THRESHOLD_MILLI: u64 = 1_000_000_000;

/// Bytes per kilobyte: the binary divisor used once the decimal threshold
/// is crossed.
pub const KB_DIVISOR: u64 = 1024;

/// Bytes per megabyte.
pub const MB_DIVISOR: u64 = 1024 * 1024;

/// The unit tag attached to a scaled throughput value.
#[derive(Clone, Copy, Debug, PartialEq, Eq, Structural)]
pub enum ThroughputUnit {
    /// Bytes per second.
    Bytes,
    /// Kilobytes per second.
    KB,
    /// Megabytes per second.
    MB,
}

/// The number of bytes one unit stands for.
pub open spec fn divisor_of(unit: ThroughputUnit) -> int {
    match unit {
        ThroughputUnit::Bytes => 1,
        ThroughputUnit::KB => KB_DIVISOR as int,
        ThroughputUnit::MB => MB_DIVISOR as int,
    }
}

/// The unit a raw rate (in thousandths of a byte per second) is reported in:
/// thresholds are inclusive lower bounds, checked high to low.
pub open spec fn unit_of(milli_bps: int) -> ThroughputUnit {
    if milli_bps >= MB_THRESHOLD_MILLI {
        ThroughputUnit::MB
    } else if milli_bps >= KB_THRESHOLD_MILLI {
        ThroughputUnit::KB
    } else {
        ThroughputUnit::Bytes
    }
}

/// A scaled throughput value: a unit tag and an exact magnitude, the rational
/// number `magnitude_num / magnitude_den` of units per second.
#[derive(Clone, Copy, Debug, PartialEq, Eq, Structural)]
pub struct ScaledThroughput {
    pub unit: ThroughputUnit,
    pub magnitude_num: u64,
    pub magnitude_den: u64,
}

impl ScaledThroughput {
    /// The denominator matches the unit: a raw rate of `magnitude_num`
    /// thousandths of a byte per second is `magnitude_num / (1000 * divisor)`
    /// units per second.
    pub open spec fn wf(self) -> bool {
        self.magnitude_den == MILLI * divisor_of(self.unit)
    }

    /// The magnitude rounded down to thousandths of a unit, for reporting.
    pub fn magnitude_milli(&self) -> (r: u64)
        requires
            self.wf(),
        ensures
            r == self.magnitude_num as int / (self.magnitude_den as int / MILLI as int),
    {
        self.magnitude_num / (self.magnitude_den / MILLI)
    }
}

/// Maps a raw rate, in thousandths of a byte per second, to a scaled value
/// and unit tag. Total on every input; the magnitude is exact:
/// `magnitude_num / magnitude_den` units per second.
///
/// - below 1000 bytes per second the value is unchanged and tagged bytes/s;
/// - from 1000 bytes per second the value is divided by 1024, kilobytes/s;
/// - from 1,000,000 bytes per second it is divided by 1024 * 1024, megabytes/s.
pub fn normalize(milli_bps: u64) -> (r: ScaledThroughput)
    ensures
        r.wf(),
        r.unit == unit_of(milli_bps as int),
        r.magnitude_num == milli_bps,
        milli_bps < KB_THRESHOLD_MILLI ==> r == (ScaledThroughput {
            unit: ThroughputUnit::Bytes,
            magnitude_num: milli_bps,
            magnitude_den: MILLI,
        }),
        KB_THRESHOLD_MILLI <= milli_bps < MB_THRESHOLD_MILLI ==> r == (ScaledThroughput {
            unit: ThroughputUnit::KB,
            magnitude_num: milli_bps,
            magnitude_den: (MILLI * KB_DIVISOR) as u64,
        }),
        milli_bps >= MB_THRESHOLD_MILLI ==> r == (ScaledThroughput {
            unit: ThroughputUnit::MB,
            magnitude_num: milli_bps,
            magnitude_den: (MILLI * MB_DIVISOR) as u64,
        }),
{
    if milli_bps >= MB_THRESHOLD_MILLI {
        ScaledThroughput {
            unit: ThroughputUnit::MB,
            magnitude_num: milli_bps,
            magnitude_den: MILLI * MB_DIVISOR,
        }
    } else if milli_bps >= KB_THRESHOLD_MILLI {
        ScaledThroughput {
            unit: ThroughputUnit::KB,
            magnitude_num: milli_bps,
            magnitude_den: MILLI * KB_DIVISOR,
        }
    } else {
        ScaledThroughput {
            unit: ThroughputUnit::Bytes,
            magnitude_num: milli_bps,
            magnitude_den: MILLI,
        }
    }
}

/// One throughput sample: the bytes a pass transferred and the wall time it
/// took, in milliseconds.
#[derive(Clone, Copy, Debug, PartialEq, Eq, Structural)]
pub struct ThroughputSample {
    pub bytes: u64,
    pub elapsed_ms: u64,
}

impl ThroughputSample {
    /// The raw rate of this sample, in thousandths of a byte per second,
    /// rounded down. `None` exactly when the elapsed time is zero or the
    /// rate does not fit in 64 bits.
    pub fn rate_milli_bps(&self) -> (r: Option<u64>)
        ensures
            r is Some <==> (self.elapsed_ms != 0 && self.bytes * 1_000_000 / (self.elapsed_ms as int)
                <= u64::MAX),
            r matches Some(v) ==> v == self.bytes * 1_000_000 / (self.elapsed_ms as int),
    {
        if self.elapsed_ms == 0 {
            return None;
        }
        let wide: u128 = (self.bytes as u128) * 1_000_000 / (self.elapsed_ms as u128);
        if wide <= u64::MAX as u128 {
            Some(wide as u64)
        } else {
            None
        }
    }
}

/// The scaled throughput of a sample: its raw rate normalized. `None` exactly
/// when the sample has no rate (zero elapsed time, or a rate above 64 bits).
pub fn normalized_rate(sample: &ThroughputSample) -> (r: Option<ScaledThroughput>)
    ensures
        r is Some <==> (sample.elapsed_ms != 0 && sample.bytes * 1_000_000 / (
        sample.elapsed_ms as int) <= u64::MAX),
        r matches Some(t) ==> {
            let rate = sample.bytes * 1_000_000 / (sample.elapsed_ms as int);
            &&& t.wf()
            &&& t.unit == unit_of(rate)
            &&& t.magnitude_num == rate
        },
{
    match sample.rate_milli_bps() {
        Some(rate) => Some(normalize(rate)),
        None => None,
    }
}

} // verus!
