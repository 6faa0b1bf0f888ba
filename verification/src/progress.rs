//! Parse progress and the smoothed reading speed derived from it.
//!
//! Times are nanoseconds on a clock that the host reads; speeds are whole
//! bytes per second. All arithmetic is on integers and rounds down. Every
//! report that is held against the one before it carries a speed.

use vstd::arithmetic::power::{lemma_pow_positive, pow};
use vstd::prelude::*;

verus! {

/// Weight of the previous estimate in the moving average. The higher it is,
/// the smoother the published speed and the slower it follows a change.
pub const SPEED_SMOOTHING: u64 = 10;

/// Nanoseconds in one second.
pub const NANOS_PER_SECOND: u64 = 1_000_000_000;

/// How far a reader has come in its source.
#[derive(Debug, Clone, Copy, PartialEq, Eq, Structural)]
pub struct ReaderState {
    pub bytes_read: usize,
    pub lines_read: usize,
}

/// One progress report of a running parse, with what was derived from the
/// report before it.
#[derive(Debug, Clone, Copy, PartialEq, Eq)]
pub struct ParseProgress {
    /// Where the reader stood when the report was taken.
    pub reader: ReaderState,
    /// Size of the whole source in bytes.
    pub file_size: u64,
    /// When the report was taken, in nanoseconds.
    pub time: u64,
    /// Bytes read since the report before; `None` on a first report.
    pub bytes_delta: Option<usize>,
    /// Nanoseconds since the report before; `None` on a first report.
    pub time_delta: Option<u64>,
    /// Smoothed speed in bytes per second; `None` on a first report.
    pub speed: Option<u64>,
}

/// Bytes per second over one interval, rounded down and capped at `u64::MAX`.
pub open spec fn instantaneous_speed(bytes_delta: nat, time_delta: nat) -> nat
    recommends
        time_delta > 0,
{
    let exact = bytes_delta * (NANOS_PER_SECOND as nat) / time_delta;
    if exact > u64::MAX {
        u64::MAX as nat
    } else {
        exact
    }
}

/// The moving average of `instant` and the estimate before it. Without an
/// earlier estimate the instantaneous speed itself is the estimate.
pub open spec fn smoothed(instant: nat, previous: Option<u64>) -> nat {
    match previous {
        Some(p) => (instant + SPEED_SMOOTHING as nat * p as nat) / (SPEED_SMOOTHING as nat + 1),
        None => instant,
    }
}

/// The speed that stands for an interval of no length: the cap where bytes
/// were read, as for a quotient without bound, and zero where none were.
pub open spec fn unmeasured_speed(bytes_delta: nat) -> u64 {
    if bytes_delta > 0 {
        u64::MAX
    } else {
        0
    }
}

/// The estimate after an interval of `time_delta` nanoseconds in which
/// `bytes_delta` bytes were read. An interval of no length gives no
/// instantaneous speed: an earlier estimate stands, and where there is none
/// the estimate is `unmeasured_speed`.
pub open spec fn next_speed(bytes_delta: nat, time_delta: nat, previous: Option<u64>) -> u64 {
    if time_delta == 0 {
        match previous {
            Some(p) => p,
            None => unmeasured_speed(bytes_delta),
        }
    } else {
        smoothed(instantaneous_speed(bytes_delta, time_delta), previous) as u64
    }
}

/// `current` after it was held against the report before it. A report whose
/// byte count lies below that of `previous` arrived out of order, and
/// `previous` takes its place.
pub open spec fn updated(current: ParseProgress, previous: ParseProgress) -> ParseProgress {
    if current.reader.bytes_read < previous.reader.bytes_read {
        previous
    } else {
        let bytes_delta = (current.reader.bytes_read - previous.reader.bytes_read) as usize;
        let time_delta = if current.time >= previous.time {
            (current.time - previous.time) as u64
        } else {
            0u64
        };
        ParseProgress {
            reader: current.reader,
            file_size: current.file_size,
            time: current.time,
            bytes_delta: Some(bytes_delta),
            time_delta: Some(time_delta),
            speed: Some(next_speed(bytes_delta as nat, time_delta as nat, previous.speed)),
        }
    }
}

/// The moving average stays between the earlier estimate and the
/// instantaneous speed, so it fits where they fit.
pub proof fn lemma_smoothed_between(instant: nat, previous: u64)
    ensures
        instant <= previous ==> instant <= smoothed(instant, Some(previous)) <= previous,
        previous <= instant ==> previous <= smoothed(instant, Some(previous)) <= instant,
{
    let sum = instant + 10 * previous as nat;
    assert(smoothed(instant, Some(previous)) == sum / 11);
    assert(sum == 11 * (sum / 11) + sum % 11 && 0 <= sum % 11 < 11);
}

/// The distance between two speeds.
pub open spec fn gap(a: int, b: int) -> int {
    if a >= b {
        a - b
    } else {
        b - a
    }
}

/// The estimate after `n` further intervals in each of which the
/// instantaneous speed was `rate`, starting from the estimate `seed`.
pub open spec fn settled(seed: u64, rate: u64, n: nat) -> u64
    decreases n,
{
    if n == 0 {
        seed
    } else {
        smoothed(rate as nat, Some(settled(seed, rate, (n - 1) as nat))) as u64
    }
}

/// One interval at `rate` moves the estimate towards `rate`: the distance
/// does not grow, and what of it lies beyond ten bytes per second shrinks by
/// a factor of ten elevenths. (Ten is what rounding down can hold back.)
pub proof fn lemma_smoothing_step(previous: u64, rate: u64)
    ensures
        smoothed(rate as nat, Some(previous)) <= u64::MAX,
        gap(smoothed(rate as nat, Some(previous)) as int, rate as int) <= gap(
            previous as int,
            rate as int,
        ),
        11 * (gap(smoothed(rate as nat, Some(previous)) as int, rate as int) - 10) <= 10 * (gap(
            previous as int,
            rate as int,
        ) - 10),
{
    lemma_smoothed_between(rate as nat, previous);
    let sum = rate as nat + 10 * previous as nat;
    let next = smoothed(rate as nat, Some(previous));
    assert(next == sum / 11);
    assert(sum == 11 * next + sum % 11 && 0 <= sum % 11 < 11);
    if previous < rate {
        let d = (rate - previous) as nat;
        assert(sum == 11 * previous as nat + d);
        assert(sum % 11 == d % 11) by {
            vstd::arithmetic::div_mod::lemma_mod_multiples_vanish(previous as int, d as int, 11);
        }
        assert(d % 11 <= d) by {
            vstd::arithmetic::div_mod::lemma_mod_decreases(d, 11);
        }
    }
}

/// Regression is a no-op: a report whose byte count lies below that of the
/// report before it leaves that earlier report, estimate included, in place.
pub proof fn lemma_regression_keeps_previous(current: ParseProgress, previous: ParseProgress)
    requires
        current.reader.bytes_read < previous.reader.bytes_read,
    ensures
        updated(current, previous) == previous,
        updated(current, previous).speed == previous.speed,
{
}

/// For any two reports whose byte count does not go backwards a speed is
/// published, whatever their times. Over an interval that has a length it
/// is the instantaneous speed where no estimate went before, and else lies
/// between the earlier estimate and the instantaneous speed. Over an
/// interval of no length, or one in which the clock went back, the earlier
/// estimate stands, and where there is none the cap or zero is published.
pub proof fn lemma_update_publishes_speed(current: ParseProgress, previous: ParseProgress)
    requires
        current.reader.bytes_read >= previous.reader.bytes_read,
    ensures
        updated(current, previous).speed.is_some(),
        current.time > previous.time && previous.speed.is_none() ==> updated(
            current,
            previous,
        ).speed == Some(
            instantaneous_speed(
                (current.reader.bytes_read - previous.reader.bytes_read) as nat,
                (current.time - previous.time) as nat,
            ) as u64,
        ),
        (current.time > previous.time && previous.speed.is_some()) ==> {
            let p = previous.speed.unwrap();
            let instant = instantaneous_speed(
                (current.reader.bytes_read - previous.reader.bytes_read) as nat,
                (current.time - previous.time) as nat,
            );
            let v = updated(current, previous).speed.unwrap();
            (instant <= p ==> instant <= v <= p) && (p <= instant ==> p <= v <= instant)
        },
        current.time <= previous.time && previous.speed.is_some() ==> updated(
            current,
            previous,
        ).speed == previous.speed,
        current.time <= previous.time && previous.speed.is_none() ==> updated(
            current,
            previous,
        ).speed == Some(
            if current.reader.bytes_read > previous.reader.bytes_read {
                u64::MAX
            } else {
                0u64
            },
        ),
{
    if current.time > previous.time {
        if let Some(p) = previous.speed {
            let instant = instantaneous_speed(
                (current.reader.bytes_read - previous.reader.bytes_read) as nat,
                (current.time - previous.time) as nat,
            );
            lemma_smoothed_between(instant, p);
        }
    }
}

/// At a constant byte rate the published speed converges on that rate: with
/// every further report the distance does not grow, and what of it lies
/// beyond ten bytes per second has shrunk by ten elevenths to the power of
/// the number of reports. An estimate that equals the rate stays there.
pub proof fn lemma_constant_rate_converges(seed: u64, rate: u64, n: nat)
    ensures
        gap(settled(seed, rate, n) as int, rate as int) <= gap(seed as int, rate as int),
        n > 0 ==> gap(settled(seed, rate, n) as int, rate as int) <= gap(
            settled(seed, rate, (n - 1) as nat) as int,
            rate as int,
        ),
        pow(11, n) * (gap(settled(seed, rate, n) as int, rate as int) - 10) <= pow(10, n) * (gap(
            seed as int,
            rate as int,
        ) - 10),
        seed == rate ==> settled(seed, rate, n) == rate,
    decreases n,
{
    reveal(pow);
    if n == 0 {
        assert(pow(11, 0) == 1 && pow(10, 0) == 1);
    } else {
        let m = (n - 1) as nat;
        lemma_constant_rate_converges(seed, rate, m);
        let before = settled(seed, rate, m);
        lemma_smoothing_step(before, rate);
        let g0 = gap(seed as int, rate as int) - 10;
        let gm = gap(before as int, rate as int) - 10;
        let gn = gap(settled(seed, rate, n) as int, rate as int) - 10;
        let a = pow(11, m);
        let b = pow(10, m);
        lemma_pow_positive(11, m);
        lemma_pow_positive(10, m);
        assert(pow(11, n) == 11 * a && pow(10, n) == 10 * b);
        assert(11 * gn <= 10 * gm);
        assert(a * gm <= b * g0);
        assert((11 * a) * gn <= (10 * b) * g0) by (nonlinear_arith)
            requires
                11 * gn <= 10 * gm,
                a * gm <= b * g0,
                a > 0,
        {
            assert(a * (11 * gn) <= a * (10 * gm));
            assert(10 * (a * gm) <= 10 * (b * g0));
        }
    }
}

impl ParseProgress {
    /// A first report: nothing derived yet.
    pub fn new(reader: ReaderState, file_size: u64, time: u64) -> (p: ParseProgress)
        ensures
            p == (ParseProgress {
                reader,
                file_size,
                time,
                bytes_delta: None,
                time_delta: None,
                speed: None,
            }),
    {
        ParseProgress { reader, file_size, time, bytes_delta: None, time_delta: None, speed: None }
    }

    /// Holds this report against the one before it: fills in the deltas and
    /// the smoothed speed, or falls back to `previous` where the byte count
    /// went backwards.
    pub fn delta(&mut self, previous: &ParseProgress)
        ensures
            *final(self) == updated(*old(self), *previous),
    {
        if self.reader.bytes_read < previous.reader.bytes_read {
            *self = *previous;
            return ;
        }
        let bytes_delta: usize = self.reader.bytes_read - previous.reader.bytes_read;
        let time_delta: u64 = if self.time >= previous.time {
            self.time - previous.time
        } else {
            0
        };
        self.bytes_delta = Some(bytes_delta);
        self.time_delta = Some(time_delta);
        if time_delta == 0 {
            self.speed = Some(
                match previous.speed {
                    Some(p) => p,
                    None => if bytes_delta > 0 {
                        u64::MAX
                    } else {
                        0
                    },
                },
            );
        } else {
            let exact: u128 = (bytes_delta as u128) * (NANOS_PER_SECOND as u128) / (
            time_delta as u128);
            let instant: u128 = if exact > u64::MAX as u128 {
                u64::MAX as u128
            } else {
                exact
            };
            let speed: u128 = match previous.speed {
                Some(p) => {
                    proof {
                        lemma_smoothed_between(instant as nat, p);
                    }
                    (instant + (SPEED_SMOOTHING as u128) * (p as u128)) / (SPEED_SMOOTHING as u128
                        + 1)
                },
                None => instant,
            };
            self.speed = Some(speed as u64);
        }
    }
}

} // verus!
