use vstd::prelude::*;

verus! {

/// Rate that plays back in real time, in thousandths.
pub const NORMAL_RATE: u32 = 1000;

/// Estimates the playback position of the current track from a known
/// position and the wall-clock instant at which playback last resumed.
///
/// Times are milliseconds of a monotonic clock that the caller reads and
/// passes in; `rate` is the playback speed in thousandths (1000 is real time).
#[derive(Debug)]
pub struct PositionMillis {
    pub last_known_position: u64,
    pub last_resume_instant: Option<u64>,
    pub rate: u32,
}

/// Milliseconds played between `anchor` and `now` at `rate` thousandths,
/// rounded up; nothing when the clock has not moved forward.
pub open spec fn progress_since(anchor: u64, now: u64, rate: u32) -> int {
    if now <= anchor {
        0
    } else {
        (rate as int * (now - anchor) + 999) / 1000
    }
}

/// The estimated position, capped at the largest value a `u64` holds.
pub open spec fn position_at(last: u64, anchor: Option<u64>, rate: u32, now: u64) -> int {
    let p = match anchor {
        Some(a) => last + progress_since(a, now, rate),
        None => last as int,
    };
    if p > u64::MAX { u64::MAX as int } else { p }
}

impl PositionMillis {
    pub open spec fn spec_current(&self, now: u64) -> int {
        position_at(self.last_known_position, self.last_resume_instant, self.rate, now)
    }

    pub fn new(rate: u32) -> (r: Self)
        ensures
            r.last_known_position == 0,
            r.last_resume_instant.is_none(),
            r.rate == rate,
    {
        PositionMillis { last_known_position: 0, last_resume_instant: None, rate }
    }

    /// Position at `now`: the known position plus the time played since the
    /// anchor, scaled by the rate and rounded up.
    pub fn current(&self, now: u64) -> (r: u64)
        ensures
            r == self.spec_current(now),
    {
        let progress: u128 = match self.last_resume_instant {
            Some(anchor) => {
                if now <= anchor {
                    0
                } else {
                    let elapsed: u128 = (now - anchor) as u128;
                    assert(self.rate as u128 * elapsed <= u32::MAX as u128 * u64::MAX as u128)
                        by (nonlinear_arith)
                        requires
                            elapsed <= u64::MAX,
                    ;
                    (self.rate as u128 * elapsed + 999) / 1000
                }
            },
            None => 0,
        };
        let total: u128 = self.last_known_position as u128 + progress;
        if total > u64::MAX as u128 {
            u64::MAX
        } else {
            total as u64
        }
    }

    /// Pins the known position; the clock runs from `now` when `playing`.
    pub fn set(&mut self, position: u64, playing: bool, now: u64)
        ensures
            final(self).last_known_position == position,
            final(self).last_resume_instant == (if playing { Some(now) } else { None::<u64> }),
            final(self).rate == old(self).rate,
    {
        self.last_known_position = position;
        self.last_resume_instant = if playing { Some(now) } else { None };
    }

    /// Freezes the estimate at `now`.
    pub fn pause(&mut self, now: u64)
        ensures
            final(self).last_known_position == old(self).spec_current(now),
            final(self).last_resume_instant.is_none(),
            final(self).rate == old(self).rate,
    {
        self.last_known_position = self.current(now);
        self.last_resume_instant = None;
    }

    /// Starts the clock again from `now`, keeping the known position.
    pub fn resume(&mut self, now: u64)
        ensures
            final(self).last_known_position == old(self).last_known_position,
            final(self).last_resume_instant == Some(now),
            final(self).rate == old(self).rate,
    {
        self.last_resume_instant = Some(now);
    }
}

} // verus!
