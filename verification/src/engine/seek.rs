//! Seeking: inside the media, one at a time, newest target first.

use vstd::prelude::*;

use crate::engine::time;
use crate::engine::Duration;

verus! {

/// How far short of the end a seek stays, in milliseconds.
pub const MARGIN_MILLIS: u64 = 2000;

/// A length that is known, or none: a pipeline that reports no length at all means
/// that it does not know.
pub fn known_duration(nanos: Option<u64>) -> (r: Option<Duration>)
    ensures
        r == (match nanos {
            Some(n) if n > 0 => Some(Duration { nanos: n as u128 }),
            _ => None,
        }),
{
    match nanos {
        Some(n) if n > 0 => Some(Duration::from_nanos(n)),
        _ => None,
    }
}

/// Where a seek goes, in media of the given length: no further than the margin short of
/// the end, or than just short of it where the media is no longer than the margin.
pub open spec fn clamped(to: int, total: Option<Duration>) -> int {
    let margin = MARGIN_MILLIS * time::MILLISECOND;
    let limit = match total {
        Some(total) if total.nanos > margin => total.nanos - margin,
        Some(total) if total.nanos > 0 => total.nanos - 1,
        Some(_) => 0,
        None => to,
    };
    if to < limit {
        to
    } else {
        limit
    }
}

/// Keep a seek inside the media.
///
/// Seeking to exactly the duration, which dragging the bar to its end does, puts
/// the demuxer past the last byte, where it reads nothing and reports a missing
/// header. A margin short of the end costs nothing: no one is trying to land on the
/// final frame. In media too short for the margin, only a seek to its end or past it is
/// pulled in.
pub fn clamp_target(to: Duration, total: Option<Duration>) -> (r: Duration)
    ensures
        r.nanos == clamped(to.nanos as int, total),
        total matches Some(t) ==> (t.nanos > 0 ==> r.nanos < t.nanos),
        total matches Some(t) ==> (t.nanos <= MARGIN_MILLIS * time::MILLISECOND && to.nanos
            < t.nanos ==> r == to),
{
    let margin: Duration = Duration::from_millis(MARGIN_MILLIS);
    match total {
        Some(total) if total.nanos > margin.nanos => to.min(total.saturating_sub(margin)),
        Some(total) => to.min(total.saturating_sub(Duration { nanos: 1 })),
        None => to,
    }
}

/// A seek never lands past where it was asked to go, and in media of any length at all
/// it lands short of the end: by the margin where the media is longer than that. Media
/// that is not has seeks inside it left alone.
pub proof fn lemma_seeks_land_inside(to: int, total: Duration)
    requires
        0 <= to,
    ensures
        0 <= clamped(to, Some(total)) <= to,
        total.nanos > 0 ==> clamped(to, Some(total)) < total.nanos,
        total.nanos <= MARGIN_MILLIS * time::MILLISECOND && to < total.nanos ==> clamped(
            to,
            Some(total),
        ) == to,
        total.nanos > MARGIN_MILLIS * time::MILLISECOND ==> clamped(to, Some(total))
            + MARGIN_MILLIS * time::MILLISECOND <= total.nanos,
{
}

/// The seeks of one pipeline: whether one is running, and what waits for it.
#[derive(Debug, Clone, Copy, PartialEq, Eq, Structural)]
pub struct Seeks {
    /// A flushing seek is in flight; the pipeline will refuse another.
    pub seeking: bool,
    /// Where to seek next once the current one lands.
    pub pending: Option<Duration>,
}

impl Seeks {
    /// No seek running and none waiting, as after opening a file.
    pub fn idle() -> (r: Seeks)
        ensures
            r == (Seeks { seeking: false, pending: None }),
    {
        Seeks { seeking: false, pending: None }
    }

    /// What there is after a seek is asked for.
    pub open spec fn after_seek(self, to: Duration, total: Option<Duration>) -> Seeks {
        if self.seeking {
            Seeks {
                pending: Some(Duration { nanos: clamped(to.nanos as int, total) as u128 }),
                ..self
            }
        } else {
            Seeks { seeking: true, ..self }
        }
    }

    /// Seek, coalescing anything that arrives while one is already running. What is
    /// returned goes to the pipeline now.
    ///
    /// Dragging the scrub bar produces a seek per pixel of movement. A flushing
    /// seek takes time to resolve and the pipeline refuses a second one until it
    /// has. Only one seek is ever in flight; the newest target supersedes any
    /// waiting one, because an intermediate position during a drag is of no
    /// interest.
    pub fn seek(&mut self, to: Duration, total: Option<Duration>) -> (r: Option<Duration>)
        ensures
            *final(self) == old(self).after_seek(to, total),
            r is Some <==> !old(self).seeking,
            r is Some ==> r->0.nanos == clamped(to.nanos as int, total),
    {
        let target: Duration = clamp_target(to, total);
        if self.seeking {
            self.pending = Some(target);
            return None;
        }
        self.seeking = true;
        Some(target)
    }

    /// The pipeline reports that a seek has completed. What is returned goes to the
    /// pipeline now.
    pub fn seek_settled(&mut self) -> (r: Option<Duration>)
        ensures
            r == old(self).pending,
            *final(self) == (Seeks { seeking: old(self).pending is Some, pending: None }),
    {
        let next: Option<Duration> = self.pending;
        self.pending = None;
        self.seeking = next.is_some();
        next
    }

    /// The pipeline refused the seek that it was given. The next one along will
    /// land.
    pub fn seek_refused(&mut self)
        ensures
            *final(self) == (Seeks { seeking: false, ..*old(self) }),
    {
        self.seeking = false;
    }

    /// What there is after a run of seeks, one after another.
    pub open spec fn after_seeks(self, targets: Seq<Duration>, total: Option<Duration>) -> Seeks
        decreases targets.len(),
    {
        if targets.len() == 0 {
            self
        } else {
            self.after_seeks(targets.drop_last(), total).after_seek(targets.last(), total)
        }
    }
}

/// However many seeks arrive while one is running, none of them reaches the
/// pipeline until it settles, and then only the newest does.
pub proof fn lemma_newest_target_wins(seeks: Seeks, targets: Seq<Duration>, total: Option<Duration>)
    requires
        seeks.seeking,
        targets.len() > 0,
    ensures
        seeks.after_seeks(targets, total) == (Seeks {
            seeking: true,
            pending: Some(
                Duration { nanos: clamped(targets.last().nanos as int, total) as u128 },
            ),
        }),
    decreases targets.len(),
{
    let before = targets.drop_last();
    if before.len() > 0 {
        lemma_newest_target_wins(seeks, before, total);
    } else {
        assert(seeks.after_seeks(before, total) == seeks);
    }
}

} // verus!
