//! The per-subject crossfade state machine.
//!
//! A subject is either idle or transitioning from one clip toward another
//! over a configured duration.  Each tick advances the elapsed time and
//! yields a fade factor, the rational `elapsed / transition_time` clamped
//! to the unit interval; reaching the full factor ends the transition.

use vstd::prelude::*;

verus! {

/// Why a crossfade request was rejected.
#[derive(Clone, Copy, PartialEq, Eq, Structural, Debug)]
pub enum CrossfadeError {
    /// A transition must run for at least one tick; a zero duration would
    /// divide the fade factor by zero.
    ZeroDuration,
}

/// Per-subject crossfade state: an active transition's clips, duration and
/// progress, or idle when no transition runs.
#[derive(Clone, Copy, PartialEq, Eq, Structural, Debug)]
pub struct CrossFadePlayer {
    pub from: Option<usize>,
    pub to: Option<usize>,
    pub transition_time: u64,
    pub elapsed: u64,
}

/// The state a successful crossfade request leaves behind: it depends on
/// the request alone, never on the state it replaces.
pub open spec fn spec_crossfade_state(from: usize, to: usize, transition_time: u64) -> CrossFadePlayer {
    CrossFadePlayer { from: Some(from), to: Some(to), transition_time, elapsed: 0 }
}

impl CrossFadePlayer {
    /// The clip being faded out, while transitioning.
    pub open spec fn spec_from(self) -> Option<usize> {
        self.from
    }

    /// The clip being faded in, while transitioning.
    pub open spec fn spec_to(self) -> Option<usize> {
        self.to
    }

    pub open spec fn spec_transition_time(self) -> u64 {
        self.transition_time
    }

    pub open spec fn spec_elapsed(self) -> u64 {
        self.elapsed
    }

    /// Both clip references are set while transitioning and cleared while
    /// idle, and an active transition has a positive duration.
    pub open spec fn wf(self) -> bool {
        &&& (self.from is Some <==> self.to is Some)
        &&& (self.from is Some ==> self.transition_time > 0)
    }

    pub open spec fn spec_is_idle(self) -> bool {
        self.from is None
    }

    /// The idle state.
    pub open spec fn spec_idle() -> CrossFadePlayer {
        CrossFadePlayer { from: None, to: None, transition_time: 0, elapsed: 0 }
    }

    pub fn is_idle(&self) -> (r: bool)
        ensures
            r == self.spec_is_idle(),
    {
        self.from.is_none()
    }

    pub fn elapsed(&self) -> (r: u64)
        ensures
            r == self.spec_elapsed(),
    {
        self.elapsed
    }

    /// Begin a transition from `from` toward `to` over `transition_time`
    /// ticks.  Any transition already in progress is discarded outright:
    /// the new state carries the newly supplied clips and duration with
    /// elapsed time zero, whatever was in progress before.  A zero
    /// duration is rejected and leaves the state untouched.
    pub fn crossfade(&mut self, from: usize, to: usize, transition_time: u64) -> (r: Result<
        (),
        CrossfadeError,
    >)
        ensures
            r is Ok <==> transition_time > 0,
            r is Ok ==> *final(self) == spec_crossfade_state(from, to, transition_time),
            r is Err ==> *final(self) == *old(self) && r == Err::<(), CrossfadeError>(
                CrossfadeError::ZeroDuration,
            ),
            final(self).wf() || !old(self).wf(),
    {
        if transition_time == 0 {
            return Err(CrossfadeError::ZeroDuration);
        }
        *self = CrossFadePlayer { from: Some(from), to: Some(to), transition_time, elapsed: 0 };
        Ok(())
    }

    /// Drop any transition and return to idle.
    pub fn reset(&mut self)
        ensures
            *final(self) == CrossFadePlayer::spec_idle(),
            final(self).wf(),
    {
        *self = CrossFadePlayer { from: None, to: None, transition_time: 0, elapsed: 0 };
    }
}

impl Default for CrossFadePlayer {
    /// A fresh subject starts idle.
    fn default() -> (r: CrossFadePlayer)
        ensures
            r == CrossFadePlayer::spec_idle(),
            r.wf(),
    {
        CrossFadePlayer { from: None, to: None, transition_time: 0, elapsed: 0 }
    }
}

/// Numerator of the fade factor over denominator `transition_time`: the
/// elapsed time, clamped so the factor never exceeds one.
pub open spec fn spec_fade_numerator(elapsed: int, transition_time: int) -> int {
    if elapsed >= transition_time {
        transition_time
    } else {
        elapsed
    }
}

/// Clamped fade numerator for a tick, over denominator `transition_time`.
pub fn fade_numerator(elapsed: u64, transition_time: u64) -> (r: u64)
    ensures
        r == spec_fade_numerator(elapsed as int, transition_time as int),
{
    if elapsed >= transition_time {
        transition_time
    } else {
        elapsed
    }
}

/// Across consecutive ticks of one transition the elapsed time only grows,
/// so the fade factor `numerator / transition_time` is non-decreasing, and
/// it always stays within the unit interval.
pub proof fn lemma_fade_factor_monotonic(e1: int, e2: int, transition_time: int)
    requires
        0 <= e1 <= e2,
        transition_time > 0,
    ensures
        spec_fade_numerator(e1, transition_time) <= spec_fade_numerator(e2, transition_time),
        0 <= spec_fade_numerator(e1, transition_time) <= transition_time,
        0 <= spec_fade_numerator(e2, transition_time) <= transition_time,
{
}

/// Requesting a crossfade overwrites unconditionally.  `crossfade`
/// promises that an accepted request leaves `spec_crossfade_state`, an
/// expression over the request alone, so any transition in progress is
/// discarded; this lemma records what that state is: the newly supplied
/// clips and duration, with elapsed time restarted at zero.
pub proof fn lemma_overwrite_semantics(from: usize, to: usize, transition_time: u64)
    requires
        transition_time > 0,
    ensures
        spec_crossfade_state(from, to, transition_time).spec_elapsed() == 0,
        spec_crossfade_state(from, to, transition_time).spec_from() == Some(from),
        spec_crossfade_state(from, to, transition_time).spec_to() == Some(to),
        spec_crossfade_state(from, to, transition_time).spec_transition_time()
            == transition_time,
{
}

} // verus!
