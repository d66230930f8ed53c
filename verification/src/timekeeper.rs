//! Time dilation rules.
//!
//! Timescales are counted in eighths of real time: a timescale of
//! `TIMESCALE_UNIT` eighths runs the game at real speed.
use vstd::prelude::*;

verus! {

/// Eighths of real time in a timescale of one.
pub const TIMESCALE_UNIT: u32 = 8;

/// The timescale the game starts at, in eighths (a quarter of real time).
pub const INITIAL_TIMESCALE: u32 = 2;

/// The timescale that a dash pins the game to, in eighths.
pub const DASH_TIMESCALE: u32 = 1;

/// The timescale that the game settles toward while the player stands still, in eighths.
pub const IDLE_TIMESCALE: u32 = 2;

/// The timescale that the game settles toward while the player moves, in eighths.
pub const MOVING_TIMESCALE: u32 = 8;

/// How fast the timescale approaches its target, in eighths per real second.
pub const APPROACH_RATE: u32 = 32;

/// How fast the timescale approaches its target after a hack, in eighths per real second.
pub const HACKED_APPROACH_RATE: u32 = 16;

/// Gameplay flags that the player sets and the timekeeper reads.
#[derive(PartialEq, Eq, Structural, Clone, Copy, Debug)]
pub struct TimeFlags {
    /// Is the player moving right now?
    pub player_moving: bool,
    /// Is the player in the middle of a dash right now?
    pub player_dashing: bool,
}

impl TimeFlags {
    /// Neither moving nor dashing.
    pub fn new() -> (flags: Self)
        ensures
            !flags.player_moving,
            !flags.player_dashing,
    {
        TimeFlags { player_moving: false, player_dashing: false }
    }
}

/// What one update does to the current timescale.
#[derive(PartialEq, Eq, Structural, Clone, Copy, Debug)]
pub enum TimescaleStep {
    /// Set the current timescale to `eighths` at once, leaving the target as it is.
    Pin { eighths: u32 },
    /// Set the target to `resting_eighths` plus the bonus of a recent dash, capped at
    /// `ceiling_eighths`, and move the current timescale toward it by at most
    /// `rate_eighths` per real second of the frame.
    Approach { resting_eighths: u32, ceiling_eighths: u32, rate_eighths: u32 },
}

/// The step that an update takes, given the flags and whether the timescale was hacked.
pub open spec fn spec_timescale_step(flags: TimeFlags, hacked: bool) -> TimescaleStep {
    if flags.player_dashing {
        TimescaleStep::Pin { eighths: DASH_TIMESCALE }
    } else {
        TimescaleStep::Approach {
            resting_eighths: if flags.player_moving { MOVING_TIMESCALE } else { IDLE_TIMESCALE },
            ceiling_eighths: TIMESCALE_UNIT,
            rate_eighths: if hacked { HACKED_APPROACH_RATE } else { APPROACH_RATE },
        }
    }
}

/// Whether the timescale stays hacked through an update: a dash, or a timescale
/// that has reached its target, clears the hack.
pub open spec fn spec_hacked_after(flags: TimeFlags, hacked: bool, reached_target: bool) -> bool {
    hacked && !flags.player_dashing && !reached_target
}

/// The part of the timekeeper that decides how the timescale moves.
#[derive(PartialEq, Eq, Structural, Clone, Copy, Debug)]
pub struct TimescaleControl {
    /// Set when someone jumped the timescale by hand; slows the return to the target.
    pub is_hacked: bool,
}

impl TimescaleControl {
    /// Not hacked.
    pub fn new() -> (control: Self)
        ensures
            !control.is_hacked,
    {
        TimescaleControl { is_hacked: false }
    }

    /// Marks the timescale as jumped by hand. The caller sets the target to the new
    /// timescale and the current timescale halfway to it.
    pub fn hack_jump(&mut self)
        ensures
            final(self).is_hacked,
    {
        self.is_hacked = true;
    }

    /// Decides the first half of an update: how the current timescale moves.
    /// A dash clears the hack at once.
    pub fn plan_step(&mut self, flags: &TimeFlags) -> (step: TimescaleStep)
        ensures
            step == spec_timescale_step(*flags, old(self).is_hacked),
            final(self).is_hacked == (old(self).is_hacked && !flags.player_dashing),
    {
        if flags.player_dashing {
            self.is_hacked = false;
            TimescaleStep::Pin { eighths: DASH_TIMESCALE }
        } else {
            let resting_eighths = if flags.player_moving { MOVING_TIMESCALE } else { IDLE_TIMESCALE };
            let rate_eighths = if self.is_hacked { HACKED_APPROACH_RATE } else { APPROACH_RATE };
            TimescaleStep::Approach { resting_eighths, ceiling_eighths: TIMESCALE_UNIT, rate_eighths }
        }
    }

    /// Finishes an update: once the current timescale equals its target the hack is over.
    pub fn finish_step(&mut self, reached_target: bool)
        ensures
            final(self).is_hacked == (old(self).is_hacked && !reached_target),
    {
        if reached_target {
            self.is_hacked = false;
        }
    }
}

/// A dash pins the timescale to a single eighth, whatever else holds; otherwise the
/// timescale settles toward real speed while the player moves and a quarter of it
/// while the player stands, never above real speed.
pub proof fn lemma_timescale_targets(flags: TimeFlags, hacked: bool)
    ensures
        flags.player_dashing ==> spec_timescale_step(flags, hacked) == (TimescaleStep::Pin { eighths: DASH_TIMESCALE }),
        !flags.player_dashing ==> (spec_timescale_step(flags, hacked) matches TimescaleStep::Approach {
            resting_eighths,
            ceiling_eighths,
            ..
        } && resting_eighths <= ceiling_eighths && ceiling_eighths == TIMESCALE_UNIT && (
        resting_eighths == MOVING_TIMESCALE <==> flags.player_moving)),
{
}

/// A hack only slows the return to the target: it ends with a dash or once the
/// target is reached, and a hacked timescale approaches at half the usual rate.
pub proof fn lemma_hack_is_temporary(flags: TimeFlags, reached_target: bool)
    ensures
        flags.player_dashing ==> !spec_hacked_after(flags, true, reached_target),
        reached_target ==> !spec_hacked_after(flags, true, reached_target),
        !spec_hacked_after(flags, false, reached_target),
        HACKED_APPROACH_RATE * 2 == APPROACH_RATE,
{
}

/// The step in numbers: a dash pins the timescale to one eighth; otherwise it rests
/// at eight eighths while moving and two while standing, capped at eight, and moves
/// by thirty-two eighths per second, sixteen when hacked.
pub proof fn lemma_timescale_step_values(flags: TimeFlags, hacked: bool)
    ensures
        flags.player_dashing ==> spec_timescale_step(flags, hacked) == (TimescaleStep::Pin { eighths: 1 }),
        (!flags.player_dashing && flags.player_moving && !hacked) ==> spec_timescale_step(flags, hacked)
            == (TimescaleStep::Approach { resting_eighths: 8, ceiling_eighths: 8, rate_eighths: 32 }),
        (!flags.player_dashing && !flags.player_moving && !hacked) ==> spec_timescale_step(flags, hacked)
            == (TimescaleStep::Approach { resting_eighths: 2, ceiling_eighths: 8, rate_eighths: 32 }),
        (!flags.player_dashing && flags.player_moving && hacked) ==> spec_timescale_step(flags, hacked)
            == (TimescaleStep::Approach { resting_eighths: 8, ceiling_eighths: 8, rate_eighths: 16 }),
        (!flags.player_dashing && !flags.player_moving && hacked) ==> spec_timescale_step(flags, hacked)
            == (TimescaleStep::Approach { resting_eighths: 2, ceiling_eighths: 8, rate_eighths: 16 }),
        INITIAL_TIMESCALE == 2,
{
}

} // verus!
