//! What the player character decides each frame.
//!
//! The character's positions, velocities and times stay with the engine; the
//! decisions here read them as flags and signs, and answer with the next state
//! and with the seconds to take off the level timer.
use vstd::prelude::*;
use crate::timekeeper::{TimeFlags, TimescaleStep, spec_timescale_step};

verus! {

/// Seconds that taking a hit costs.
pub const HURT_COST: u32 = 2;

/// Seconds that starting a dash costs.
pub const DASH_COST: u32 = 2;

/// Seconds that a successful use of the held item costs.
pub const USE_COST: u32 = 2;

/// Seconds that throwing the held item costs.
pub const THROW_COST: u32 = 2;

/// Seconds that picking an item up costs.
pub const PICKUP_COST: u32 = 1;

/// The sign of one component of a direction.
#[derive(PartialEq, Eq, Structural, Clone, Copy, Debug)]
pub enum Sign {
    Negative,
    Zero,
    Positive,
}

/// The movement input of one frame, as the decisions read it.
#[derive(PartialEq, Eq, Structural, Clone, Copy, Debug)]
pub struct Stick {
    /// The stick is pushed far enough to walk.
    pub engaged: bool,
    /// Enough time has passed since the last throw for the sprite to turn.
    pub may_turn: bool,
    /// Left (negative) or right (positive).
    pub horizontal: Sign,
    /// Away from the camera (negative) or toward it (positive).
    pub vertical: Sign,
}

/// Which parts of a physics frame run.
#[derive(PartialEq, Eq, Structural, Clone, Copy, Debug)]
pub struct FramePlan {
    /// Aiming, dashing and the item actions run.
    pub act: bool,
    /// The stick moves the character.
    pub steer: bool,
}

/// What the held-item input asks for in a frame.
#[derive(PartialEq, Eq, Structural, Clone, Copy, Debug)]
pub enum ItemCommand {
    /// Use the held item.
    Use,
    /// Throw the held item along the aim.
    Throw,
    /// Look for an item in reach to pick up.
    PickUp,
    /// Nothing.
    Idle,
}

/// The discrete state of the player character.
#[derive(PartialEq, Eq, Structural, Clone, Copy, Debug)]
pub struct PlayerState {
    pub is_walking: bool,
    pub is_dashing: bool,
    pub facing_right: bool,
    pub facing_front: bool,
    pub holding_item: bool,
    pub has_died: bool,
}

/// The facing after a turn along one axis: a zero component keeps it.
pub open spec fn spec_turn(facing_positive: bool, sign: Sign) -> bool {
    match sign {
        Sign::Positive => true,
        Sign::Negative => false,
        Sign::Zero => facing_positive,
    }
}

fn turn(facing_positive: bool, sign: Sign) -> (r: bool)
    ensures
        r == spec_turn(facing_positive, sign),
{
    match sign {
        Sign::Positive => true,
        Sign::Negative => false,
        Sign::Zero => facing_positive,
    }
}

impl PlayerState {
    /// A fresh character: facing right and toward the camera, standing, empty-handed, alive.
    pub open spec fn spec_new() -> PlayerState {
        PlayerState {
            is_walking: false,
            is_dashing: false,
            facing_right: true,
            facing_front: true,
            holding_item: false,
            has_died: false,
        }
    }

    pub fn new() -> (s: Self)
        ensures
            s == Self::spec_new(),
    {
        PlayerState {
            is_walking: false,
            is_dashing: false,
            facing_right: true,
            facing_front: true,
            holding_item: false,
            has_died: false,
        }
    }

    /// Is the character dashing?
    pub fn is_dashing(&self) -> (r: bool)
        ensures
            r == self.is_dashing,
    {
        self.is_dashing
    }

    /// The seconds a hit costs: none while dashing.
    pub open spec fn spec_hurt_cost(self) -> Option<u32> {
        if self.is_dashing { None } else { Some(HURT_COST) }
    }

    /// Takes a hit. `None` when the dash makes the character untouchable; otherwise
    /// the seconds to take off the timer (the caller also notes the time of the hit).
    pub fn hurt(&self) -> (cost: Option<u32>)
        ensures
            cost == self.spec_hurt_cost(),
    {
        if self.is_dashing { None } else { Some(HURT_COST) }
    }

    /// The plan of a physics frame and the state after it is made.
    pub open spec fn spec_plan_frame(self, timer_running: bool) -> (PlayerState, FramePlan) {
        if !timer_running {
            (self, FramePlan { act: false, steer: false })
        } else if self.is_dashing {
            (PlayerState { is_walking: false, ..self }, FramePlan { act: true, steer: false })
        } else {
            (self, FramePlan { act: true, steer: true })
        }
    }

    /// Plans a physics frame: with the timer run out nothing but the animation runs;
    /// a dashing character does not steer and stops walking.
    pub fn plan_frame(&mut self, timer_running: bool) -> (plan: FramePlan)
        ensures
            (*final(self), plan) == old(self).spec_plan_frame(timer_running),
    {
        if !timer_running {
            FramePlan { act: false, steer: false }
        } else if self.is_dashing {
            self.is_walking = false;
            FramePlan { act: true, steer: false }
        } else {
            FramePlan { act: true, steer: true }
        }
    }

    /// The state and flags after steering with `stick`.
    pub open spec fn spec_steer(self, flags: TimeFlags, stick: Stick) -> (PlayerState, TimeFlags) {
        if stick.engaged {
            let s = if stick.may_turn {
                PlayerState {
                    is_walking: true,
                    facing_right: spec_turn(self.facing_right, stick.horizontal),
                    facing_front: spec_turn(self.facing_front, stick.vertical),
                    ..self
                }
            } else {
                PlayerState { is_walking: true, ..self }
            };
            (s, TimeFlags { player_moving: true, ..flags })
        } else {
            (PlayerState { is_walking: false, ..self }, TimeFlags { player_moving: false, ..flags })
        }
    }

    /// Steers: an engaged stick makes the character walk, and turns the sprite toward
    /// each nonzero component when it may turn; a released stick stops it. The
    /// moving flag follows the walking.
    pub fn steer(&mut self, flags: &mut TimeFlags, stick: Stick)
        ensures
            (*final(self), *final(flags)) == old(self).spec_steer(*old(flags), stick),
    {
        if stick.engaged {
            self.is_walking = true;
            if stick.may_turn {
                self.facing_right = turn(self.facing_right, stick.horizontal);
                self.facing_front = turn(self.facing_front, stick.vertical);
            }
            flags.player_moving = true;
        } else {
            flags.player_moving = false;
            self.is_walking = false;
        }
    }

    /// The state, flags and cost after the dash input of a frame.
    pub open spec fn spec_start_dash(self, flags: TimeFlags, dash_pressed: bool) -> (
        PlayerState,
        TimeFlags,
        Option<u32>,
    ) {
        if !self.is_dashing && dash_pressed {
            (
                PlayerState { is_dashing: true, ..self },
                TimeFlags { player_dashing: true, ..flags },
                Some(DASH_COST),
            )
        } else {
            (self, flags, None)
        }
    }

    /// Starts a dash when asked and not dashing yet. Returns the seconds it costs,
    /// `None` when no dash starts.
    pub fn start_dash(&mut self, flags: &mut TimeFlags, dash_pressed: bool) -> (cost: Option<u32>)
        ensures
            (*final(self), *final(flags), cost) == old(self).spec_start_dash(*old(flags), dash_pressed),
    {
        if !self.is_dashing && dash_pressed {
            self.is_dashing = true;
            flags.player_dashing = true;
            Some(DASH_COST)
        } else {
            None
        }
    }

    /// The state, flags and answer after a frame's collision test.
    pub open spec fn spec_end_dash(self, flags: TimeFlags, collided: bool) -> (
        PlayerState,
        TimeFlags,
        bool,
    ) {
        if collided && self.is_dashing {
            (PlayerState { is_dashing: false, ..self }, TimeFlags { player_dashing: false, ..flags }, true)
        } else {
            (self, flags, false)
        }
    }

    /// Ends a dash that runs into something. Returns whether it ended (the caller
    /// then bounces the character back and notes the time of the dash).
    pub fn end_dash(&mut self, flags: &mut TimeFlags, collided: bool) -> (ended: bool)
        ensures
            (*final(self), *final(flags), ended) == old(self).spec_end_dash(*old(flags), collided),
    {
        if collided && self.is_dashing {
            self.is_dashing = false;
            flags.player_dashing = false;
            true
        } else {
            false
        }
    }

    /// What the item input asks for.
    pub open spec fn spec_item_command(self, attack_pressed: bool, use_pressed: bool) -> ItemCommand {
        if self.holding_item {
            if attack_pressed {
                ItemCommand::Use
            } else if use_pressed {
                ItemCommand::Throw
            } else {
                ItemCommand::Idle
            }
        } else if use_pressed {
            ItemCommand::PickUp
        } else {
            ItemCommand::Idle
        }
    }

    /// Reads the item input: with an item in hand, attack uses it and the item key
    /// throws it; with empty hands the item key looks for one to pick up.
    pub fn item_command(&self, attack_pressed: bool, use_pressed: bool) -> (command: ItemCommand)
        ensures
            command == self.spec_item_command(attack_pressed, use_pressed),
    {
        if self.holding_item {
            if attack_pressed {
                ItemCommand::Use
            } else if use_pressed {
                ItemCommand::Throw
            } else {
                ItemCommand::Idle
            }
        } else if use_pressed {
            ItemCommand::PickUp
        } else {
            ItemCommand::Idle
        }
    }

    /// The seconds that using the item costs: only a use that took effect costs.
    pub fn use_cost(took_effect: bool) -> (cost: Option<u32>)
        ensures
            cost == (if took_effect { Some(USE_COST) } else { None::<u32> }),
    {
        if took_effect { Some(USE_COST) } else { None }
    }

    /// The state after throwing the held item with the aim pointing right
    /// (`aim_right`, its horizontal component not negative) and toward the camera
    /// (`aim_front`, its vertical component not negative).
    pub open spec fn spec_throw(self, aim_right: bool, aim_front: bool) -> PlayerState {
        PlayerState { holding_item: false, facing_right: aim_right, facing_front: aim_front, ..self }
    }

    /// Throws the held item: the hands empty and the sprite turns along the aim.
    /// Returns the seconds it costs.
    pub fn throw_item(&mut self, aim_right: bool, aim_front: bool) -> (cost: u32)
        requires
            old(self).holding_item,
        ensures
            *final(self) == old(self).spec_throw(aim_right, aim_front),
            cost == THROW_COST,
    {
        self.holding_item = false;
        self.facing_right = aim_right;
        self.facing_front = aim_front;
        THROW_COST
    }

    /// The state after a pick-up, with `found` telling whether an item was in reach.
    pub open spec fn spec_pick_up(self, found: bool) -> PlayerState {
        PlayerState { holding_item: found, ..self }
    }

    /// Picks up the item found in reach, if any. Returns the seconds it costs,
    /// `None` when nothing was in reach.
    pub fn pick_up(&mut self, found: bool) -> (cost: Option<u32>)
        requires
            !old(self).holding_item,
        ensures
            *final(self) == old(self).spec_pick_up(found),
            cost == (if found { Some(PICKUP_COST) } else { None::<u32> }),
    {
        if found {
            self.holding_item = true;
            Some(PICKUP_COST)
        } else {
            None
        }
    }

    /// The state after checking whether the timer has run out.
    pub open spec fn spec_check_death(self, timer_expired: bool) -> PlayerState {
        PlayerState { has_died: self.has_died || timer_expired, ..self }
    }

    /// Notes the death of the character when the timer has run out. Returns whether
    /// it died just now (the caller then switches the sprite to its ghost look).
    pub fn check_death(&mut self, timer_expired: bool) -> (died_now: bool)
        ensures
            *final(self) == old(self).spec_check_death(timer_expired),
            died_now == (timer_expired && !old(self).has_died),
    {
        if timer_expired && !self.has_died {
            self.has_died = true;
            true
        } else {
            false
        }
    }

    /// Whether a footstep sounds: only while walking, once a stride is complete.
    pub fn footstep_due(&self, stride_complete: bool) -> (due: bool)
        ensures
            due == (self.is_walking && stride_complete),
    {
        self.is_walking && stride_complete
    }
}


/// The timekeeper's dashing flag follows the character's dash: when they agree
/// before any of the character's decisions, they agree after it.
pub proof fn lemma_dash_flag_follows_dash(
    s: PlayerState,
    flags: TimeFlags,
    timer_running: bool,
    stick: Stick,
    dash_pressed: bool,
    collided: bool,
    aim_right: bool,
    aim_front: bool,
    found: bool,
    timer_expired: bool,
)
    requires
        flags.player_dashing == s.is_dashing,
    ensures
        flags.player_dashing == s.spec_plan_frame(timer_running).0.is_dashing,
        s.spec_steer(flags, stick).1.player_dashing == s.spec_steer(flags, stick).0.is_dashing,
        s.spec_start_dash(flags, dash_pressed).1.player_dashing == s.spec_start_dash(
            flags,
            dash_pressed,
        ).0.is_dashing,
        s.spec_end_dash(flags, collided).1.player_dashing == s.spec_end_dash(flags, collided).0.is_dashing,
        flags.player_dashing == s.spec_throw(aim_right, aim_front).is_dashing,
        flags.player_dashing == s.spec_pick_up(found).is_dashing,
        flags.player_dashing == s.spec_check_death(timer_expired).is_dashing,
{
}

/// The timekeeper's moving flag says whether the character walks, right after it steers.
pub proof fn lemma_moving_flag_follows_steering(s: PlayerState, flags: TimeFlags, stick: Stick)
    ensures
        s.spec_steer(flags, stick).1.player_moving == s.spec_steer(flags, stick).0.is_walking,
        s.spec_steer(flags, stick).0.is_walking == stick.engaged,
{
}

/// Death is for good: no decision of the character brings it back.
pub proof fn lemma_death_is_permanent(
    s: PlayerState,
    flags: TimeFlags,
    timer_running: bool,
    stick: Stick,
    dash_pressed: bool,
    collided: bool,
    aim_right: bool,
    aim_front: bool,
    found: bool,
    timer_expired: bool,
)
    requires
        s.has_died,
    ensures
        s.spec_plan_frame(timer_running).0.has_died,
        s.spec_steer(flags, stick).0.has_died,
        s.spec_start_dash(flags, dash_pressed).0.has_died,
        s.spec_end_dash(flags, collided).0.has_died,
        s.spec_throw(aim_right, aim_front).has_died,
        s.spec_pick_up(found).has_died,
        s.spec_check_death(timer_expired).has_died,
{
}

/// The character dies exactly when the timer runs out or has run out before.
pub proof fn lemma_death_needs_expired_timer(s: PlayerState, timer_expired: bool)
    ensures
        s.spec_check_death(timer_expired).has_died <==> (s.has_died || timer_expired),
        s.spec_check_death(timer_expired).is_walking == s.is_walking,
        s.spec_check_death(timer_expired).is_dashing == s.is_dashing,
        s.spec_check_death(timer_expired).facing_right == s.facing_right,
        s.spec_check_death(timer_expired).facing_front == s.facing_front,
        s.spec_check_death(timer_expired).holding_item == s.holding_item,
{
}

/// A dash makes the character untouchable, and a dash cannot be started again
/// before it ends.
pub proof fn lemma_dash_protects(s: PlayerState, flags: TimeFlags, dash_pressed: bool)
    requires
        s.is_dashing,
    ensures
        s.spec_hurt_cost() is None,
        s.spec_start_dash(flags, dash_pressed) == (s, flags, None::<u32>),
{
}

/// The character carries at most one item: an item is used or thrown only when in
/// hand, and picked up only when the hands are empty.
pub proof fn lemma_one_item_at_a_time(s: PlayerState, attack_pressed: bool, use_pressed: bool)
    ensures
        s.spec_item_command(attack_pressed, use_pressed) == ItemCommand::Use ==> s.holding_item,
        s.spec_item_command(attack_pressed, use_pressed) == ItemCommand::Throw ==> s.holding_item,
        s.spec_item_command(attack_pressed, use_pressed) == ItemCommand::PickUp ==> !s.holding_item,
{
}

/// Once the timer has run out the character does nothing but animate.
pub proof fn lemma_expired_timer_stops_play(s: PlayerState)
    ensures
        s.spec_plan_frame(false) == (s, FramePlan { act: false, steer: false }),
{
}

/// Time crawls while the character dashes: with the flags following the dash, the
/// timekeeper pins the timescale exactly while the character is in a dash.
pub proof fn lemma_dash_slows_time(s: PlayerState, flags: TimeFlags, hacked: bool)
    requires
        flags.player_dashing == s.is_dashing,
    ensures
        (spec_timescale_step(flags, hacked) is Pin) <==> s.is_dashing,
{
}

/// A fresh character faces right and toward the camera, stands still, does not dash,
/// holds nothing and is alive.
pub proof fn lemma_fresh_character()
    ensures
        PlayerState::spec_new().facing_right,
        PlayerState::spec_new().facing_front,
        !PlayerState::spec_new().is_walking,
        !PlayerState::spec_new().is_dashing,
        !PlayerState::spec_new().holding_item,
        !PlayerState::spec_new().has_died,
{
}

/// A hit takes two seconds off the timer whenever the character is not dashing,
/// whatever it is walking, facing or holding, and nothing while it dashes.
pub proof fn lemma_hit_costs_two_seconds_unless_dashing(s: PlayerState)
    ensures
        !s.is_dashing ==> s.spec_hurt_cost() == Some(2u32),
        s.is_dashing ==> s.spec_hurt_cost() == None::<u32>,
{
}

/// Steering: an engaged stick makes the character walk and sets the moving flag; if
/// it may turn, each facing follows the sign of its component (positive turns right
/// or toward the camera, negative left or away) and stays on a zero component; if it
/// may not turn, the facing stays. A released stick stops the walk and clears the
/// moving flag, leaving the facing. Nothing else changes.
pub proof fn lemma_steering_follows_the_stick(s: PlayerState, flags: TimeFlags, stick: Stick)
    ensures
        ({
            let (t, g) = s.spec_steer(flags, stick);
            &&& t.is_walking == stick.engaged
            &&& g.player_moving == stick.engaged
            &&& g.player_dashing == flags.player_dashing
            &&& t.is_dashing == s.is_dashing
            &&& t.holding_item == s.holding_item
            &&& t.has_died == s.has_died
            &&& (stick.engaged && stick.may_turn && stick.horizontal == Sign::Positive) ==> t.facing_right
            &&& (stick.engaged && stick.may_turn && stick.horizontal == Sign::Negative) ==> !t.facing_right
            &&& (stick.engaged && stick.may_turn && stick.vertical == Sign::Positive) ==> t.facing_front
            &&& (stick.engaged && stick.may_turn && stick.vertical == Sign::Negative) ==> !t.facing_front
            &&& (!stick.engaged || !stick.may_turn || stick.horizontal == Sign::Zero) ==> t.facing_right == s.facing_right
            &&& (!stick.engaged || !stick.may_turn || stick.vertical == Sign::Zero) ==> t.facing_front == s.facing_front
        }),
{
}

/// Pressing dash while not dashing always starts a dash, whatever the character is
/// holding, walking or facing: it costs two seconds and both the character and the
/// flags are dashing, with nothing else changed. Otherwise nothing happens.
pub proof fn lemma_dash_starts_when_pressed(s: PlayerState, flags: TimeFlags, dash_pressed: bool)
    ensures
        ({
            let (t, g, cost) = s.spec_start_dash(flags, dash_pressed);
            &&& (!s.is_dashing && dash_pressed) ==> (cost == Some(2u32) && t.is_dashing && g.player_dashing)
            &&& !(!s.is_dashing && dash_pressed) ==> (cost == None::<u32> && t == s && g == flags)
            &&& t.is_walking == s.is_walking && t.facing_right == s.facing_right
            &&& t.facing_front == s.facing_front && t.holding_item == s.holding_item
            &&& t.has_died == s.has_died && g.player_moving == flags.player_moving
        }),
{
}

/// A collision ends a dash in progress: the character and the flags stop dashing and
/// the answer is yes; without a collision, or without a dash, nothing changes and the
/// answer is no.
pub proof fn lemma_dash_ends_on_collision(s: PlayerState, flags: TimeFlags, collided: bool)
    ensures
        ({
            let (t, g, ended) = s.spec_end_dash(flags, collided);
            &&& ended == (collided && s.is_dashing)
            &&& ended ==> (!t.is_dashing && !g.player_dashing)
            &&& !ended ==> (t == s && g == flags)
            &&& t.is_walking == s.is_walking && t.facing_right == s.facing_right
            &&& t.facing_front == s.facing_front && t.holding_item == s.holding_item
            &&& t.has_died == s.has_died && g.player_moving == flags.player_moving
        }),
{
}

/// The item keys: with empty hands the item key alone picks up, whatever attack does;
/// with an item in hand attack uses it, else the item key throws it; otherwise idle.
pub proof fn lemma_item_keys(s: PlayerState, attack_pressed: bool, use_pressed: bool)
    ensures
        !s.holding_item ==> (s.spec_item_command(attack_pressed, use_pressed) == ItemCommand::PickUp
            <==> use_pressed),
        !s.holding_item ==> (s.spec_item_command(attack_pressed, use_pressed) == ItemCommand::Idle
            <==> !use_pressed),
        s.holding_item ==> (s.spec_item_command(attack_pressed, use_pressed) == ItemCommand::Use
            <==> attack_pressed),
        s.holding_item ==> (s.spec_item_command(attack_pressed, use_pressed) == ItemCommand::Throw
            <==> (!attack_pressed && use_pressed)),
        s.holding_item ==> (s.spec_item_command(attack_pressed, use_pressed) == ItemCommand::Idle
            <==> (!attack_pressed && !use_pressed)),
{
}

/// Throwing empties the hands and turns the sprite along the aim, nothing else; picking
/// up fills the hands exactly when something was in reach, nothing else.
pub proof fn lemma_throw_and_pick_up(s: PlayerState, aim_right: bool, aim_front: bool, found: bool)
    ensures
        !s.spec_throw(aim_right, aim_front).holding_item,
        s.spec_throw(aim_right, aim_front).facing_right == aim_right,
        s.spec_throw(aim_right, aim_front).facing_front == aim_front,
        s.spec_throw(aim_right, aim_front).is_walking == s.is_walking,
        s.spec_throw(aim_right, aim_front).is_dashing == s.is_dashing,
        s.spec_throw(aim_right, aim_front).has_died == s.has_died,
        s.spec_pick_up(found).holding_item == found,
        s.spec_pick_up(found).is_walking == s.is_walking,
        s.spec_pick_up(found).is_dashing == s.is_dashing,
        s.spec_pick_up(found).facing_right == s.facing_right,
        s.spec_pick_up(found).facing_front == s.facing_front,
        s.spec_pick_up(found).has_died == s.has_died,
{
}

/// A frame with the timer running acts; it steers only when not dashing, and a dash
/// stops the walk. Planning changes nothing else.
pub proof fn lemma_frame_plan(s: PlayerState, timer_running: bool)
    ensures
        ({
            let (t, plan) = s.spec_plan_frame(timer_running);
            &&& plan.act == timer_running
            &&& plan.steer == (timer_running && !s.is_dashing)
            &&& t.is_walking == (s.is_walking && !(timer_running && s.is_dashing))
            &&& t.is_dashing == s.is_dashing && t.facing_right == s.facing_right
            &&& t.facing_front == s.facing_front && t.holding_item == s.holding_item
            &&& t.has_died == s.has_died
        }),
{
}

/// The timer costs, in seconds.
pub proof fn lemma_costs()
    ensures
        HURT_COST == 2,
        DASH_COST == 2,
        USE_COST == 2,
        THROW_COST == 2,
        PICKUP_COST == 1,
{
}

} // verus!
