//! Which sprite animation the player character shows.
use vstd::prelude::*;
use crate::player::PlayerState;

verus! {

/// The parts of the frame that the animation depends on besides the character's state.
#[derive(PartialEq, Eq, Structural, Clone, Copy, Debug)]
pub struct AnimationCues {
    /// The level timer reads exactly zero.
    pub timer_empty: bool,
    /// The last hit was less than a second ago.
    pub recently_hurt: bool,
    /// The last throw was less than a fifth of a second ago.
    pub recently_threw: bool,
}

/// `f` when the sprite faces the camera, `b` when it faces away.
pub open spec fn spec_facing_front_part(s: PlayerState) -> Seq<char> {
    if s.facing_front { "f"@ } else { "b"@ }
}

/// `r` when the sprite faces right, `l` when it faces left.
pub open spec fn spec_facing_right_part(s: PlayerState) -> Seq<char> {
    if s.facing_right { "r"@ } else { "l"@ }
}

/// `_hammer` when an item is in hand, empty otherwise.
pub open spec fn spec_equipment_part(s: PlayerState) -> Seq<char> {
    if s.holding_item { "_hammer"@ } else { ""@ }
}

/// The name of the animation to show, by priority: out of time, hurt, throwing,
/// dashing, then walking or idling.
pub open spec fn spec_animation_name(s: PlayerState, cues: AnimationCues) -> Seq<char> {
    let fb = spec_facing_front_part(s);
    let rl = spec_facing_right_part(s);
    let equip = spec_equipment_part(s);
    if cues.timer_empty {
        "swoon_f"@ + rl
    } else if cues.recently_hurt {
        "hurt_"@ + fb + rl + equip
    } else if cues.recently_threw {
        "throw_"@ + fb + rl
    } else if s.is_dashing {
        "walk_"@ + fb + rl + equip
    } else if s.is_walking {
        "walk_"@ + fb + rl + equip
    } else {
        "idle_"@ + fb + rl + equip
    }
}

fn facing_front_part(s: &PlayerState) -> (r: &'static str)
    ensures
        r@ == spec_facing_front_part(*s),
{
    if s.facing_front { "f" } else { "b" }
}

fn facing_right_part(s: &PlayerState) -> (r: &'static str)
    ensures
        r@ == spec_facing_right_part(*s),
{
    if s.facing_right { "r" } else { "l" }
}

fn equipment_part(s: &PlayerState) -> (r: &'static str)
    ensures
        r@ == spec_equipment_part(*s),
{
    if s.holding_item { "_hammer" } else { "" }
}

/// The name of the animation that the character shows this frame.
pub fn animation_name(s: &PlayerState, cues: AnimationCues) -> (name: String)
    ensures
        name@ == spec_animation_name(*s, cues),
{
    let fb = facing_front_part(s);
    let rl = facing_right_part(s);
    let equip = equipment_part(s);
    if cues.timer_empty {
        let mut name = String::from_str("swoon_f");
        name.append(rl);
        name
    } else if cues.recently_hurt {
        let mut name = String::from_str("hurt_");
        name.append(fb);
        name.append(rl);
        name.append(equip);
        name
    } else if cues.recently_threw {
        let mut name = String::from_str("throw_");
        name.append(fb);
        name.append(rl);
        name
    } else {
        let mut name = if s.is_dashing || s.is_walking {
            String::from_str("walk_")
        } else {
            String::from_str("idle_")
        };
        name.append(fb);
        name.append(rl);
        name.append(equip);
        name
    }
}

/// The animation by priority, spelled out: the swoon when the timer reads zero; then
/// the hurt look; then the throw; then walking (also while dashing) or idling. Every
/// name but the swoon and the throw ends in `_hammer` exactly when an item is held.
pub proof fn lemma_animation_by_priority(s: PlayerState, cues: AnimationCues)
    ensures
        ({
            let fb = if s.facing_front { "f"@ } else { "b"@ };
            let rl = if s.facing_right { "r"@ } else { "l"@ };
            let equip = if s.holding_item { "_hammer"@ } else { ""@ };
            let name = spec_animation_name(s, cues);
            &&& cues.timer_empty ==> name == "swoon_f"@ + rl
            &&& (!cues.timer_empty && cues.recently_hurt) ==> name == "hurt_"@ + fb + rl + equip
            &&& (!cues.timer_empty && !cues.recently_hurt && cues.recently_threw) ==> name
                == "throw_"@ + fb + rl
            &&& (!cues.timer_empty && !cues.recently_hurt && !cues.recently_threw && (s.is_walking
                || s.is_dashing)) ==> name == "walk_"@ + fb + rl + equip
            &&& (!cues.timer_empty && !cues.recently_hurt && !cues.recently_threw && !s.is_walking
                && !s.is_dashing) ==> name == "idle_"@ + fb + rl + equip
        }),
{
}

} // verus!
