use crabjam::animation::{animation_name, AnimationCues};
use crabjam::player::PlayerState;

fn cues(timer_empty: bool, recently_hurt: bool, recently_threw: bool) -> AnimationCues {
    AnimationCues { timer_empty, recently_hurt, recently_threw }
}

#[test]
fn idle_facing_front_right() {
    assert_eq!(animation_name(&PlayerState::new(), cues(false, false, false)), "idle_fr");
}

#[test]
fn walking_back_left_with_hammer() {
    let mut s = PlayerState::new();
    s.is_walking = true;
    s.facing_front = false;
    s.facing_right = false;
    s.holding_item = true;
    assert_eq!(animation_name(&s, cues(false, false, false)), "walk_bl_hammer");
}

#[test]
fn dashing_shows_walk() {
    let mut s = PlayerState::new();
    s.is_dashing = true;
    assert_eq!(animation_name(&s, cues(false, false, false)), "walk_fr");
}

#[test]
fn swoon_wins_over_everything() {
    let mut s = PlayerState::new();
    s.facing_front = false;
    s.facing_right = false;
    s.holding_item = true;
    s.is_dashing = true;
    assert_eq!(animation_name(&s, cues(true, true, true)), "swoon_fl");
}

#[test]
fn hurt_before_throw() {
    let mut s = PlayerState::new();
    s.holding_item = true;
    assert_eq!(animation_name(&s, cues(false, true, true)), "hurt_fr_hammer");
    assert_eq!(animation_name(&s, cues(false, false, true)), "throw_fr");
}
