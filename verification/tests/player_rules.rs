use crabjam::player::{
    FramePlan, ItemCommand, PlayerState, Sign, Stick, DASH_COST, HURT_COST, PICKUP_COST,
    THROW_COST, USE_COST,
};
use crabjam::timekeeper::{TimeFlags, TimescaleControl, TimescaleStep};

fn stick(engaged: bool, may_turn: bool, horizontal: Sign, vertical: Sign) -> Stick {
    Stick { engaged, may_turn, horizontal, vertical }
}

#[test]
fn fresh_player_faces_right_and_front() {
    let s = PlayerState::new();
    assert!(s.facing_right && s.facing_front);
    assert!(!s.is_walking && !s.is_dashing && !s.holding_item && !s.has_died);
    assert!(!s.is_dashing());
}

#[test]
fn costs_in_seconds() {
    assert_eq!((HURT_COST, DASH_COST, USE_COST, THROW_COST, PICKUP_COST), (2, 2, 2, 2, 1));
}

#[test]
fn hurt_costs_two_seconds_unless_dashing() {
    let mut s = PlayerState::new();
    assert_eq!(s.hurt(), Some(2));
    let mut f = TimeFlags::new();
    assert_eq!(s.start_dash(&mut f, true), Some(2));
    assert_eq!(s.hurt(), None);
}

#[test]
fn frame_plan_when_time_is_up() {
    let mut s = PlayerState::new();
    s.is_walking = true;
    let before = s;
    assert_eq!(s.plan_frame(false), FramePlan { act: false, steer: false });
    assert_eq!(s, before);
}

#[test]
fn frame_plan_while_dashing_stops_walking() {
    let mut s = PlayerState::new();
    s.is_walking = true;
    s.is_dashing = true;
    assert_eq!(s.plan_frame(true), FramePlan { act: true, steer: false });
    assert!(!s.is_walking);
    assert!(s.is_dashing);
}

#[test]
fn frame_plan_normal() {
    let mut s = PlayerState::new();
    assert_eq!(s.plan_frame(true), FramePlan { act: true, steer: true });
    assert_eq!(s, PlayerState::new());
}

#[test]
fn steering_turns_and_walks() {
    let mut s = PlayerState::new();
    let mut f = TimeFlags::new();
    s.steer(&mut f, stick(true, true, Sign::Negative, Sign::Negative));
    assert!(s.is_walking && !s.facing_right && !s.facing_front);
    assert!(f.player_moving);
    s.steer(&mut f, stick(true, true, Sign::Positive, Sign::Zero));
    assert!(s.facing_right && !s.facing_front);
}

#[test]
fn steering_right_after_throw_keeps_facing() {
    let mut s = PlayerState::new();
    let mut f = TimeFlags::new();
    s.steer(&mut f, stick(true, false, Sign::Negative, Sign::Negative));
    assert!(s.is_walking && s.facing_right && s.facing_front);
    assert!(f.player_moving);
}

#[test]
fn releasing_stick_stops() {
    let mut s = PlayerState::new();
    let mut f = TimeFlags::new();
    s.steer(&mut f, stick(true, true, Sign::Zero, Sign::Zero));
    assert!(s.is_walking && f.player_moving);
    s.steer(&mut f, stick(false, true, Sign::Negative, Sign::Negative));
    assert!(!s.is_walking && !f.player_moving);
    assert!(s.facing_right && s.facing_front);
}

#[test]
fn dash_starts_once_and_ends_on_collision() {
    let mut s = PlayerState::new();
    let mut f = TimeFlags::new();
    assert_eq!(s.start_dash(&mut f, false), None);
    assert!(!s.is_dashing && !f.player_dashing);
    assert_eq!(s.start_dash(&mut f, true), Some(2));
    assert!(s.is_dashing && f.player_dashing);
    assert_eq!(s.start_dash(&mut f, true), None);
    assert!(!s.end_dash(&mut f, false));
    assert!(s.is_dashing && f.player_dashing);
    assert!(s.end_dash(&mut f, true));
    assert!(!s.is_dashing && !f.player_dashing);
    assert!(!s.end_dash(&mut f, true));
}

#[test]
fn item_commands() {
    let mut s = PlayerState::new();
    assert_eq!(s.item_command(false, false), ItemCommand::Idle);
    assert_eq!(s.item_command(true, false), ItemCommand::Idle);
    assert_eq!(s.item_command(true, true), ItemCommand::PickUp);
    s.holding_item = true;
    assert_eq!(s.item_command(true, true), ItemCommand::Use);
    assert_eq!(s.item_command(false, true), ItemCommand::Throw);
    assert_eq!(s.item_command(false, false), ItemCommand::Idle);
}

#[test]
fn use_costs_only_when_it_worked() {
    assert_eq!(PlayerState::use_cost(true), Some(2));
    assert_eq!(PlayerState::use_cost(false), None);
}

#[test]
fn pick_up_then_throw() {
    let mut s = PlayerState::new();
    assert_eq!(s.pick_up(false), None);
    assert!(!s.holding_item);
    assert_eq!(s.pick_up(true), Some(1));
    assert!(s.holding_item);
    assert_eq!(s.throw_item(false, false), 2);
    assert!(!s.holding_item && !s.facing_right && !s.facing_front);
    assert_eq!(s.pick_up(true), Some(1));
    assert_eq!(s.throw_item(true, false), 2);
    assert!(s.facing_right && !s.facing_front);
}

#[test]
fn death_happens_once_and_stays() {
    let mut s = PlayerState::new();
    assert!(!s.check_death(false));
    assert!(!s.has_died);
    assert!(s.check_death(true));
    assert!(s.has_died);
    assert!(!s.check_death(true));
    assert!(!s.check_death(false));
    assert!(s.has_died);
}

#[test]
fn footsteps_only_while_walking() {
    let mut s = PlayerState::new();
    assert!(!s.footstep_due(true));
    s.is_walking = true;
    assert!(s.footstep_due(true));
    assert!(!s.footstep_due(false));
}

#[test]
fn dash_flag_follows_a_whole_frame() {
    let mut s = PlayerState::new();
    let mut f = TimeFlags::new();
    for frame in 0..6 {
        let plan = s.plan_frame(true);
        if plan.steer {
            s.steer(&mut f, stick(true, true, Sign::Positive, Sign::Zero));
        }
        s.start_dash(&mut f, frame == 1);
        s.end_dash(&mut f, frame == 4);
        assert_eq!(f.player_dashing, s.is_dashing);
    }
}

#[test]
fn dash_slows_time_until_it_ends() {
    let mut s = PlayerState::new();
    let mut f = TimeFlags::new();
    let mut clock = TimescaleControl::new();
    assert!(matches!(clock.plan_step(&f), TimescaleStep::Approach { .. }));
    s.start_dash(&mut f, true);
    assert_eq!(clock.plan_step(&f), TimescaleStep::Pin { eighths: 1 });
    s.end_dash(&mut f, true);
    assert!(matches!(clock.plan_step(&f), TimescaleStep::Approach { .. }));
}

#[test]
fn the_dead_stay_dead() {
    let mut s = PlayerState::new();
    let mut f = TimeFlags::new();
    s.check_death(true);
    s.plan_frame(true);
    s.steer(&mut f, stick(true, true, Sign::Positive, Sign::Positive));
    s.start_dash(&mut f, true);
    s.end_dash(&mut f, true);
    s.pick_up(true);
    s.throw_item(true, true);
    s.check_death(false);
    assert!(s.has_died);
}
