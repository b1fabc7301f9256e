use vstd::prelude::*;
use bevy::time::Timer;
use core::time::Duration;
use crate::config::BulletTimer;
use crate::player_plug::PlayerActions;
use crate::timer::{
    timer_tick, timer_reset, timer_finished, timer_just_finished, timer_duration_nanos, once_running, ticked_once,
    ticked_finished, restarted_from,
};
use crate::custscene_public::timer_flags_clear;

verus! {

/// A sprite-sheet animation: its first and last frame, its speed, and the
/// timer between two frames.
pub struct AnimationConfig {
    pub first_index: usize,
    pub last_index: usize,
    pub fps: u8,
    pub frame_timer: Timer,
}

impl AnimationConfig {
    /// An animation from frame `first` to frame `last` at `fps` frames per
    /// second, timed by `frame_timer`.
    pub fn new(first: usize, last: usize, fps: u8, frame_timer: Timer) -> (a: AnimationConfig)
        ensures
            a.first_index == first,
            a.last_index == last,
            a.fps == fps,
            a.frame_timer == frame_timer,
    {
        AnimationConfig { first_index: first, last_index: last, fps, frame_timer }
    }
}

/// What the cannon does in a frame: fire a bullet, and move left (-1),
/// right (1) or not at all (0).
#[derive(Clone, Copy, Debug, PartialEq, Eq, Structural)]
pub struct CannonCommand {
    pub fire: bool,
    pub direction: i8,
}

/// The direction in which the pressed actions move the cannon: left and
/// right together cancel out.
pub open spec fn cannon_direction(actions: PlayerActions) -> i8 {
    ((if actions.move_right { 1int } else { 0int }) - (if actions.move_left { 1int } else { 0int })) as i8
}

/// The cannon stays put unless exactly one direction is pressed, and then
/// moves one step that way.
pub proof fn lemma_cannon_direction(actions: PlayerActions)
    ensures
        !actions.move_left && !actions.move_right ==> cannon_direction(actions) == 0,
        actions.move_left && !actions.move_right ==> cannon_direction(actions) == -1,
        actions.move_right && !actions.move_left ==> cannon_direction(actions) == 1,
        actions.move_left && actions.move_right ==> cannon_direction(actions) == 0,
{
}

/// One frame of the cannon: the bullet timer advances by `delta`; without a
/// player nothing else happens. With one, the cannon fires exactly when fire
/// is pressed and the ticked bullet timer is finished, which restarts the
/// timer, and moves as the pressed directions say.
pub fn cannon_move_system_player(
    bullet_timer: &mut BulletTimer,
    delta: Duration,
    player: Option<PlayerActions>,
) -> (command: Option<CannonCommand>)
    ensures
        player is None ==> command is None,
        player matches Some(p) ==> (command matches Some(c) && c.direction == cannon_direction(p)
            && (c.fire ==> p.fire)
            && (c.fire ==> timer_flags_clear(final(bullet_timer).0))
            && (!c.fire && p.fire ==> !timer_finished(final(bullet_timer).0))),
        player matches Some(p) ==> (command matches Some(c) && (!p.move_left && !p.move_right ==> c.direction == 0)
            && (p.move_left && !p.move_right ==> c.direction == -1)
            && (p.move_right && !p.move_left ==> c.direction == 1)
            && (p.move_left && p.move_right ==> c.direction == 0)),
        once_running(old(bullet_timer).0) ==> {
            let before = old(bullet_timer).0;
            let after = final(bullet_timer).0;
            let fired = command matches Some(c) && c.fire;
            &&& player matches Some(p) ==> fired == (p.fire && ticked_finished(before, delta))
            &&& fired ==> restarted_from(before, after)
            &&& !fired ==> ticked_once(before, after, delta)
        },
{
    let status = timer_tick(&mut bullet_timer.0, delta);
    match player {
        None => None,
        Some(p) => {
            let fire = p.fire && status.finished;
            if fire {
                timer_reset(&mut bullet_timer.0);
            }
            let right: i8 = if p.move_right { 1 } else { 0 };
            let left: i8 = if p.move_left { 1 } else { 0 };
            Some(CannonCommand { fire, direction: right - left })
        },
    }
}

/// The frame after `index` in an animation that loops from `first` to `last`.
pub open spec fn next_cannon_frame(first: usize, last: usize, index: usize) -> usize {
    if index >= last { first } else { (index + 1) as usize }
}

/// One frame of the cannon animation, which plays only while the cannon
/// moves: the frame timer advances by `delta`, and when it is finished and the
/// sprite has a frame, the next frame of the loop is returned and the timer
/// restarts. A cannon that does not move keeps its animation untouched.
pub fn execute_cannon_animations(
    animation_config: &mut AnimationConfig,
    delta: Duration,
    moving: bool,
    atlas_index: Option<usize>,
) -> (next: Option<usize>)
    ensures
        !moving ==> next is None && *final(animation_config) == *old(animation_config),
        atlas_index is None ==> next is None,
        moving && atlas_index is Some && next is None ==> !timer_finished(final(animation_config).frame_timer),
        next is Some ==> !timer_finished(final(animation_config).frame_timer)
            && !timer_just_finished(final(animation_config).frame_timer),
        timer_duration_nanos(final(animation_config).frame_timer) == timer_duration_nanos(
            old(animation_config).frame_timer,
        ),
        next matches Some(i) ==> moving && (atlas_index matches Some(a)
            && i == next_cannon_frame(old(animation_config).first_index, old(animation_config).last_index, a)),
        next matches Some(i) ==> (atlas_index matches Some(a) && (a >= old(animation_config).last_index ==> i
            == old(animation_config).first_index) && (a < old(animation_config).last_index ==> i == a + 1)),
        moving && once_running(old(animation_config).frame_timer) && !ticked_finished(old(animation_config).frame_timer, delta)
            ==> next is None,
        final(animation_config).first_index == old(animation_config).first_index,
        final(animation_config).last_index == old(animation_config).last_index,
        final(animation_config).fps == old(animation_config).fps,
        moving && once_running(old(animation_config).frame_timer) ==> {
            let before = old(animation_config).frame_timer;
            let after = final(animation_config).frame_timer;
            &&& next == (match atlas_index {
                Some(a) => if ticked_finished(before, delta) {
                    Some(next_cannon_frame(old(animation_config).first_index, old(animation_config).last_index, a))
                } else {
                    None::<usize>
                },
                None => None::<usize>,
            })
            &&& next is Some ==> restarted_from(before, after)
            &&& next is None ==> ticked_once(before, after, delta)
        },
{
    if !moving {
        return None;
    }
    let status = timer_tick(&mut animation_config.frame_timer, delta);
    match atlas_index {
        Some(index) => {
            if status.finished {
                let next_index = if index >= animation_config.last_index {
                    animation_config.first_index
                } else {
                    index + 1
                };
                timer_reset(&mut animation_config.frame_timer);
                Some(next_index)
            } else {
                None
            }
        },
        None => None,
    }
}

/// The `n`-th frame of the cannon animation from `index`.
pub open spec fn cannon_frame_after(first: usize, last: usize, index: usize, n: nat) -> usize
    decreases n,
{
    if n == 0 {
        index
    } else {
        next_cannon_frame(first, last, cannon_frame_after(first, last, index, (n - 1) as nat))
    }
}

/// The cannon animation stays between its first and last frame, goes up one
/// frame at a time, and comes back to its first frame after one frame per
/// picture of the loop.
pub proof fn lemma_cannon_frames_loop(first: usize, last: usize, n: nat)
    requires
        first <= last,
    ensures
        n <= last - first ==> cannon_frame_after(first, last, first, n) == first + n,
        n <= last - first + 1 ==> first <= cannon_frame_after(first, last, first, n) <= last,
        cannon_frame_after(first, last, first, (last - first + 1) as nat) == first,
    decreases n,
{
    if n > 0 {
        lemma_cannon_frames_loop(first, last, (n - 1) as nat);
    }
    lemma_cannon_frames_prefix(first, last, (last - first) as nat);
}

/// Frames climb one by one from the first frame up to the last.
proof fn lemma_cannon_frames_prefix(first: usize, last: usize, n: nat)
    requires
        first <= last,
        n <= last - first,
    ensures
        cannon_frame_after(first, last, first, n) == first + n,
    decreases n,
{
    if n > 0 {
        lemma_cannon_frames_prefix(first, last, (n - 1) as nat);
    }
}

}
