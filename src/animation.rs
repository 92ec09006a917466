//! Sprite animation state for characters: which frame shows, when it moves
//! on, and when a step sound is due.
use vstd::prelude::*;

use crate::timer::RepeatingTimer;

pub mod npc;
pub mod player;

verus! {

/// Whether a character stands still or walks.
#[derive(Clone, Copy, Debug, PartialEq, Eq, Structural)]
pub enum MovementAnimationState {
    Idling,
    Walking,
}

/// Number of idle frames.
pub const IDLE_FRAMES: usize = 1;

/// Duration of each idle frame, in nanoseconds.
pub const IDLE_INTERVAL: u64 = 500_000_000;

/// Duration of each walking frame, in nanoseconds.
pub const WALKING_INTERVAL: u64 = 100_000_000;

/// Number of walking frames of the slime.
pub const SLIME_WALKING_FRAMES: usize = 3;

/// Number of walking frames of the player.
pub const PLAYER_WALKING_FRAMES: usize = 8;

/// Frames in the cycle of `state`, for a sheet with `walking` walking frames.
pub open spec fn frame_count(state: MovementAnimationState, walking: usize) -> int {
    match state {
        MovementAnimationState::Idling => IDLE_FRAMES as int,
        MovementAnimationState::Walking => walking as int,
    }
}

/// Frame duration of `state`.
pub open spec fn frame_interval(state: MovementAnimationState) -> int {
    match state {
        MovementAnimationState::Idling => IDLE_INTERVAL as int,
        MovementAnimationState::Walking => WALKING_INTERVAL as int,
    }
}

/// Index in the texture atlas of `frame` of `state`: idle frames come first,
/// walking frames follow the single idle frame.
pub open spec fn atlas_index(state: MovementAnimationState, frame: int) -> int {
    match state {
        MovementAnimationState::Idling => frame,
        MovementAnimationState::Walking => 1 + frame,
    }
}

/// The animation cycle shared by every character sprite sheet.
pub struct SpriteAnimation {
    timer: RepeatingTimer,
    frame: usize,
    state: MovementAnimationState,
    walking_frames: usize,
}

impl SpriteAnimation {
    pub closed spec fn spec_frame(&self) -> int {
        self.frame as int
    }

    pub closed spec fn spec_state(&self) -> MovementAnimationState {
        self.state
    }

    pub closed spec fn spec_walking_frames(&self) -> usize {
        self.walking_frames
    }

    pub closed spec fn spec_timer(&self) -> RepeatingTimer {
        self.timer
    }

    /// The frame lies in its cycle and the timer runs at the state's pace.
    pub closed spec fn wf(&self) -> bool {
        &&& self.timer.wf()
        &&& 0 < self.walking_frames
        &&& self.frame < frame_count(self.state, self.walking_frames)
        &&& self.timer.spec_interval() == frame_interval(self.state)
    }

    /// The first frame of `state`, with its timer just started.
    pub open spec fn is_start_of(&self, state: MovementAnimationState, walking: usize) -> bool {
        &&& self.wf()
        &&& self.spec_state() == state
        &&& self.spec_frame() == 0
        &&& self.spec_walking_frames() == walking
        &&& self.spec_timer().spec_elapsed() == 0
        &&& !self.spec_timer().spec_finished()
    }

    /// Start the cycle of `state` at its first frame.
    pub fn start(state: MovementAnimationState, walking_frames: usize) -> (r: SpriteAnimation)
        requires
            0 < walking_frames,
        ensures
            r.is_start_of(state, walking_frames),
    {
        let interval = match state {
            MovementAnimationState::Idling => IDLE_INTERVAL,
            MovementAnimationState::Walking => WALKING_INTERVAL,
        };
        SpriteAnimation { timer: RepeatingTimer::new(interval), frame: 0, state, walking_frames }
    }

    /// Advance the timer by `delta` nanoseconds; when it fires, move to the
    /// next frame of the cycle.
    pub fn update_timer(&mut self, delta: u64)
        requires
            old(self).wf(),
        ensures
            final(self).wf(),
            final(self).spec_state() == old(self).spec_state(),
            final(self).spec_walking_frames() == old(self).spec_walking_frames(),
            final(self).spec_timer().spec_finished() == (old(self).spec_timer().spec_elapsed()
                + delta >= frame_interval(old(self).spec_state())),
            final(self).spec_frame() == if final(self).spec_timer().spec_finished() {
                (old(self).spec_frame() + 1) % frame_count(
                    old(self).spec_state(),
                    old(self).spec_walking_frames(),
                )
            } else {
                old(self).spec_frame()
            },
    {
        self.timer.tick(delta);
        if !self.timer.is_finished() {
            return;
        }
        let count = match self.state {
            MovementAnimationState::Idling => IDLE_FRAMES,
            MovementAnimationState::Walking => self.walking_frames,
        };
        self.frame = (self.frame + 1) % count;
    }

    /// Switch to the cycle of `state`, from its first frame, when it differs
    /// from the current one; otherwise keep going.
    pub fn update_state(&mut self, state: MovementAnimationState)
        requires
            old(self).wf(),
        ensures
            final(self).wf(),
            state == old(self).spec_state() ==> *final(self) == *old(self),
            state != old(self).spec_state() ==> final(self).is_start_of(
                state,
                old(self).spec_walking_frames(),
            ),
    {
        if self.state != state {
            *self = SpriteAnimation::start(state, self.walking_frames);
        }
    }

    /// Whether the frame moved on during the last tick.
    pub fn changed(&self) -> (r: bool)
        ensures
            r == self.spec_timer().spec_finished(),
    {
        self.timer.is_finished()
    }

    /// The sprite's index in the texture atlas.
    pub fn get_atlas_index(&self) -> (r: usize)
        requires
            self.wf(),
        ensures
            r == atlas_index(self.spec_state(), self.spec_frame()),
    {
        match self.state {
            MovementAnimationState::Idling => self.frame,
            MovementAnimationState::Walking => 1 + self.frame,
        }
    }

    pub fn get_frame(&self) -> (r: usize)
        ensures
            r == self.spec_frame(),
    {
        self.frame
    }

    pub fn get_state(&self) -> (r: MovementAnimationState)
        ensures
            r == self.spec_state(),
    {
        self.state
    }
}

/// Whether a step sound is due: the character walks, its frame moved on this
/// tick, and the new frame is one of `sound_frames`.
pub fn step_sound_due(animation: &SpriteAnimation, sound_frames: &Vec<usize>) -> (r: bool)
    ensures
        r == (animation.spec_state() == MovementAnimationState::Walking
            && animation.spec_timer().spec_finished() && sound_frames@.contains(
            animation.spec_frame() as usize,
        )),
{
    if animation.get_state() != MovementAnimationState::Walking || !animation.changed() {
        return false;
    }
    let frame = animation.get_frame();
    let mut i: usize = 0;
    while i < sound_frames.len()
        invariant
            i <= sound_frames.len(),
            frame as int == animation.spec_frame(),
            animation.spec_state() == MovementAnimationState::Walking,
            animation.spec_timer().spec_finished(),
            forall|k: int| 0 <= k < i ==> sound_frames@[k] != frame,
        decreases sound_frames.len() - i,
    {
        if sound_frames[i] == frame {
            assert(sound_frames@[i as int] == animation.spec_frame() as usize);
            return true;
        }
        i += 1;
    }
    false
}

} // verus!
