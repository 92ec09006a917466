//! Animation state of the slime's sprite sheet.
use vstd::prelude::*;

use crate::animation::{
    atlas_index, frame_count, frame_interval, step_sound_due, MovementAnimationState,
    SpriteAnimation, SLIME_WALKING_FRAMES,
};

verus! {

/// Animation state of the slime: the shared cycle over a sheet with `SLIME_WALKING_FRAMES`
/// walking frames.
pub struct SlimeAnimation {
    animation: SpriteAnimation,
}

impl SlimeAnimation {
    pub closed spec fn spec_animation(&self) -> SpriteAnimation {
        self.animation
    }

    pub open spec fn wf(&self) -> bool {
        &&& self.spec_animation().wf()
        &&& self.spec_animation().spec_walking_frames() == SLIME_WALKING_FRAMES
    }

    /// The first idle frame.
    pub fn idling() -> (r: SlimeAnimation)
        ensures
            r.wf(),
            r.spec_animation().is_start_of(MovementAnimationState::Idling, SLIME_WALKING_FRAMES),
    {
        SlimeAnimation { animation: SpriteAnimation::start(MovementAnimationState::Idling, SLIME_WALKING_FRAMES) }
    }

    /// The first walking frame.
    pub fn walking() -> (r: SlimeAnimation)
        ensures
            r.wf(),
            r.spec_animation().is_start_of(MovementAnimationState::Walking, SLIME_WALKING_FRAMES),
    {
        SlimeAnimation { animation: SpriteAnimation::start(MovementAnimationState::Walking, SLIME_WALKING_FRAMES) }
    }

    /// A new animation starts idle.
    pub fn new() -> (r: SlimeAnimation)
        ensures
            r.wf(),
            r.spec_animation().is_start_of(MovementAnimationState::Idling, SLIME_WALKING_FRAMES),
    {
        Self::idling()
    }

    /// Advance by `delta` nanoseconds, as `SpriteAnimation::update_timer`.
    pub fn update_timer(&mut self, delta: u64)
        requires
            old(self).wf(),
        ensures
            final(self).wf(),
            final(self).spec_animation().spec_state() == old(self).spec_animation().spec_state(),
            ({
                let before = old(self).spec_animation();
                let after = final(self).spec_animation();
                &&& after.spec_timer().spec_finished() == (before.spec_timer().spec_elapsed() + delta
                    >= frame_interval(before.spec_state()))
                &&& after.spec_frame() == if after.spec_timer().spec_finished() {
                    (before.spec_frame() + 1) % frame_count(before.spec_state(), SLIME_WALKING_FRAMES)
                } else {
                    before.spec_frame()
                }
            }),
    {
        self.animation.update_timer(delta);
    }

    /// Switch to `state` from its first frame when it differs from the
    /// current state.
    pub fn update_state(&mut self, state: MovementAnimationState)
        requires
            old(self).wf(),
        ensures
            final(self).wf(),
            state == old(self).spec_animation().spec_state() ==> *final(self) == *old(self),
            state != old(self).spec_animation().spec_state()
                ==> final(self).spec_animation().is_start_of(state, SLIME_WALKING_FRAMES),
    {
        self.animation.update_state(state);
    }

    /// Whether the frame moved on during the last tick.
    pub fn changed(&self) -> (r: bool)
        ensures
            r == self.spec_animation().spec_timer().spec_finished(),
    {
        self.animation.changed()
    }

    /// The sprite's index in the texture atlas.
    pub fn get_atlas_index(&self) -> (r: usize)
        requires
            self.wf(),
        ensures
            r == atlas_index(
                self.spec_animation().spec_state(),
                self.spec_animation().spec_frame(),
            ),
    {
        self.animation.get_atlas_index()
    }

    pub fn get_frame(&self) -> (r: usize)
        ensures
            r == self.spec_animation().spec_frame(),
    {
        self.animation.get_frame()
    }

    pub fn get_state(&self) -> (r: MovementAnimationState)
        ensures
            r == self.spec_animation().spec_state(),
    {
        self.animation.get_state()
    }
}

/// The walking frames of the slime on which a step sound plays.
pub struct SlimeSoundFrames(Vec<usize>);

impl SlimeSoundFrames {
    pub closed spec fn spec_frames(&self) -> Seq<usize> {
        self.0@
    }

    /// The frames on which the slime's foot lands.
    pub fn new() -> (r: SlimeSoundFrames)
        ensures
            r.spec_frames() == seq![3usize],
    {
        let r = SlimeSoundFrames(vec![3]);
        assert(r.spec_frames() =~= seq![3usize]);
        r
    }

    pub fn get_frames(&self) -> (r: &Vec<usize>)
        ensures
            r@ == self.spec_frames(),
    {
        &self.0
    }

    /// Whether `animation` calls for a step sound on this tick.
    pub fn step_due(&self, animation: &SlimeAnimation) -> (r: bool)
        ensures
            r == (animation.spec_animation().spec_state() == MovementAnimationState::Walking
                && animation.spec_animation().spec_timer().spec_finished()
                && self.spec_frames().contains(animation.spec_animation().spec_frame() as usize)),
    {
        step_sound_due(&animation.animation, &self.0)
    }
}

} // verus!
