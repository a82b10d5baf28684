//! Frame-based animations and the counter that steps through their frames.

pub mod sunny;

use vstd::prelude::*;

verus! {

/// An animation made of frames, each a list of text rows.
pub trait Animation {
    /// The frames, in order.
    spec fn frames(&self) -> Seq<Seq<String>>;

    /// Frame `frame_number`, counted round and round the frames.
    fn get_frame(&self, frame_number: usize) -> (r: &[String])
        requires
            self.frames().len() > 0,
        ensures
            r@ == self.frames()[(frame_number as int) % (self.frames().len() as int)],
    ;

    fn frame_count(&self) -> (r: usize)
        ensures
            r == self.frames().len(),
    ;
}

/// Which frame of an animation is showing.
pub struct AnimationController {
    current_frame: usize,
}

impl AnimationController {
    #[verifier::type_invariant]
    spec fn inv(self) -> bool {
        self.current_frame < usize::MAX
    }

    pub closed spec fn frame(self) -> nat {
        self.current_frame as nat
    }

    /// A counter at the first frame.
    pub fn new() -> (c: Self)
        ensures
            c.frame() == 0,
    {
        AnimationController { current_frame: 0 }
    }

    /// Steps to the next frame of `animation`, back to the first after the last, and
    /// returns it.
    pub fn next_frame<A: Animation>(&mut self, animation: &A) -> (r: usize)
        requires
            animation.frames().len() > 0,
        ensures
            r == ((old(self).frame() + 1) as int) % (animation.frames().len() as int),
            final(self).frame() == r,
            r < animation.frames().len(),
    {
        proof {
            use_type_invariant(&*self);
        }
        let count = animation.frame_count();
        let next = (self.current_frame + 1) % count;
        self.current_frame = next;
        next
    }

    pub fn current_frame(&self) -> (r: usize)
        ensures
            r == self.frame(),
    {
        self.current_frame
    }

    /// Back to the first frame.
    pub fn reset(&mut self)
        ensures
            final(self).frame() == 0,
    {
        self.current_frame = 0;
    }
}

impl Default for AnimationController {
    fn default() -> (c: Self)
        ensures
            c.frame() == 0,
    {
        AnimationController::new()
    }
}

} // verus!
