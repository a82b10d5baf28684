//! The sun: two alternating frames (the drawing itself is painted by the renderer).

use vstd::prelude::*;

use super::Animation;
use crate::text::{chars_of, string_of};

verus! {

pub struct SunnyAnimation {
    frames: Vec<Vec<String>>,
}

/// A frame of one row holding `name`.
fn named_frame(name: &str) -> (f: Vec<String>)
    ensures
        f@.len() == 1,
        f@[0]@ == name@,
{
    let mut f: Vec<String> = Vec::new();
    f.push(string_of(&chars_of(name)));
    f
}

impl SunnyAnimation {
    /// The two frames, named `frame0` and `frame1`.
    pub fn new() -> (s: Self)
        ensures
            s.frames().len() == 2,
            s.frames()[0].len() == 1,
            s.frames()[0][0]@ == "frame0"@,
            s.frames()[1].len() == 1,
            s.frames()[1][0]@ == "frame1"@,
    {
        let mut frames: Vec<Vec<String>> = Vec::new();
        frames.push(named_frame("frame0"));
        frames.push(named_frame("frame1"));
        SunnyAnimation { frames }
    }
}

impl Animation for SunnyAnimation {
    closed spec fn frames(&self) -> Seq<Seq<String>> {
        self.frames@.map_values(|f: Vec<String>| f@)
    }

    fn get_frame(&self, frame_number: usize) -> (r: &[String]) {
        let i = frame_number % self.frames.len();
        self.frames[i].as_slice()
    }

    fn frame_count(&self) -> (r: usize) {
        self.frames.len()
    }
}

impl Default for SunnyAnimation {
    fn default() -> (s: Self)
        ensures
            s.frames().len() == 2,
    {
        SunnyAnimation::new()
    }
}

} // verus!
