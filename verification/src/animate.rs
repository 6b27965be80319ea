use vstd::prelude::*;

verus! {

/// The easing curves the interface animates with. Evaluating a curve is
/// floating-point work and happens outside this crate; here a curve is only
/// chosen and its frame counter kept.
#[derive(Clone, Copy, Debug, PartialEq, Eq, Structural)]
pub enum Animations {
    EaseInOutElastic,
    EaseInOutBack,
    EaseOutBounce,
    EaseInOutCirc,
}

/// A running animation: how many frames have elapsed of how many in total,
/// and which easing curve to draw with.
pub struct Animation {
    pub frames_elapsed: u32,
    pub total_frames: u32,
    pub animation: Animations,
}

impl Animation {
    /// The frame counter never runs past the total.
    pub open spec fn wf(&self) -> bool {
        self.frames_elapsed <= self.total_frames
    }

    /// A fresh animation at its first frame.
    pub fn new(animation: Animations, total_frames: u32) -> (r: Animation)
        ensures
            r.wf(),
            r.frames_elapsed == 0,
            r.total_frames == total_frames,
            r.animation == animation,
    {
        Animation { frames_elapsed: 0, total_frames, animation }
    }

    /// One frame of progress: reports the progress before this frame as a
    /// (elapsed, total) pair — the caller maps it through the easing curve —
    /// and advances the counter until it reaches the total, where it stays.
    pub fn advance(&mut self) -> (r: (u32, u32))
        requires
            old(self).wf(),
        ensures
            final(self).wf(),
            r == (old(self).frames_elapsed, old(self).total_frames),
            final(self).total_frames == old(self).total_frames,
            final(self).animation == old(self).animation,
            final(self).frames_elapsed as int == if old(self).frames_elapsed != old(
                self,
            ).total_frames {
                old(self).frames_elapsed + 1
            } else {
                old(self).frames_elapsed as int
            },
    {
        let r = (self.frames_elapsed, self.total_frames);
        if self.frames_elapsed != self.total_frames {
            self.frames_elapsed = self.frames_elapsed + 1;
        }
        r
    }

    /// Rewinds to the first frame.
    pub fn restart(&mut self)
        ensures
            final(self).wf(),
            final(self).frames_elapsed == 0,
            final(self).total_frames == old(self).total_frames,
            final(self).animation == old(self).animation,
    {
        self.frames_elapsed = 0;
    }
}

} // verus!
