//! Frame sequences: a fixed-length looping animation. Time is accumulated in
//! whole milliseconds; when the current frame's duration is exceeded the
//! sequence advances one frame, wrapping at the end.

use vstd::prelude::*;

use crate::sprite::{wf_cell, Cell};

verus! {

/// One animation frame: the cell it shows and how long it lasts.
#[derive(Clone, Copy, PartialEq, Eq, Structural, Debug)]
pub struct Frame {
    pub cell: Cell,
    pub duration_ms: u32,
}

impl Frame {
    pub fn new(cell: Cell, duration_ms: u32) -> (r: Frame)
        ensures
            r == (Frame { cell, duration_ms }),
    {
        Frame { cell, duration_ms }
    }
}

/// A looping animation over `N` frames.
#[derive(Clone, Copy, Debug)]
pub struct Sequence<const N: usize> {
    pub frames: [Frame; N],
    pub acc_time_ms: u64,
    pub current: usize,
}

impl<const N: usize> Sequence<N> {
    pub open spec fn wf(self) -> bool {
        &&& N > 0
        &&& self.current < N
        &&& forall|i: int| 0 <= i < N ==> wf_cell((#[trigger] self.frames@[i]).cell)
    }

    pub open spec fn spec_current_frame(self) -> Frame {
        self.frames@[self.current as int]
    }

    /// The sequence one update later: time advances by `delta_ms` (saturating
    /// at the accumulator's capacity), and the sequence steps at most one
    /// frame, wrapping to the first frame past the last.
    pub open spec fn spec_updated(self, delta_ms: u32) -> Sequence<N> {
        let acc0: int = if self.acc_time_ms + delta_ms > u64::MAX {
            u64::MAX as int
        } else {
            self.acc_time_ms + delta_ms
        };
        if self.spec_current_frame().duration_ms < acc0 {
            let next: int = if self.current + 1 >= N {
                0
            } else {
                self.current + 1
            };
            Sequence {
                frames: self.frames,
                acc_time_ms: (acc0 - self.spec_current_frame().duration_ms) as u64,
                current: next as usize,
            }
        } else {
            Sequence { frames: self.frames, acc_time_ms: acc0 as u64, current: self.current }
        }
    }

    pub fn new(frames: [Frame; N]) -> (r: Sequence<N>)
        requires
            N > 0,
        ensures
            r == (Sequence { frames, acc_time_ms: 0u64, current: 0usize }),
    {
        Sequence { frames, acc_time_ms: 0, current: 0 }
    }

    /// Advance the animation clock by `delta_ms`.
    pub fn update(&mut self, delta_ms: u32)
        requires
            old(self).wf(),
        ensures
            *final(self) == old(self).spec_updated(delta_ms),
            final(self).wf(),
    {
        let acc0: u64 = if self.acc_time_ms <= u64::MAX - (delta_ms as u64) {
            self.acc_time_ms + (delta_ms as u64)
        } else {
            u64::MAX
        };
        let dur = self.frames[self.current].duration_ms;
        if (dur as u64) < acc0 {
            self.acc_time_ms = acc0 - (dur as u64);
            self.current = if self.current + 1 >= N {
                0
            } else {
                self.current + 1
            };
        } else {
            self.acc_time_ms = acc0;
        }
    }

    /// The frame the animation currently shows.
    pub fn current_frame(&self) -> (r: Frame)
        requires
            self.wf(),
        ensures
            r == self.spec_current_frame(),
    {
        self.frames[self.current]
    }
}

} // verus!
