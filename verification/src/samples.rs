//! The buffer of captured touch samples.

use vstd::prelude::*;

use crate::geometry::Point;
use crate::geometry::origin;

verus! {

/// Number of slots in the sample buffer.
pub const MAX_SAMPLES: usize = 2;

/// The captured touch samples.
///
/// Samples are written in turn to every slot but the last one, which keeps
/// the origin it starts with. With two slots the write position is therefore
/// always the first slot.
#[derive(Debug)]
pub struct TouchSamples {
    /// All the touch samples
    samples: [Point; MAX_SAMPLES],
    /// current number of captured samples
    counter: usize,
}

/// The quotient of two integers, rounded towards zero.
pub open spec fn truncated_quotient(dividend: int, divisor: int) -> int
    recommends
        divisor > 0,
{
    if dividend >= 0 {
        dividend / divisor
    } else {
        -((-dividend) / divisor)
    }
}

/// The sum of the x coordinates of some points.
pub open spec fn sum_x(points: Seq<Point>) -> int
    decreases points.len(),
{
    if points.len() == 0 {
        0
    } else {
        sum_x(points.drop_last()) + points.last().x
    }
}

/// The sum of the y coordinates of some points.
pub open spec fn sum_y(points: Seq<Point>) -> int
    decreases points.len(),
{
    if points.len() == 0 {
        0
    } else {
        sum_y(points.drop_last()) + points.last().y
    }
}

/// The mean of the x coordinates in a sample buffer, rounded towards zero.
pub open spec fn mean_x(points: Seq<Point>) -> int {
    truncated_quotient(sum_x(points), MAX_SAMPLES as int)
}

/// The mean of the y coordinates in a sample buffer, rounded towards zero.
pub open spec fn mean_y(points: Seq<Point>) -> int {
    truncated_quotient(sum_y(points), MAX_SAMPLES as int)
}

impl View for TouchSamples {
    type V = Seq<Point>;

    closed spec fn view(&self) -> Seq<Point> {
        self.samples@
    }
}

impl TouchSamples {
    /// The slot that the next sample goes to.
    pub closed spec fn cursor(&self) -> int {
        self.counter as int
    }

    /// The next sample goes to the first slot, and the last slot has never
    /// been written.
    pub open spec fn wf(&self) -> bool {
        &&& self@.len() == MAX_SAMPLES
        &&& self.cursor() == 0
        &&& self@[MAX_SAMPLES - 1] == origin()
    }

    /// Stores a sample and moves on to the next slot, going back to the first
    /// slot before the last one is reached. Returns whether it went back.
    pub(crate) fn capture(&mut self, point: Point) -> (wrapped: bool)
        requires
            old(self).wf(),
        ensures
            final(self).wf(),
            final(self)@ == old(self)@.update(0, point),
            wrapped,
    {
        self.samples[self.counter] = point;
        self.counter += 1;
        let wrapped = self.counter + 1 == MAX_SAMPLES;
        self.counter %= MAX_SAMPLES - 1;
        wrapped
    }

    /// Starts over with the first slot, whichever slot was next. What has been
    /// captured stays.
    pub(crate) fn rewind(&mut self)
        ensures
            final(self).cursor() == 0,
            final(self)@ == old(self)@,
    {
        self.counter = 0;
    }

    /// The mean of all slots, each coordinate rounded towards zero.
    #[must_use]
    pub fn average(&self) -> (mean: Point)
        requires
            i32::MIN <= sum_x(self@) <= i32::MAX,
            i32::MIN <= sum_y(self@) <= i32::MAX,
        ensures
            mean.x == mean_x(self@),
            mean.y == mean_y(self@),
    {
        let mut x: i32 = 0;
        let mut y: i32 = 0;
        let mut i: usize = 0;
        while i < MAX_SAMPLES
            invariant
                0 <= i <= MAX_SAMPLES,
                self@.take(MAX_SAMPLES as int) == self@,
                i32::MIN <= sum_x(self@) <= i32::MAX,
                i32::MIN <= sum_y(self@) <= i32::MAX,
                x == sum_x(self@.take(i as int)),
                y == sum_y(self@.take(i as int)),
                i == 0 ==> x == 0 && y == 0,
            decreases MAX_SAMPLES - i,
        {
            assert(self@.take(i + 1).drop_last() =~= self@.take(i as int));
            let point = self.samples[i];
            x += point.x;
            y += point.y;
            i += 1;
        }
        let slots: i32 = MAX_SAMPLES as i32;
        Point::new(x / slots, y / slots)
    }
}

impl Default for TouchSamples {
    fn default() -> (samples: Self)
        ensures
            samples.wf(),
            samples@ == Seq::new(MAX_SAMPLES as nat, |i: int| origin()),
    {
        TouchSamples { counter: 0, samples: [Point::zero(), Point::zero()] }
    }
}

} // verus!
