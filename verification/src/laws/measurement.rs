//! Measurements, means and touch points.

use vstd::prelude::*;

use crate::driver::TX_BUFF_LEN;
use crate::driver::half_way;
use crate::driver::raw_point;
use crate::geometry::Point;
use crate::samples::mean_x;
use crate::samples::mean_y;
use crate::samples::sum_x;
use crate::samples::sum_y;

verus! {

/// The raw x coordinate is made of bytes 1 and 2 of the receive buffer and
/// nothing else, and the raw y coordinate of bytes 3 and 4, each with the high
/// byte first.
pub proof fn raw_point_is_made_of_these_bytes(rx: [u8; TX_BUFF_LEN])
    ensures
        raw_point(rx).x == 256 * rx[1] + rx[2],
        raw_point(rx).y == 256 * rx[3] + rx[4],
{
}

/// A raw coordinate is an unsigned number of sixteen bits.
pub proof fn raw_coordinates_are_bounded(rx: [u8; TX_BUFF_LEN])
    ensures
        0 <= raw_point(rx).x <= 0xffff,
        0 <= raw_point(rx).y <= 0xffff,
{
}

/// A raw measurement tells the last four bytes of the receive buffer, and
/// nothing of the first.
pub proof fn raw_point_tells_the_bytes(one: [u8; TX_BUFF_LEN], other: [u8; TX_BUFF_LEN])
    ensures
        raw_point(one) == raw_point(other) <==> (one[1] == other[1] && one[2] == other[2] && one[3]
            == other[3] && one[4] == other[4]),
{
}

/// Twice the touch point is the sample, but for an odd coordinate, which is
/// then one further from zero.
pub proof fn touch_point_is_half_the_sample(sample: Point)
    ensures
        sample.x >= 0 ==> sample.x - 1 <= 2 * half_way(sample).x <= sample.x,
        sample.x < 0 ==> sample.x <= 2 * half_way(sample).x <= sample.x + 1,
        sample.y >= 0 ==> sample.y - 1 <= 2 * half_way(sample).y <= sample.y,
        sample.y < 0 ==> sample.y <= 2 * half_way(sample).y <= sample.y + 1,
{
}

/// The touch point of a raw measurement has coordinates of fifteen bits.
pub proof fn raw_touch_point_is_bounded(rx: [u8; TX_BUFF_LEN])
    ensures
        0 <= half_way(raw_point(rx)).x <= 0x7fff,
        0 <= half_way(raw_point(rx)).y <= 0x7fff,
{
}

/// The mean of a sample buffer does not depend on the order of its slots.
pub proof fn mean_ignores_the_order(a: Point, b: Point)
    ensures
        mean_x(seq![a, b]) == mean_x(seq![b, a]),
        mean_y(seq![a, b]) == mean_y(seq![b, a]),
{
    sums_of_two(a, b);
    sums_of_two(b, a);
}

/// Twice the mean of a sample buffer is the sum of its slots, but for an odd
/// sum, which is then one further from zero.
pub proof fn mean_is_half_the_sum(a: Point, b: Point)
    ensures
        a.x + b.x >= 0 ==> a.x + b.x - 1 <= 2 * mean_x(seq![a, b]) <= a.x + b.x,
        a.x + b.x < 0 ==> a.x + b.x <= 2 * mean_x(seq![a, b]) <= a.x + b.x + 1,
        a.y + b.y >= 0 ==> a.y + b.y - 1 <= 2 * mean_y(seq![a, b]) <= a.y + b.y,
        a.y + b.y < 0 ==> a.y + b.y <= 2 * mean_y(seq![a, b]) <= a.y + b.y + 1,
{
    sums_of_two(a, b);
}

/// Each coordinate of the mean of a sample buffer lies between those of its
/// slots. So the mean of equal samples is that sample.
pub proof fn mean_lies_between(a: Point, b: Point)
    ensures
        a.x <= b.x ==> a.x <= mean_x(seq![a, b]) <= b.x,
        b.x <= a.x ==> b.x <= mean_x(seq![a, b]) <= a.x,
        a.y <= b.y ==> a.y <= mean_y(seq![a, b]) <= b.y,
        b.y <= a.y ==> b.y <= mean_y(seq![a, b]) <= a.y,
        a == b ==> mean_x(seq![a, b]) == a.x && mean_y(seq![a, b]) == a.y,
{
    sums_of_two(a, b);
}

proof fn sums_of_two(a: Point, b: Point)
    ensures
        sum_x(seq![a, b]) == a.x + b.x,
        sum_y(seq![a, b]) == a.y + b.y,
{
    assert(seq![a, b].drop_last() =~= seq![a]);
    assert(seq![a].drop_last() =~= Seq::<Point>::empty());
    reveal_with_fuel(sum_x, 3);
    reveal_with_fuel(sum_y, 3);
}

} // verus!
