//! Location of the knot span that holds a parameter.
//!
//! The search never fails on malformed knots: it probes at most a fixed
//! number of times and never leaves the knot vector, and where it cannot
//! settle it falls back to the degree. On knots that are numbers it finds a
//! span that holds the parameter.

use vstd::arithmetic::power2::{lemma2_to64, lemma_pow2_strictly_increases, lemma_pow2_unfold, pow2};
use vstd::prelude::*;

use crate::binary64::Binary64;

verus! {

/// The most probes that one search makes.
pub const MAX_PROBES: usize = 100;

/// Whether a span can be located at all: there is a control point, there
/// are two knots, and there are more knots than control points and more
/// than the degree.
pub open spec fn locatable(points: nat, knots: nat, degree: nat) -> bool {
    points >= 1 && knots >= 2 && points < knots && degree < knots
}

/// Whether the parameter lies in the half-open span that starts at `mid`.
pub open spec fn in_span(knots: Seq<Binary64>, u: Binary64, mid: int) -> bool {
    !u.spec_lt(knots[mid]) && !u.spec_ge(knots[mid + 1])
}

/// The outcome of bisecting between `low` and `high` with `probes` probes
/// left. Each probe looks at the span in the middle: the search ends there
/// if the parameter lies in it, and goes on in the half on the side of the
/// parameter otherwise. It ends with `fallback` when no probe is left, or
/// when the span in the middle is not inside the knot vector.
pub open spec fn bisect(
    knots: Seq<Binary64>,
    u: Binary64,
    low: int,
    high: int,
    fallback: int,
    probes: nat,
) -> int
    decreases probes,
{
    let mid = (low + high) / 2;
    if probes == 0 || mid < 0 || mid + 1 >= knots.len() {
        fallback
    } else if in_span(knots, u, mid) {
        mid
    } else if u.spec_lt(knots[mid]) {
        bisect(knots, u, low, mid, fallback, (probes - 1) as nat)
    } else {
        bisect(knots, u, mid, high, fallback, (probes - 1) as nat)
    }
}

/// The span of the parameter `u` in a curve of `points` control points:
/// none where no span can be located; else, with `u` clamped to the unit
/// interval, the last control point's index where `u` has reached the knot
/// behind it, the degree where `u` has not passed the knot at the degree,
/// and what bisecting between the two yields otherwise.
pub open spec fn locate_span(knots: Seq<Binary64>, points: nat, degree: nat, u: Binary64) -> Option<
    int,
> {
    let clamped = u.spec_clamp_unit();
    if !locatable(points, knots.len(), degree) {
        None
    } else if clamped.spec_ge(knots[points as int]) {
        Some(points - 1)
    } else if clamped.spec_le(knots[degree as int]) {
        Some(degree as int)
    } else {
        Some(bisect(knots, clamped, degree as int, points as int, degree as int, MAX_PROBES as nat))
    }
}

/// Whether none of the knots with indices `from` to `to` is a NaN.
pub open spec fn all_numbers(knots: Seq<Binary64>, from: int, to: int) -> bool {
    forall|i: int| from <= i <= to ==> !(#[trigger] knots[i]).spec_is_nan()
}

/// Whether `span` is a span of the clamped parameter `clamped`: it lies
/// between the degree and the last control point's index, and either the
/// parameter lies in the half-open span that starts there, or the
/// parameter is at an end of the curve and the span is the one at that end.
pub open spec fn is_span_of(
    knots: Seq<Binary64>,
    points: nat,
    degree: nat,
    clamped: Binary64,
    span: int,
) -> bool {
    &&& degree <= span < points
    &&& {
        ||| clamped.spec_ge(knots[points as int]) && span == points - 1
        ||| clamped.spec_le(knots[degree as int]) && span == degree
        ||| knots[span].spec_le(clamped) && clamped.spec_lt(knots[span + 1])
    }
}

/// Bisecting finds a span that holds the parameter: if none of the knots
/// is a NaN, the parameter lies between the knots at `low` and `high`, and
/// the probes suffice to halve the distance between the two down to one,
/// the outcome is an index between them whose span holds the parameter.
/// The knots need not be in order for that.
pub proof fn lemma_bisect_brackets(
    knots: Seq<Binary64>,
    u: Binary64,
    low: int,
    high: int,
    fallback: int,
    probes: nat,
)
    requires
        0 <= low < high < knots.len(),
        all_numbers(knots, low, high),
        knots[low].spec_le(u),
        u.spec_lt(knots[high]),
        probes >= 1,
        high - low - 1 < pow2((probes - 1) as nat),
    ensures
        low <= bisect(knots, u, low, high, fallback, probes) < high,
        knots[bisect(knots, u, low, high, fallback, probes)].spec_le(u),
        u.spec_lt(knots[bisect(knots, u, low, high, fallback, probes) + 1]),
    decreases probes,
{
    let mid = (low + high) / 2;
    assert(!knots[mid].spec_is_nan() && !knots[mid + 1].spec_is_nan());
    if !in_span(knots, u, mid) {
        assert(low + 2 <= high);
        assert(probes >= 2) by {
            if probes == 1 {
                lemma2_to64();
            }
        }
        lemma_pow2_unfold((probes - 1) as nat);
        if u.spec_lt(knots[mid]) {
            lemma_bisect_brackets(knots, u, low, mid, fallback, (probes - 1) as nat);
        } else {
            lemma_bisect_brackets(knots, u, mid, high, fallback, (probes - 1) as nat);
        }
    }
}

/// On a curve with more control points than its degree, whose knots from
/// the degree to the one behind the last control point are numbers, the
/// span that is located is a span of the clamped parameter. The knots need
/// not be in order for that.
pub proof fn lemma_locate_span_brackets(
    knots: Seq<Binary64>,
    points: nat,
    degree: nat,
    u: Binary64,
)
    requires
        locatable(points, knots.len(), degree),
        degree < points <= usize::MAX,
        all_numbers(knots, degree as int, points as int),
    ensures
        locate_span(knots, points, degree, u) is Some,
        is_span_of(
            knots,
            points,
            degree,
            u.spec_clamp_unit(),
            locate_span(knots, points, degree, u).unwrap(),
        ),
{
    let clamped = u.spec_clamp_unit();
    assert(!knots[degree as int].spec_is_nan() && !knots[points as int].spec_is_nan());
    if !clamped.spec_ge(knots[points as int]) && !clamped.spec_le(knots[degree as int]) {
        lemma2_to64();
        lemma_pow2_strictly_increases(64, (MAX_PROBES - 1) as nat);
        lemma_bisect_brackets(
            knots,
            clamped,
            degree as int,
            points as int,
            degree as int,
            MAX_PROBES as nat,
        );
    }
}

/// The span that is located does not depend on how far outside the unit
/// interval the parameter lies: it is that of the clamped parameter.
pub proof fn lemma_locate_span_clamped(knots: Seq<Binary64>, points: nat, degree: nat, u: Binary64)
    ensures
        locate_span(knots, points, degree, u) == locate_span(
            knots,
            points,
            degree,
            u.spec_clamp_unit(),
        ),
{
}

/// The index halfway between two indices, rounded down.
fn midpoint(low: usize, high: usize) -> (mid: usize)
    ensures
        mid == (low + high) / 2,
{
    low / 2 + high / 2 + (low % 2 + high % 2) / 2
}

/// Locates the span of the parameter `u` among the knots of a curve of
/// `points` control points and the given degree.
///
/// Nothing is asked of the knots. Where they are numbers, from the degree
/// to the knot behind the last control point, and there are more control
/// points than the degree, the result is a span of the clamped parameter.
pub fn find_span(knots: &Vec<Binary64>, points: usize, degree: usize, u: Binary64) -> (span: Option<
    usize,
>)
    ensures
        match span {
            Some(s) => locate_span(knots@, points as nat, degree as nat, u) == Some(s as int),
            None => locate_span(knots@, points as nat, degree as nat, u) is None,
        },
        span is None <==> !locatable(points as nat, knots@.len(), degree as nat),
        span matches Some(s) ==> s < knots@.len(),
        span is Some && degree < points && all_numbers(knots@, degree as int, points as int)
            ==> is_span_of(
            knots@,
            points as nat,
            degree as nat,
            u.spec_clamp_unit(),
            span.unwrap() as int,
        ),
{
    if points == 0 || knots.len() < 2 || points >= knots.len() || degree >= knots.len() {
        return None;
    }
    proof {
        if degree < points && all_numbers(knots@, degree as int, points as int) {
            lemma_locate_span_brackets(knots@, points as nat, degree as nat, u);
        }
    }
    let clamped = u.clamp_unit();
    if clamped.ge(knots[points]) {
        return Some(points - 1);
    }
    if clamped.le(knots[degree]) {
        return Some(degree);
    }
    let mut low: usize = degree;
    let mut high: usize = points;
    let mut probes: usize = MAX_PROBES;
    loop
        invariant
            low < knots@.len(),
            high < knots@.len(),
            locatable(points as nat, knots@.len(), degree as nat),
            clamped == u.spec_clamp_unit(),
            !clamped.spec_ge(knots@[points as int]),
            !clamped.spec_le(knots@[degree as int]),
            degree < points && all_numbers(knots@, degree as int, points as int) ==> is_span_of(
                knots@,
                points as nat,
                degree as nat,
                clamped,
                locate_span(knots@, points as nat, degree as nat, u).unwrap(),
            ),
            probes <= MAX_PROBES,
            bisect(knots@, clamped, low as int, high as int, degree as int, probes as nat) == bisect(
                knots@,
                clamped,
                degree as int,
                points as int,
                degree as int,
                MAX_PROBES as nat,
            ),
        decreases probes,
    {
        let mid = midpoint(low, high);
        if probes == 0 || mid >= knots.len() - 1 {
            return Some(degree);
        }
        let below = clamped.lt(knots[mid]);
        if !below && !clamped.ge(knots[mid + 1]) {
            return Some(mid);
        }
        if below {
            high = mid;
        } else {
            low = mid;
        }
        probes -= 1;
    }
}

} // verus!
