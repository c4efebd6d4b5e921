use vstd::prelude::*;

verus! {

/// `j` is the first position of `xs` whose value exceeds `cut`.
pub open spec fn is_first_greater(xs: Seq<i64>, cut: i64, j: int) -> bool {
    &&& 0 <= j < xs.len()
    &&& xs[j] > cut
    &&& forall|k: int| 0 <= k < j ==> xs[k] <= cut
}

/// No value of `xs` exceeds `cut`.
pub open spec fn none_greater(xs: Seq<i64>, cut: i64) -> bool {
    forall|k: int| 0 <= k < xs.len() ==> xs[k] <= cut
}

/// Abscissae that rise strictly from one entry to the next.
pub open spec fn strictly_increasing(xs: Seq<i64>) -> bool {
    forall|a: int, b: int| 0 <= a < b < xs.len() ==> xs[a] < xs[b]
}

/// `j` is the floor position of `q` on `xs`: every entry up to `j` is at most
/// `q`, and the next entry either exceeds `q` or is the last one.
pub open spec fn is_floor_position(xs: Seq<i64>, q: i64, j: int) -> bool {
    &&& 0 <= j && j + 1 < xs.len()
    &&& forall|k: int| 0 <= k <= j ==> xs[k] <= q
    &&& (xs[j + 1] > q || j + 2 == xs.len())
}

/// First position whose value exceeds `cut`; the last position when none
/// does; nothing for an empty sequence.
pub fn first_grtr(xs: &Vec<i64>, cut: i64) -> (r: Option<usize>)
    ensures
        r.is_none() <==> xs@.len() == 0,
        r matches Some(j) ==> is_first_greater(xs@, cut, j as int) || (j + 1 == xs@.len()
            && none_greater(xs@, cut)),
{
    let n = xs.len();
    if n == 0 {
        return None;
    }
    let mut i: usize = 0;
    while i < n
        invariant
            n == xs@.len(),
            0 <= i <= n,
            forall|k: int| 0 <= k < i ==> xs@[k] <= cut,
        decreases n - i,
    {
        if xs[i] > cut {
            return Some(i);
        }
        i = i + 1;
    }
    Some(n - 1)
}

/// Floor position of `q` on a curve: the position just before the first
/// abscissa above `q` (the one before last when none is above). Nothing when
/// the curve has fewer than two points or starts above `q`.
pub fn floor_index(xs: &Vec<i64>, q: i64) -> (r: Option<usize>)
    ensures
        r.is_some() <==> xs@.len() >= 2 && xs@[0] <= q,
        r matches Some(j) ==> is_floor_position(xs@, q, j as int),
{
    match first_grtr(xs, q) {
        None => None,
        Some(f) => {
            if f == 0 {
                None
            } else {
                Some(f - 1)
            }
        },
    }
}

/// Floor position of `q`, raised to one when it would be the first point.
pub fn floor_index_from_one(xs: &Vec<i64>, q: i64) -> (r: Option<usize>)
    ensures
        r.is_some() <==> xs@.len() >= 2 && xs@[0] <= q,
        r matches Some(j) ==> (exists|f: int| is_floor_position(xs@, q, f) && (j == if f < 1 {
            1
        } else {
            f
        })),
{
    match floor_index(xs, q) {
        None => None,
        Some(f) => {
            if f < 1 {
                Some(1)
            } else {
                Some(f)
            }
        },
    }
}

/// On a strictly increasing curve the floor position is the last abscissa
/// not above the query, short of the final point.
pub proof fn lemma_floor_is_last_not_above(xs: Seq<i64>, q: i64, j: int)
    requires
        strictly_increasing(xs),
        is_floor_position(xs, q, j),
    ensures
        xs[j] <= q,
        forall|k: int| j < k && k + 1 < xs.len() ==> q < xs[k],
{
    assert forall|k: int| j < k && k + 1 < xs.len() implies q < xs[k] by {
        if xs[j + 1] > q {
            assert(xs[j + 1] <= xs[k] || k == j + 1);
        }
    }
}

/// The floor position of a query is unique.
pub proof fn lemma_floor_unique(xs: Seq<i64>, q: i64, a: int, b: int)
    requires
        is_floor_position(xs, q, a),
        is_floor_position(xs, q, b),
    ensures
        a == b,
{
    if a < b {
        assert(xs[a + 1] <= q);
    } else if b < a {
        assert(xs[b + 1] <= q);
    }
}

/// Checks that a curve's abscissae rise strictly and that its ordinate table
/// has one entry per abscissa.
pub fn curve_is_valid(xs: &Vec<i64>, n_ys: usize) -> (r: bool)
    ensures
        r <==> xs@.len() == n_ys && strictly_increasing(xs@),
{
    if xs.len() != n_ys {
        return false;
    }
    let n = xs.len();
    let mut i: usize = 1;
    while i < n
        invariant
            n == xs@.len(),
            1 <= i,
            i <= n || n == 0,
            forall|a: int, b: int| 0 <= a < b < i && b < n ==> xs@[a] < xs@[b],
        decreases n - i,
    {
        if xs[i - 1] >= xs[i] {
            return false;
        }
        assert forall|a: int, b: int| 0 <= a < b < i + 1 && b < n implies xs@[a] < xs@[b] by {
            if b == i as int && a < i - 1 {
                assert(xs@[a] < xs@[i - 1]);
            }
        }
        i = i + 1;
    }
    true
}

/// Where a lookup on a power curve lands.
#[derive(Debug, Clone, Copy, PartialEq, Eq, Structural)]
pub enum CurvePick {
    /// The query is the curve's top: the table's last entry applies.
    Last,
    /// The table entry at this position applies.
    At(usize),
}

/// The smaller of two ordinals.
pub open spec fn min_ord(a: i64, b: i64) -> i64 {
    if a <= b {
        a
    } else {
        b
    }
}

/// `r` is the outcome of looking up `power` on the curve `xs` whose top is
/// `top`: the last entry at the top; elsewhere the floor position of the power
/// capped at `below_top`, raised to one when `from_one` is set; nothing where
/// the capped power lies below the curve.
pub open spec fn is_curve_pick(
    xs: Seq<i64>,
    power: i64,
    top: i64,
    below_top: i64,
    from_one: bool,
    r: Option<CurvePick>,
) -> bool {
    let q = min_ord(below_top, power);
    if power == top {
        r == Some(CurvePick::Last)
    } else {
        &&& (r is Some <==> xs.len() >= 2 && xs[0] <= q)
        &&& (r is Some ==> exists|f: int|
            #![trigger is_floor_position(xs, q, f)]
            is_floor_position(xs, q, f) && r == Some(
                CurvePick::At(
                    if from_one && f < 1 {
                        1
                    } else {
                        f as usize
                    },
                ),
            ))
    }
}

/// Looks `power` up on the curve `xs` whose top is `top`, capping the query
/// at `below_top`.
pub fn curve_pick(xs: &Vec<i64>, power: i64, top: i64, below_top: i64, from_one: bool) -> (r:
    Option<CurvePick>)
    ensures
        is_curve_pick(xs@, power, top, below_top, from_one, r),
{
    if power == top {
        return Some(CurvePick::Last);
    }
    let q: i64 = if below_top <= power {
        below_top
    } else {
        power
    };
    match floor_index(xs, q) {
        None => None,
        Some(f) => {
            assert(is_floor_position(xs@, q, f as int));
            assert(q == min_ord(below_top, power));
            let r = if from_one && f < 1 {
                Some(CurvePick::At(1))
            } else {
                Some(CurvePick::At(f))
            };
            r
        },
    }
}

/// The largest of a non-empty sequence of ordinals.
pub open spec fn is_max_of(xs: Seq<i64>, m: i64) -> bool {
    &&& exists|k: int| 0 <= k < xs.len() && xs[k] == m
    &&& forall|k: int| 0 <= k < xs.len() ==> xs[k] <= m
}

/// The largest ordinal of a non-empty sequence.
pub fn max_ordinal(xs: &Vec<i64>) -> (m: i64)
    requires
        xs@.len() >= 1,
    ensures
        is_max_of(xs@, m),
{
    let mut m: i64 = xs[0];
    let mut i: usize = 1;
    while i < xs.len()
        invariant
            1 <= i <= xs@.len(),
            exists|k: int| 0 <= k < i && xs@[k] == m,
            forall|k: int| 0 <= k < i ==> xs@[k] <= m,
        decreases xs@.len() - i,
    {
        if xs[i] > m {
            m = xs[i];
        }
        i = i + 1;
    }
    m
}

} // verus!
