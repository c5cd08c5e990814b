//! The synthetic signal-grid generator.
//!
//! It produces a time axis (100 evenly spaced samples over `[0, 600]`),
//! an angle axis (50 evenly spaced samples over `[-180, 180]`) and a
//! 50 x 100 grid of simulated signal-strength samples, one per
//! (angle, time) pair:
//!
//! `value = 70 + 10 * sin(radians(angle) / 90) * cos(time / 300) + 5 * U`
//!
//! where `U` is an independent uniform draw from `[0, 1)`.  All values
//! are IEEE doubles carried as bit patterns.  The axes are pinned point
//! by point to the evenly-spaced formula over the named IEEE
//! operations.  Std promises nothing of `sin` and `cos` beyond
//! unspecified precision, so the per-angle sine factors and per-time
//! cosine factors are opaque values; the grid contract pins every cell
//! to the combination `70 + 10 * s * c + 5 * u` of whatever factors and
//! draws went in, which also lets a deterministic stub stand in for the
//! random source.

use crate::float_bits::{
    add_bits, add_f64, cos_f64, div_bits, div_f64, float_of_int, float_of_u64, guarded_add,
    guarded_add_bits, guarded_mul, guarded_mul_bits, is_finite_bits, is_nan_bits, is_zero_bits,
    mul_bits, mul_f64, radians_f64, random_u64, sin_f64, BITS_0, BITS_10, BITS_2_POW_53, BITS_300,
    BITS_360, BITS_5, BITS_600, BITS_70, BITS_90, BITS_NEG_180,
};
use vstd::prelude::*;

verus! {

/// Number of samples on the time axis.
pub const TIME_SAMPLES: usize = 100;

/// Number of samples on the angle axis.
pub const ANGLE_SAMPLES: usize = 50;

/// The `j`-th of `denom + 1` evenly spaced axis points:
/// `lo + j * span / denom`, evaluated in IEEE double arithmetic.
pub open spec fn axis_value_bits(lo: u64, span: u64, denom: int, j: int) -> u64 {
    add_bits(lo, div_bits(mul_bits(float_of_int(j), span), float_of_int(denom)))
}

/// The time axis: 100 evenly spaced samples over `[0, 600]`.
pub open spec fn time_axis_seq() -> Seq<u64> {
    Seq::new(TIME_SAMPLES as nat, |j: int| axis_value_bits(BITS_0, BITS_600, 99, j))
}

/// The angle axis: 50 evenly spaced samples over `[-180, 180]`.
pub open spec fn angle_axis_seq() -> Seq<u64> {
    Seq::new(ANGLE_SAMPLES as nat, |i: int| axis_value_bits(BITS_NEG_180, BITS_360, 49, i))
}

/// The unit-interval double derived from the random word `x`: the
/// word's top 53 bits divided by `2^53`.  This is precisely the
/// standard uniform mapping of a 64-bit word to a double in `[0, 1)`
/// (the division is exact, so it coincides with scaling by `2^-53`).
pub open spec fn unit_of(x: u64) -> u64 {
    div_bits(float_of_int((x >> 11) as int), BITS_2_POW_53)
}

/// `u` is a value the unit-interval mapping can produce.
pub open spec fn is_unit_draw(u: u64) -> bool {
    exists|x: u64| u == unit_of(x)
}

/// The signal-strength sample for a sine factor `s`, a cosine factor
/// `c` and a unit draw `u`, all as double bit patterns:
/// `70 + 10 * s * c + 5 * u`, evaluated by the total guarded IEEE
/// operations in that association.
pub open spec fn signal_value_bits(s: u64, c: u64, u: u64) -> u64 {
    guarded_add_bits(
        guarded_add_bits(BITS_70, guarded_mul_bits(guarded_mul_bits(BITS_10, s), c)),
        guarded_mul_bits(BITS_5, u),
    )
}

/// Every row of `draws` has one unit draw per time sample.
pub open spec fn valid_draws(draws: Seq<Seq<u64>>, rows: int, cols: int) -> bool {
    &&& draws.len() == rows
    &&& forall|i: int| 0 <= i < rows ==> (#[trigger] draws[i]).len() == cols
    &&& forall|i: int, j: int|
        0 <= i < rows && 0 <= j < cols ==> is_unit_draw(#[trigger] draws[i][j])
}

/// The grid `g` holds exactly the signal formula applied to each
/// (sine factor, cosine factor) pair and the corresponding draw.
pub open spec fn grid_matches(
    g: Seq<Seq<u64>>,
    sines: Seq<u64>,
    cosines: Seq<u64>,
    draws: Seq<Seq<u64>>,
) -> bool {
    &&& g.len() == sines.len()
    &&& forall|i: int| 0 <= i < g.len() ==> (#[trigger] g[i]).len() == cosines.len()
    &&& forall|i: int, j: int|
        0 <= i < sines.len() && 0 <= j < cosines.len() ==> #[trigger] g[i][j]
            == signal_value_bits(sines[i], cosines[j], draws[i][j])
}

/// A grid that one invocation of the generator can produce: the signal
/// formula over some per-angle sine factors, per-time cosine factors
/// and some table of unit draws.
pub open spec fn is_generated_grid(g: Seq<Seq<u64>>) -> bool {
    exists|sines: Seq<u64>, cosines: Seq<u64>, draws: Seq<Seq<u64>>|
        sines.len() == ANGLE_SAMPLES && cosines.len() == TIME_SAMPLES && valid_draws(
            draws,
            ANGLE_SAMPLES as int,
            TIME_SAMPLES as int,
        ) && grid_matches(g, sines, cosines, draws)
}

/// `count` evenly spaced axis points: the `j`-th is
/// `lo + j * span / (count - 1)`, so the first is `lo` plus a zero
/// offset and the last is `lo` plus the whole span.
pub fn axis_points(lo: u64, span: u64, count: usize) -> (r: Vec<u64>)
    requires
        2 <= count,
        is_finite_bits(lo),
        is_finite_bits(span),
    ensures
        r@.len() == count,
        forall|j: int| 0 <= j < count ==> r@[j] == axis_value_bits(lo, span, count - 1, j),
        forall|j: int| 0 <= j < count ==> !is_nan_bits(#[trigger] r@[j]),
{
    let denom = float_of_u64((count - 1) as u64);
    let mut r: Vec<u64> = Vec::new();
    let mut j: usize = 0;
    while j < count
        invariant
            2 <= count,
            j <= count,
            is_finite_bits(lo),
            is_finite_bits(span),
            r@.len() == j,
            denom == float_of_int(count - 1),
            is_finite_bits(denom),
            !is_zero_bits(denom),
            forall|k: int| 0 <= k < j ==> r@[k] == axis_value_bits(lo, span, count - 1, k),
            forall|k: int| 0 <= k < j ==> !is_nan_bits(#[trigger] r@[k]),
        decreases count - j,
    {
        let v = add_f64(lo, div_f64(mul_f64(float_of_u64(j as u64), span), denom));
        r.push(v);
        j += 1;
    }
    r
}

/// The time axis as bit patterns.
pub fn time_axis() -> (r: Vec<u64>)
    ensures
        r@ == time_axis_seq(),
        forall|j: int| 0 <= j < r@.len() ==> !is_nan_bits(#[trigger] r@[j]),
{
    let r = axis_points(BITS_0, BITS_600, TIME_SAMPLES);
    proof {
        assert(r@ =~= time_axis_seq());
    }
    r
}

/// The angle axis as bit patterns.
pub fn angle_axis() -> (r: Vec<u64>)
    ensures
        r@ == angle_axis_seq(),
        forall|i: int| 0 <= i < r@.len() ==> !is_nan_bits(#[trigger] r@[i]),
{
    let r = axis_points(BITS_NEG_180, BITS_360, ANGLE_SAMPLES);
    proof {
        assert(r@ =~= angle_axis_seq());
    }
    r
}

/// The unit-interval double for the random word `x`.
pub fn unit_from(x: u64) -> (r: u64)
    ensures
        r == unit_of(x),
{
    div_f64(float_of_u64(x >> 11), BITS_2_POW_53)
}

/// The per-angle sine factors `sin(radians(angle) / 90)`, computed by
/// the platform's `sin`.  Std leaves its precision unspecified, so
/// nothing is promised of the values; the grid contract takes them as
/// they are.
pub fn sine_factors(angles: &Vec<u64>) -> (r: Vec<u64>)
    requires
        forall|i: int| 0 <= i < angles@.len() ==> !is_nan_bits(#[trigger] angles@[i]),
    ensures
        r@.len() == angles@.len(),
{
    let mut r: Vec<u64> = Vec::new();
    let mut i: usize = 0;
    while i < angles.len()
        invariant
            i <= angles@.len(),
            r@.len() == i,
            forall|k: int| 0 <= k < angles@.len() ==> !is_nan_bits(#[trigger] angles@[k]),
        decreases angles@.len() - i,
    {
        let s = sin_f64(div_f64(radians_f64(angles[i]), BITS_90));
        r.push(s);
        i += 1;
    }
    r
}

/// The per-time cosine factors `cos(t / 300)`, computed by the
/// platform's `cos`.  Std leaves its precision unspecified, so nothing
/// is promised of the values; the grid contract takes them as they
/// are.
pub fn cosine_factors(times: &Vec<u64>) -> (r: Vec<u64>)
    requires
        forall|j: int| 0 <= j < times@.len() ==> !is_nan_bits(#[trigger] times@[j]),
    ensures
        r@.len() == times@.len(),
{
    let mut r: Vec<u64> = Vec::new();
    let mut j: usize = 0;
    while j < times.len()
        invariant
            j <= times@.len(),
            r@.len() == j,
            forall|k: int| 0 <= k < times@.len() ==> !is_nan_bits(#[trigger] times@[k]),
        decreases times@.len() - j,
    {
        let c = cos_f64(div_f64(times[j], BITS_300));
        r.push(c);
        j += 1;
    }
    r
}

/// A fresh `rows` x `cols` table of independent uniform draws from
/// `[0, 1)`.
pub fn random_draws(rows: usize, cols: usize) -> (d: Vec<Vec<u64>>)
    ensures
        valid_draws(d.deep_view(), rows as int, cols as int),
{
    let mut d: Vec<Vec<u64>> = Vec::new();
    let mut i: usize = 0;
    while i < rows
        invariant
            i <= rows,
            d@.len() == i,
            forall|k: int| 0 <= k < i ==> (#[trigger] d@[k])@.len() == cols,
            forall|k: int, l: int|
                0 <= k < i && 0 <= l < cols ==> is_unit_draw(#[trigger] d@[k]@[l]),
        decreases rows - i,
    {
        let mut row: Vec<u64> = Vec::new();
        let mut j: usize = 0;
        while j < cols
            invariant
                j <= cols,
                row@.len() == j,
                forall|l: int| 0 <= l < j ==> is_unit_draw(#[trigger] row@[l]),
            decreases cols - j,
        {
            let x = random_u64();
            let u = unit_from(x);
            proof {
                assert(is_unit_draw(u));
            }
            row.push(u);
            j += 1;
        }
        d.push(row);
        i += 1;
    }
    proof {
        assert forall|k: int| 0 <= k < rows implies (#[trigger] d.deep_view()[k]).len()
            == cols by {
            assert(d.deep_view()[k] == d@[k]@);
        }
        assert forall|k: int, l: int|
            0 <= k < rows && 0 <= l < cols implies is_unit_draw(
            #[trigger] d.deep_view()[k][l],
        ) by {
            assert(d.deep_view()[k] == d@[k]@);
        }
    }
    d
}

/// The signal grid for the given sine factors, cosine factors and
/// draws: one cell per (angle, time) pair, each pinned to the guarded
/// signal formula.  The factors and draws are parameters so that a
/// deterministic stub can stand in for the random source.
pub fn signal_grid(sines: &Vec<u64>, cosines: &Vec<u64>, draws: &Vec<Vec<u64>>) -> (g: Vec<
    Vec<u64>,
>)
    requires
        draws@.len() == sines@.len(),
        forall|i: int| 0 <= i < draws@.len() ==> (#[trigger] draws@[i])@.len() == cosines@.len(),
    ensures
        grid_matches(g.deep_view(), sines@, cosines@, draws.deep_view()),
{
    let rows = sines.len();
    let cols = cosines.len();
    let mut g: Vec<Vec<u64>> = Vec::new();
    let mut i: usize = 0;
    while i < rows
        invariant
            rows == sines@.len(),
            cols == cosines@.len(),
            draws@.len() == rows,
            forall|k: int| 0 <= k < rows ==> (#[trigger] draws@[k])@.len() == cols,
            i <= rows,
            g@.len() == i,
            forall|k: int| 0 <= k < i ==> (#[trigger] g@[k])@.len() == cols,
            forall|k: int, l: int|
                0 <= k < i && 0 <= l < cols ==> #[trigger] g@[k]@[l] == signal_value_bits(
                    sines@[k],
                    cosines@[l],
                    draws@[k]@[l],
                ),
        decreases rows - i,
    {
        let sin_term = guarded_mul(BITS_10, sines[i]);
        let mut row: Vec<u64> = Vec::new();
        let mut j: usize = 0;
        while j < cols
            invariant
                rows == sines@.len(),
                cols == cosines@.len(),
                draws@.len() == rows,
                forall|k: int| 0 <= k < rows ==> (#[trigger] draws@[k])@.len() == cols,
                i < rows,
                sin_term == guarded_mul_bits(BITS_10, sines@[i as int]),
                j <= cols,
                row@.len() == j,
                forall|l: int|
                    0 <= l < j ==> #[trigger] row@[l] == signal_value_bits(
                        sines@[i as int],
                        cosines@[l],
                        draws@[i as int]@[l],
                    ),
            decreases cols - j,
        {
            let u = draws[i][j];
            let base = guarded_add(BITS_70, guarded_mul(sin_term, cosines[j]));
            let v = guarded_add(base, guarded_mul(BITS_5, u));
            row.push(v);
            j += 1;
        }
        g.push(row);
        i += 1;
    }
    proof {
        assert forall|k: int| 0 <= k < g.deep_view().len() implies (
        #[trigger] g.deep_view()[k]).len() == cosines@.len() by {
            assert(g.deep_view()[k] == g@[k]@);
        }
        assert forall|k: int, l: int|
            0 <= k < sines@.len() && 0 <= l < cosines@.len() implies #[trigger] g.deep_view(
        )[k][l] == signal_value_bits(sines@[k], cosines@[l], draws.deep_view()[k][l]) by {
            assert(g.deep_view()[k] == g@[k]@);
            assert(draws.deep_view()[k] == draws@[k]@);
        }
    }
    g
}

/// One full generator invocation: the time axis, the angle axis and a
/// freshly drawn signal grid, as the tuple (time, angle, grid).
pub fn generate_plot_data() -> (r: (Vec<u64>, Vec<u64>, Vec<Vec<u64>>))
    ensures
        r.0@ == time_axis_seq(),
        r.1@ == angle_axis_seq(),
        is_generated_grid(r.2.deep_view()),
        r.2@.len() == ANGLE_SAMPLES,
        forall|i: int| 0 <= i < ANGLE_SAMPLES ==> (#[trigger] r.2@[i])@.len() == TIME_SAMPLES,
{
    let times = time_axis();
    let angles = angle_axis();
    let sines = sine_factors(&angles);
    let cosines = cosine_factors(&times);
    let draws = random_draws(ANGLE_SAMPLES, TIME_SAMPLES);
    proof {
        assert forall|i: int| 0 <= i < draws@.len() implies (#[trigger] draws@[i])@.len()
            == cosines@.len() by {
            assert(draws.deep_view()[i] == draws@[i]@);
        }
    }
    let grid = signal_grid(&sines, &cosines, &draws);
    proof {
        assert(sines@.len() == ANGLE_SAMPLES && cosines@.len() == TIME_SAMPLES && valid_draws(
            draws.deep_view(),
            ANGLE_SAMPLES as int,
            TIME_SAMPLES as int,
        ) && grid_matches(grid.deep_view(), sines@, cosines@, draws.deep_view()));
        assert forall|i: int| 0 <= i < ANGLE_SAMPLES implies (#[trigger] grid@[i])@.len()
            == TIME_SAMPLES by {
            assert(grid.deep_view()[i] == grid@[i]@);
        }
    }
    (times, angles, grid)
}

/// Every grid the generator can produce has one row per angle sample
/// and one cell per time sample: 50 rows of 100 cells.
pub proof fn lemma_generated_grid_dims(z: Seq<Seq<u64>>)
    requires
        is_generated_grid(z),
    ensures
        z.len() == ANGLE_SAMPLES,
        forall|i: int| 0 <= i < z.len() ==> (#[trigger] z[i]).len() == TIME_SAMPLES,
{
}

/// The axes are fixed: any two generator invocations return the same
/// time axis and the same angle axis, bit for bit.
pub proof fn lemma_axes_deterministic(t1: Seq<u64>, a1: Seq<u64>, t2: Seq<u64>, a2: Seq<u64>)
    requires
        t1 == time_axis_seq(),
        a1 == angle_axis_seq(),
        t2 == time_axis_seq(),
        a2 == angle_axis_seq(),
    ensures
        t1 == t2,
        a1 == a2,
{
}

/// Holding the sine factors, cosine factors and draws fixed, the grid
/// is determined: two grids built from the same inputs are equal, cell
/// for cell.  This isolates the deterministic combination from the
/// random term.
pub proof fn lemma_grid_deterministic(
    g1: Seq<Seq<u64>>,
    g2: Seq<Seq<u64>>,
    sines: Seq<u64>,
    cosines: Seq<u64>,
    draws: Seq<Seq<u64>>,
)
    requires
        grid_matches(g1, sines, cosines, draws),
        grid_matches(g2, sines, cosines, draws),
    ensures
        g1 == g2,
{
    assert forall|i: int| 0 <= i < g1.len() implies #[trigger] g1[i] == g2[i] by {
        assert(g1[i] =~= g2[i]);
    }
    assert(g1 =~= g2);
}

} // verus!
