//! Chart payloads as JSON text.
//!
//! Each command returns an object with a `data` array holding one trace
//! and a `layout` object; the UI-side charting renderer consumes that
//! shape as-is.  The scatter payload is fixed; the surface and heatmap
//! payloads carry the generator's axes and grid.  The text is built by
//! verified code, and each builder's contract pins the exact character
//! sequence, stated over the named decimal rendering of each value.

use crate::float_bits::{decimal_of, format_f64};
use crate::generator::{
    angle_axis_seq, generate_plot_data, is_generated_grid, time_axis_seq, ANGLE_SAMPLES,
    TIME_SAMPLES,
};
use vstd::prelude::*;

verus! {

/// The comma-separated decimal renderings of a sequence of doubles.
pub open spec fn csv_of(vals: Seq<u64>) -> Seq<char>
    decreases vals.len(),
{
    if vals.len() == 0 {
        Seq::empty()
    } else if vals.len() == 1 {
        decimal_of(vals[0])
    } else {
        csv_of(vals.drop_last()) + seq![','] + decimal_of(vals.last())
    }
}

/// One grid row as a bracketed list of decimal renderings.
pub open spec fn row_text(row: Seq<u64>) -> Seq<char> {
    seq!['['] + csv_of(row) + seq![']']
}

/// The comma-separated bracketed rows of a grid.
pub open spec fn rows_of(g: Seq<Seq<u64>>) -> Seq<char>
    decreases g.len(),
{
    if g.len() == 0 {
        Seq::empty()
    } else if g.len() == 1 {
        row_text(g[0])
    } else {
        rows_of(g.drop_last()) + seq![','] + row_text(g.last())
    }
}

/// The scatter payload: one trace with fixed literal data.
pub open spec fn scatter_payload_text() -> Seq<char> {
    "{\"data\":[{\"type\":\"scatter\",\"x\":[1,2,3,4,5],\"y\":[10,15,7,20,5]}],\"layout\":{}}"@
}

/// The surface payload: one trace with the time axis as `x`, the angle
/// axis as `y` and the grid as `z`.
pub open spec fn surface_payload_text(x: Seq<u64>, y: Seq<u64>, z: Seq<Seq<u64>>) -> Seq<char> {
    "{\"data\":[{\"type\":\"surface\",\"name\":\"3D Surface Plot\",\"x\":["@ + csv_of(x)
        + "],\"y\":["@ + csv_of(y) + "],\"z\":["@ + rows_of(z) + "]}],\"layout\":{\"title\":{\"text\":\"3D Surface Plot\"},\"plot_bgcolor\":\"grey\",\"paper_bgcolor\":\"grey\",\"font\":{\"color\":\"white\"},\"scene\":{\"xaxis\":{\"title\":{\"text\":\"Time (s)\"}},\"yaxis\":{\"title\":{\"text\":\"Azimuth Angle (\\u00b0)\"}},\"zaxis\":{\"title\":{\"text\":\"Signal Strength (dB)\"}}},\"xaxis\":{\"title\":{\"text\":\"Time (s)\"},\"tickcolor\":\"white\",\"gridcolor\":\"lightgrey\"},\"yaxis\":{\"title\":{\"text\":\"Azimuth Angle (\\u00b0)\"},\"tickcolor\":\"white\",\"gridcolor\":\"lightgrey\"},\"zaxis\":{\"title\":{\"text\":\"Signal Strength (dB)\"},\"tickcolor\":\"white\",\"gridcolor\":\"lightgrey\"}}}"@
}

/// The heatmap payload: one trace with the time axis as `x`, the angle
/// axis as `y` and the grid as `z`.
pub open spec fn heatmap_payload_text(x: Seq<u64>, y: Seq<u64>, z: Seq<Seq<u64>>) -> Seq<char> {
    "{\"data\":[{\"type\":\"heatmap\",\"x\":["@ + csv_of(x) + "],\"y\":["@ + csv_of(y)
        + "],\"z\":["@ + rows_of(z) + "]}],\"layout\":{\"title\":{\"text\":\"Heatmap Plot\"},\"xaxis\":{\"title\":{\"text\":\"Time (s)\"}},\"yaxis\":{\"title\":{\"text\":\"Azimuth Angle (\\u00b0)\"}},\"zaxis\":{\"title\":{\"text\":\"Signal Stregnth (dB)\"}}}}"@
}

proof fn lemma_csv_step(v: Seq<u64>, j: int)
    requires
        0 <= j < v.len(),
    ensures
        j == 0 ==> csv_of(v.take(1)) == decimal_of(v[0]),
        j > 0 ==> csv_of(v.take(j + 1)) == csv_of(v.take(j)) + seq![','] + decimal_of(v[j]),
{
    let w = v.take(j + 1);
    assert(w.len() == j + 1);
    if j == 0 {
        assert(csv_of(w) == decimal_of(w[0]));
        assert(w[0] == v[0]);
    } else {
        assert(csv_of(w) == csv_of(w.drop_last()) + seq![','] + decimal_of(w.last()));
        assert(w.drop_last() =~= v.take(j));
        assert(w.last() == v[j]);
    }
}

proof fn lemma_rows_step(g: Seq<Seq<u64>>, i: int)
    requires
        0 <= i < g.len(),
    ensures
        i == 0 ==> rows_of(g.take(1)) == row_text(g[0]),
        i > 0 ==> rows_of(g.take(i + 1)) == rows_of(g.take(i)) + seq![','] + row_text(g[i]),
{
    let w = g.take(i + 1);
    assert(w.len() == i + 1);
    if i == 0 {
        assert(rows_of(w) == row_text(w[0]));
        assert(w[0] == g[0]);
    } else {
        assert(rows_of(w) == rows_of(w.drop_last()) + seq![','] + row_text(w.last()));
        assert(w.drop_last() =~= g.take(i));
        assert(w.last() == g[i]);
    }
}

/// Appends the comma-separated decimal renderings of `vals` to `s`.
fn append_csv(s: &mut String, vals: &Vec<u64>)
    ensures
        final(s)@ == old(s)@ + csv_of(vals@),
{
    let ghost base = s@;
    let mut j: usize = 0;
    while j < vals.len()
        invariant
            j <= vals@.len(),
            s@ == base + csv_of(vals@.take(j as int)),
        decreases vals@.len() - j,
    {
        if j > 0 {
            s.append(",");
        }
        let num = format_f64(vals[j]);
        s.append(num.as_str());
        proof {
            lemma_csv_step(vals@, j as int);
            reveal_strlit(",");
            if j == 0 {
                assert(csv_of(vals@.take(1)) == decimal_of(vals@[0]));
                assert(s@ =~= base + csv_of(vals@.take(1)));
            } else {
                assert(","@ =~= seq![',']);
                assert(s@ =~= base + csv_of(vals@.take(j + 1)));
            }
        }
        j += 1;
    }
    proof {
        assert(vals@.take(vals@.len() as int) =~= vals@);
    }
}

/// Appends the comma-separated bracketed rows of `g` to `s`.
fn append_rows(s: &mut String, g: &Vec<Vec<u64>>)
    ensures
        final(s)@ == old(s)@ + rows_of(g.deep_view()),
{
    let ghost base = s@;
    let ghost gdv = g.deep_view();
    let mut i: usize = 0;
    while i < g.len()
        invariant
            gdv == g.deep_view(),
            i <= g@.len(),
            gdv.len() == g@.len(),
            s@ == base + rows_of(gdv.take(i as int)),
        decreases g@.len() - i,
    {
        if i > 0 {
            s.append(",");
        }
        let ghost mid = s@;
        s.append("[");
        append_csv(s, &g[i]);
        s.append("]");
        proof {
            lemma_rows_step(gdv, i as int);
            reveal_strlit(",");
            reveal_strlit("[");
            reveal_strlit("]");
            assert(gdv[i as int] == g@[i as int]@);
            assert(s@ =~= mid + row_text(gdv[i as int]));
            if i == 0 {
                assert(s@ =~= base + rows_of(gdv.take(1)));
            } else {
                assert(","@ =~= seq![',']);
                assert(s@ =~= base + rows_of(gdv.take(i + 1)));
            }
        }
        i += 1;
    }
    proof {
        assert(gdv.take(gdv.len() as int) =~= gdv);
    }
}

/// The surface payload for the given axes and grid.
pub fn surface_payload_from(x: &Vec<u64>, y: &Vec<u64>, z: &Vec<Vec<u64>>) -> (r: String)
    ensures
        r@ == surface_payload_text(x@, y@, z.deep_view()),
{
    let mut s = String::new();
    s.append("{\"data\":[{\"type\":\"surface\",\"name\":\"3D Surface Plot\",\"x\":[");
    append_csv(&mut s, x);
    s.append("],\"y\":[");
    append_csv(&mut s, y);
    s.append("],\"z\":[");
    append_rows(&mut s, z);
    s.append("]}],\"layout\":{\"title\":{\"text\":\"3D Surface Plot\"},\"plot_bgcolor\":\"grey\",\"paper_bgcolor\":\"grey\",\"font\":{\"color\":\"white\"},\"scene\":{\"xaxis\":{\"title\":{\"text\":\"Time (s)\"}},\"yaxis\":{\"title\":{\"text\":\"Azimuth Angle (\\u00b0)\"}},\"zaxis\":{\"title\":{\"text\":\"Signal Strength (dB)\"}}},\"xaxis\":{\"title\":{\"text\":\"Time (s)\"},\"tickcolor\":\"white\",\"gridcolor\":\"lightgrey\"},\"yaxis\":{\"title\":{\"text\":\"Azimuth Angle (\\u00b0)\"},\"tickcolor\":\"white\",\"gridcolor\":\"lightgrey\"},\"zaxis\":{\"title\":{\"text\":\"Signal Strength (dB)\"},\"tickcolor\":\"white\",\"gridcolor\":\"lightgrey\"}}}");
    proof {
        assert(s@ =~= surface_payload_text(x@, y@, z.deep_view()));
    }
    s
}

/// The heatmap payload for the given axes and grid.
pub fn heatmap_payload_from(x: &Vec<u64>, y: &Vec<u64>, z: &Vec<Vec<u64>>) -> (r: String)
    ensures
        r@ == heatmap_payload_text(x@, y@, z.deep_view()),
{
    let mut s = String::new();
    s.append("{\"data\":[{\"type\":\"heatmap\",\"x\":[");
    append_csv(&mut s, x);
    s.append("],\"y\":[");
    append_csv(&mut s, y);
    s.append("],\"z\":[");
    append_rows(&mut s, z);
    s.append("]}],\"layout\":{\"title\":{\"text\":\"Heatmap Plot\"},\"xaxis\":{\"title\":{\"text\":\"Time (s)\"}},\"yaxis\":{\"title\":{\"text\":\"Azimuth Angle (\\u00b0)\"}},\"zaxis\":{\"title\":{\"text\":\"Signal Stregnth (dB)\"}}}}");
    proof {
        assert(s@ =~= heatmap_payload_text(x@, y@, z.deep_view()));
    }
    s
}

/// The scatter-plot command: a payload with one trace of fixed literal
/// data, `x = [1,2,3,4,5]` and `y = [10,15,7,20,5]`.
pub fn generate_plot_json() -> (r: String)
    ensures
        r@ == scatter_payload_text(),
{
    String::from_str(
        "{\"data\":[{\"type\":\"scatter\",\"x\":[1,2,3,4,5],\"y\":[10,15,7,20,5]}],\"layout\":{}}",
    )
}

/// The surface-plot command: one generator invocation, wrapped as a
/// surface payload over the fixed axes.
pub fn generate_surface_plot_json() -> (r: String)
    ensures
        exists|z: Seq<Seq<u64>>|
            is_generated_grid(z) && r@ == surface_payload_text(
                time_axis_seq(),
                angle_axis_seq(),
                z,
            ),
{
    let (times, angles, grid) = generate_plot_data();
    let r = surface_payload_from(&times, &angles, &grid);
    proof {
        let z = grid.deep_view();
        assert(is_generated_grid(z) && r@ == surface_payload_text(
            time_axis_seq(),
            angle_axis_seq(),
            z,
        ));
    }
    r
}

/// The heatmap command: one generator invocation, wrapped as a heatmap
/// payload over the fixed axes.
pub fn generate_heatmap_plot_json() -> (r: String)
    ensures
        exists|z: Seq<Seq<u64>>|
            is_generated_grid(z) && r@ == heatmap_payload_text(
                time_axis_seq(),
                angle_axis_seq(),
                z,
            ),
{
    let (times, angles, grid) = generate_plot_data();
    let r = heatmap_payload_from(&times, &angles, &grid);
    proof {
        let z = grid.deep_view();
        assert(is_generated_grid(z) && r@ == heatmap_payload_text(
            time_axis_seq(),
            angle_axis_seq(),
            z,
        ));
    }
    r
}

} // verus!
