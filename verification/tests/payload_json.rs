use serde_json::Value;
use signal_plots::generator::{angle_axis, time_axis};
use signal_plots::payload::{
    generate_heatmap_plot_json, generate_plot_json, generate_surface_plot_json,
    surface_payload_from,
};

fn parse(s: &str) -> Value {
    serde_json::from_str(s).unwrap()
}

#[test]
fn test_generate_plot_json_structure() {
    let plot_json: Value = parse(&generate_plot_json());

    // Check that it's an Object
    assert!(plot_json.is_object(), "Expected a JSON object");

    // Check that "data" field exists
    let data = plot_json
        .get("data")
        .expect("Expected 'data' field in plot JSON");
    assert!(data.is_array(), "'data' field should be an array");

    let traces = data.as_array().unwrap();
    assert_eq!(traces.len(), 1, "Expected exactly one trace");

    // Check the first trace fields
    let trace = &traces[0];
    assert!(trace.get("x").is_some(), "Trace should have an 'x' field");
    assert!(trace.get("y").is_some(), "Trace should have a 'y' field");
    assert_eq!(
        trace.get("type").unwrap().as_str().unwrap(),
        "scatter",
        "Trace type should be 'scatter'"
    );

    // Check x and y values
    let x_values = trace.get("x").unwrap().as_array().unwrap();
    let y_values = trace.get("y").unwrap().as_array().unwrap();

    assert_eq!(
        x_values
            .iter()
            .map(|v| v.as_i64().unwrap())
            .collect::<Vec<_>>(),
        vec![1, 2, 3, 4, 5],
        "X values do not match expected"
    );

    assert_eq!(
        y_values
            .iter()
            .map(|v| v.as_i64().unwrap())
            .collect::<Vec<_>>(),
        vec![10, 15, 7, 20, 5],
        "Y values do not match expected"
    );
}

fn check_grid_payload(json: &Value, expected_type: &str) {
    assert!(json.is_object());
    let traces = json.get("data").unwrap().as_array().unwrap();
    assert_eq!(traces.len(), 1);
    let trace = &traces[0];
    assert_eq!(trace.get("type").unwrap().as_str().unwrap(), expected_type);
    assert!(json.get("layout").unwrap().is_object());

    let x = trace.get("x").unwrap().as_array().unwrap();
    let y = trace.get("y").unwrap().as_array().unwrap();
    let z = trace.get("z").unwrap().as_array().unwrap();

    assert_eq!(x.len(), 100, "x must carry the 100 time samples");
    assert_eq!(y.len(), 50, "y must carry the 50 angle samples");
    assert_eq!(z.len(), 50, "z must have one row per angle sample");
    for row in z {
        assert_eq!(row.as_array().unwrap().len(), 100);
    }

    // The axes in the payload are the fixed axes, value for value.
    let times = time_axis();
    let angles = angle_axis();
    for (v, bits) in x.iter().zip(times.iter()) {
        assert_eq!(v.as_f64().unwrap(), f64::from_bits(*bits));
    }
    for (v, bits) in y.iter().zip(angles.iter()) {
        assert_eq!(v.as_f64().unwrap(), f64::from_bits(*bits));
    }
}

fn title_text(v: &Value) -> &str {
    v.get("title")
        .unwrap()
        .get("text")
        .unwrap()
        .as_str()
        .unwrap()
}

#[test]
fn test_surface_json_structure() {
    let json = parse(&generate_surface_plot_json());
    check_grid_payload(&json, "surface");
    let trace = &json.get("data").unwrap().as_array().unwrap()[0];
    assert_eq!(
        trace.get("name").unwrap().as_str().unwrap(),
        "3D Surface Plot"
    );
    let layout = json.get("layout").unwrap();
    assert_eq!(title_text(layout), "3D Surface Plot");
    assert_eq!(layout.get("plot_bgcolor").unwrap().as_str().unwrap(), "grey");
    assert_eq!(
        layout.get("paper_bgcolor").unwrap().as_str().unwrap(),
        "grey"
    );
    assert_eq!(
        layout
            .get("font")
            .unwrap()
            .get("color")
            .unwrap()
            .as_str()
            .unwrap(),
        "white"
    );
    let scene = layout.get("scene").unwrap();
    assert_eq!(title_text(scene.get("xaxis").unwrap()), "Time (s)");
    assert_eq!(
        title_text(scene.get("yaxis").unwrap()),
        "Azimuth Angle (\u{b0})"
    );
    assert_eq!(
        title_text(scene.get("zaxis").unwrap()),
        "Signal Strength (dB)"
    );
    let xaxis = layout.get("xaxis").unwrap();
    assert_eq!(title_text(xaxis), "Time (s)");
    assert_eq!(xaxis.get("tickcolor").unwrap().as_str().unwrap(), "white");
    assert_eq!(
        xaxis.get("gridcolor").unwrap().as_str().unwrap(),
        "lightgrey"
    );
    assert_eq!(
        title_text(layout.get("yaxis").unwrap()),
        "Azimuth Angle (\u{b0})"
    );
    assert_eq!(
        title_text(layout.get("zaxis").unwrap()),
        "Signal Strength (dB)"
    );
}

#[test]
fn test_heatmap_json_structure() {
    let json = parse(&generate_heatmap_plot_json());
    check_grid_payload(&json, "heatmap");
    let layout = json.get("layout").unwrap();
    assert_eq!(title_text(layout), "Heatmap Plot");
    assert_eq!(title_text(layout.get("xaxis").unwrap()), "Time (s)");
    assert_eq!(
        title_text(layout.get("yaxis").unwrap()),
        "Azimuth Angle (\u{b0})"
    );
    assert_eq!(
        title_text(layout.get("zaxis").unwrap()),
        "Signal Stregnth (dB)"
    );
}

#[test]
fn test_axes_identical_across_calls() {
    // Two successive surface payloads: the axes are bit-identical,
    // while the grids differ only in the random term, which lies in
    // [0, 5).
    let j1 = parse(&generate_surface_plot_json());
    let j2 = parse(&generate_surface_plot_json());
    let t1 = &j1.get("data").unwrap().as_array().unwrap()[0];
    let t2 = &j2.get("data").unwrap().as_array().unwrap()[0];

    assert_eq!(t1.get("x"), t2.get("x"), "time axes must agree exactly");
    assert_eq!(t1.get("y"), t2.get("y"), "angle axes must agree exactly");

    let z1 = t1.get("z").unwrap().as_array().unwrap();
    let z2 = t2.get("z").unwrap().as_array().unwrap();
    let mut any_difference = false;
    for (r1, r2) in z1.iter().zip(z2.iter()) {
        let r1 = r1.as_array().unwrap();
        let r2 = r2.as_array().unwrap();
        for (v1, v2) in r1.iter().zip(r2.iter()) {
            let d = v1.as_f64().unwrap() - v2.as_f64().unwrap();
            assert!(d.abs() < 5.0, "cells may differ only in the noise term");
            if d != 0.0 {
                any_difference = true;
            }
        }
    }
    assert!(any_difference, "fresh randomness must show up in the grid");
}

#[test]
fn test_payload_renders_given_values() {
    // Feed known bit patterns through the payload builder and check
    // that the decimal renderings parse back to exactly those doubles.
    let x = vec![1.5f64.to_bits(), 2.25f64.to_bits()];
    let y = vec![(-0.5f64).to_bits()];
    let z = vec![vec![70.125f64.to_bits(), 600.0f64.to_bits()]];
    let json = parse(&surface_payload_from(&x, &y, &z));
    let trace = &json.get("data").unwrap().as_array().unwrap()[0];
    let xs: Vec<f64> = trace
        .get("x")
        .unwrap()
        .as_array()
        .unwrap()
        .iter()
        .map(|v| v.as_f64().unwrap())
        .collect();
    assert_eq!(xs, vec![1.5, 2.25]);
    let ys: Vec<f64> = trace
        .get("y")
        .unwrap()
        .as_array()
        .unwrap()
        .iter()
        .map(|v| v.as_f64().unwrap())
        .collect();
    assert_eq!(ys, vec![-0.5]);
    let zs = trace.get("z").unwrap().as_array().unwrap();
    assert_eq!(zs.len(), 1);
    let row: Vec<f64> = zs[0]
        .as_array()
        .unwrap()
        .iter()
        .map(|v| v.as_f64().unwrap())
        .collect();
    assert_eq!(row, vec![70.125, 600.0]);
}
