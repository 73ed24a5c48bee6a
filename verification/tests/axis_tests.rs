use matplotrs::axis::{Axis, AxisType, fx_label, TICK_COUNT};
use matplotrs::fx::{Fx, FX_ONE};

fn units(n: i64) -> Fx {
    n * FX_ONE
}

#[test]
fn xaxis_auto_over_two_series() {
    // Series [[(0,0),(2,5)], [(-1,3),(4,1)]]: the X range is [-1, 4].
    let data: Vec<Vec<(Fx, Fx)>> = vec![
        vec![(units(0), units(0)), (units(2), units(5))],
        vec![(units(-1), units(3)), (units(4), units(1))],
    ];
    let auto = Axis::new_xaxis_auto(&data);
    assert_eq!(auto.lims, (units(-1), units(4)));
}

#[test]
fn yaxis_auto_over_two_series() {
    let data: Vec<Vec<(Fx, Fx)>> = vec![
        vec![(units(0), units(0)), (units(2), units(5))],
        vec![(units(-1), units(3)), (units(4), units(1))],
    ];
    let auto = Axis::new_yaxis_auto(&data);
    assert_eq!(auto.lims, (units(0), units(5)));
}

#[test]
fn single_point_series_widens() {
    // A single-point series [(3,3)]: the degenerate range widens to
    // [2.5, 3.5].
    let data: Vec<Vec<(Fx, Fx)>> = vec![vec![(units(3), units(3))]];
    let auto = Axis::new_xaxis_auto(&data);
    assert_eq!(auto.lims, (2_500_000, 3_500_000));
}

#[test]
fn empty_series_defaults() {
    let data: Vec<Vec<(Fx, Fx)>> = vec![];
    let auto = Axis::new_xaxis_auto(&data);
    assert_eq!(auto.lims, (-500_000, 500_000));
}

#[test]
fn explicit_equal_lims_widen() {
    let axis = Axis::new_xaxis((units(5), units(5)));
    assert_eq!(axis.lims, (4_500_000, 5_500_000));
}

#[test]
fn world_coord_maps_ends() {
    let x = Axis::new_xaxis((units(0), units(10)));
    assert_eq!(x.world_coord_at(units(0)), -FX_ONE);
    assert_eq!(x.world_coord_at(units(10)), FX_ONE);
    assert_eq!(x.world_coord_at(units(5)), 0);
    let y = Axis::new_yaxis((units(0), units(10)));
    assert_eq!(y.world_coord_at(units(0)), FX_ONE);
    assert_eq!(y.world_coord_at(units(10)), -FX_ONE);
}

#[test]
fn ticks_are_ten_evenly_spaced_pairs() {
    let axis = Axis::new_xaxis((units(0), units(10)));
    let ticks = axis.tick_positions();
    assert_eq!(ticks.len(), TICK_COUNT);
    assert_eq!(ticks[0].1, units(0));
    for k in 0..TICK_COUNT - 1 {
        assert_eq!(ticks[k + 1].1 - ticks[k].1, units(1));
    }
    for k in 0..TICK_COUNT {
        assert_eq!(ticks[k].0, -FX_ONE + (k as i64) * 200_000);
    }
}

#[test]
fn yaxis_tick_positions_descend() {
    let axis = Axis::new_yaxis((units(0), units(10)));
    let ticks = axis.tick_positions();
    assert_eq!(ticks.len(), TICK_COUNT);
    for k in 0..TICK_COUNT {
        assert_eq!(ticks[k].0, FX_ONE - (k as i64) * 200_000);
    }
}

#[test]
fn axis_paths_hold_line_and_ticks() {
    let axis = Axis::new_xaxis((units(0), units(10)));
    let paths = axis.paths();
    assert_eq!(paths.len(), TICK_COUNT + 1);
    assert_eq!(paths[0].points, vec![(-FX_ONE, FX_ONE), (FX_ONE, FX_ONE)]);
    assert!(!paths[0].closed);
    assert_eq!(paths[0].line_color, Some((0, 0, 0, FX_ONE)));
    assert_eq!(paths[1].points, vec![(-FX_ONE, FX_ONE), (-FX_ONE, FX_ONE + 50_000)]);
}

#[test]
fn axis_texts_label_tick_values() {
    let axis = Axis::new_xaxis((units(0), units(10)));
    let texts = axis.texts();
    assert_eq!(texts.len(), TICK_COUNT);
    assert_eq!(texts[0].text, "0.00");
    assert_eq!(texts[1].text, "1.00");
    assert_eq!(texts[9].text, "9.00");
    assert_eq!(texts[0].point, (-FX_ONE, FX_ONE + 50_000));
}

#[test]
fn invisible_axis_draws_nothing() {
    let mut axis = Axis::new_xaxis((units(0), units(10)));
    axis.visible = false;
    assert_eq!(axis.paths().len(), 0);
    assert_eq!(axis.texts().len(), 0);
}

#[test]
fn labels_round_to_two_decimals() {
    assert_eq!(fx_label(0), "0.00");
    assert_eq!(fx_label(3_141_590), "3.14");
    assert_eq!(fx_label(2_345_000), "2.35");
    assert_eq!(fx_label(-1_500_000), "-1.50");
    assert_eq!(fx_label(-4_999), "-0.00");
    assert_eq!(fx_label(12_000_000), "12.00");
}

#[test]
fn axis_types_differ() {
    let x = Axis::new_xaxis((0, FX_ONE));
    let y = Axis::new_yaxis((0, FX_ONE));
    assert_eq!(x.axis_type, AxisType::XAxis);
    assert_eq!(y.axis_type, AxisType::YAxis);
    assert!(x.visible && y.visible);
}
