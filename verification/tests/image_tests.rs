use matplotrs::image_view::{fit_size_within_container, compute_image_id, ImageViewBuilder};
use matplotrs::backend::Interpolation;
use matplotrs::extend_vec::{HasMinMax, HasShape, HasTotalLength};
use matplotrs::fx::{Fx, FX_ONE};

fn units(n: i64) -> Fx {
    n * FX_ONE
}

#[test]
fn deduce_correct_shape() {
    let row: Vec<Fx> = vec![
        100_000, 200_000, 300_000, 400_000, 500_000, 600_000, 700_000, 800_000, 900_000,
    ];
    let image = ImageViewBuilder::new(vec![row; 100]).build().unwrap();
    assert_eq!(image.shape(), (9, 100));
}

#[test]
fn wide_grid_fits_full_width() {
    // A 200 x 100 image: displayed size (2.0, 1.0).
    assert_eq!(fit_size_within_container((200, 100)), (2 * FX_ONE, FX_ONE));
}

#[test]
fn tall_grid_fits_full_height() {
    // A 100 x 200 image: displayed size (1.0, 2.0).
    assert_eq!(fit_size_within_container((100, 200)), (FX_ONE, 2 * FX_ONE));
}

#[test]
fn square_grid_fills_container() {
    assert_eq!(fit_size_within_container((64, 64)), (2 * FX_ONE, 2 * FX_ONE));
}

#[test]
fn displayed_size_of_wide_grid() {
    // 100 rows of 200 columns: a wide grid; the image artist reports
    // displayed size (2.0, 1.0).
    let grid: Vec<Vec<Fx>> = vec![vec![0; 200]; 100];
    let view = ImageViewBuilder::new(grid).build().unwrap();
    let images = view.images();
    assert_eq!(images.len(), 1);
    assert_eq!(images[0].size, (2 * FX_ONE, FX_ONE));
    // The Y axis maps value zero to the top of the local frame.
    assert_eq!(images[0].position, (-FX_ONE, FX_ONE));
    assert_eq!(images[0].width, 200);
    assert_eq!(images[0].height, 100);
}

#[test]
fn displayed_size_of_square_grid() {
    // Both ranges span their pixel extent, so both displayed
    // dimensions span the full two units.
    let grid: Vec<Vec<Fx>> = vec![vec![0; 32]; 32];
    let view = ImageViewBuilder::new(grid).build().unwrap();
    assert_eq!(view.images()[0].size, (2 * FX_ONE, 2 * FX_ONE));
}

#[test]
fn displayed_size_of_tall_grid() {
    let grid: Vec<Vec<Fx>> = vec![vec![0; 100]; 200];
    let view = ImageViewBuilder::new(grid).build().unwrap();
    let images = view.images();
    assert_eq!(images[0].size, (FX_ONE, 2 * FX_ONE));
}

#[test]
fn raster_bytes_follow_the_gradient() {
    // Default value limits are the grid's min and max; the default LUT
    // runs black to white. Values 0, 5, 10 normalize to 0, 0.5, 1.
    let grid: Vec<Vec<Fx>> = vec![vec![units(0), units(5), units(10)]];
    let view = ImageViewBuilder::new(grid).build().unwrap();
    let images = view.images();
    assert_eq!(images[0].data, vec![0, 0, 0, 127, 127, 127, 255, 255, 255]);
    assert_eq!(images[0].data.len(), 3 * 3 * 1);
    assert!(matches!(images[0].interpolation, Interpolation::Off));
}

#[test]
fn uniform_grid_rasterizes_black() {
    // Degenerate value limits leave nothing to normalize over.
    let grid: Vec<Vec<Fx>> = vec![vec![units(7), units(7)]];
    let view = ImageViewBuilder::new(grid).build().unwrap();
    assert_eq!(view.images()[0].data, vec![0, 0, 0, 0, 0, 0]);
}

#[test]
fn explicit_vlims_clamp() {
    // With vlims [0, 1], a value of 2 clamps to the top of the LUT.
    let grid: Vec<Vec<Fx>> = vec![vec![units(2), units(-1)]];
    let view = ImageViewBuilder::new(grid).with_vlims((0, FX_ONE)).build().unwrap();
    assert_eq!(view.images()[0].data, vec![255, 255, 255, 0, 0, 0]);
}

#[test]
fn empty_grid_is_rejected() {
    let empty: Vec<Vec<Fx>> = vec![];
    let err = ImageViewBuilder::new(empty).build().unwrap_err();
    assert_eq!(err, "The provided array is empty!");
    let empty_row: Vec<Vec<Fx>> = vec![vec![]];
    let err = ImageViewBuilder::new(empty_row).build().unwrap_err();
    assert_eq!(err, "The provided array is empty!");
}

#[test]
fn ragged_grid_is_rejected() {
    let ragged: Vec<Vec<Fx>> = vec![vec![0, 0], vec![0]];
    let err = ImageViewBuilder::new(ragged).build().unwrap_err();
    assert_eq!(err, "The provided array is not rectangular!");
}

#[test]
fn linear_data_reshapes_row_major() {
    let data: Vec<Fx> = vec![1, 2, 3, 4, 5, 6];
    let builder = ImageViewBuilder::new_from_linear_data(data, (3, 2)).unwrap();
    assert_eq!(builder.data, vec![vec![1, 2, 3], vec![4, 5, 6]]);
}

#[test]
fn linear_data_length_mismatch_is_rejected() {
    let data: Vec<Fx> = vec![1, 2, 3, 4, 5];
    let err = ImageViewBuilder::new_from_linear_data(data, (3, 2)).unwrap_err();
    assert_eq!(err, "Data length and shape do not match!");
}

#[test]
fn equal_grids_share_an_id() {
    let a: Vec<Vec<Fx>> = vec![vec![units(1), units(2)], vec![units(3), units(4)]];
    let b: Vec<Vec<Fx>> = vec![vec![units(1), units(2)], vec![units(3), units(4)]];
    assert_eq!(compute_image_id(&a), compute_image_id(&b));
    let va = ImageViewBuilder::new(a).build().unwrap();
    let vb = ImageViewBuilder::new(b).build().unwrap();
    assert_eq!(va.id, vb.id);
}

#[test]
fn image_axes_span_the_data() {
    // 100 rows x 200 cols, wide: the X axis spans the pixel width.
    let grid: Vec<Vec<Fx>> = vec![vec![0; 200]; 100];
    let view = ImageViewBuilder::new(grid).build().unwrap();
    assert_eq!(view.xaxis.lims, (0, units(200)));
    assert_eq!(view.yaxis.lims, (0, units(200)));
    let texts = view.texts();
    assert_eq!(texts.len(), 20);
    assert_eq!(texts[0].text, "0.00");
}

#[test]
fn shape_and_total_length() {
    let grid: Vec<Vec<Fx>> = vec![vec![0; 4]; 3];
    assert_eq!(grid.shape(), (4, 3));
    assert_eq!(grid.total_length(), 12);
    let empty: Vec<Vec<Fx>> = vec![];
    assert_eq!(empty.shape(), (0, 0));
    assert_eq!(empty.total_length(), 0);
}

#[test]
fn min_max_scans_the_whole_grid() {
    let grid: Vec<Vec<Fx>> = vec![vec![5, 1], vec![9, 3]];
    assert_eq!(grid.min_max(), Some((1, 9)));
    let empty: Vec<Vec<Fx>> = vec![vec![], vec![]];
    assert_eq!(empty.min_max(), None);
}
