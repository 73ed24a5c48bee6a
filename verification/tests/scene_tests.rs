use matplotrs::artist::Artist;
use matplotrs::axes::{apply_chain_pt, tf_coord, tf_size_coord, AxesBuilder, Rect};
use matplotrs::color::{black, green, red, Color};
use matplotrs::dummy::DummyBackend;
use matplotrs::backend::{Backend, FigureId};
use matplotrs::figure::FigureBuilder;
use matplotrs::fx::{Fx, FX_ONE};
use matplotrs::line::{Line, LineBuilder};
use matplotrs::line_collection::LineCollectionBuilder;
use matplotrs::plot::PlotBuilder;

fn units(n: i64) -> Fx {
    n * FX_ONE
}

#[test]
fn transform_maps_corners_exactly() {
    // Rectangle (x, y, dx, dy) = (0.1, 0.1, 0.8, 0.8): the local corner
    // (-1, -1) lands on (0.1, 0.1) and (1, 1) on (0.9, 0.9).
    let (x, y, dx, dy) = (100_000, 100_000, 800_000, 800_000);
    assert_eq!(tf_coord(x, dx, -FX_ONE), 100_000);
    assert_eq!(tf_coord(x, dx, FX_ONE), 900_000);
    assert_eq!(tf_coord(y, dy, 0), 500_000);
    assert_eq!(tf_coord(y, dy, -FX_ONE), 100_000);
}

#[test]
fn transform_scales_sizes() {
    // A size scales by dx/2: size 1.0 through dx = 0.8 becomes 0.4.
    assert_eq!(tf_size_coord(800_000, FX_ONE), 400_000);
    assert_eq!(tf_size_coord(2 * FX_ONE, FX_ONE), FX_ONE);
}

#[test]
fn nested_transforms_compose_outermost_last() {
    // Inner rectangle maps (0,0) to its center (0.5, 0.5); the outer
    // rectangle (0, 0, 1, 1) then maps that to (0.75, 0.75).
    let outer = Rect { x: 0, y: 0, dx: FX_ONE, dy: FX_ONE };
    let inner = Rect { x: 0, y: 0, dx: FX_ONE, dy: FX_ONE };
    let chain = vec![outer, inner];
    let p = apply_chain_pt(&chain, (0, 0));
    assert_eq!(p, (750_000, 750_000));
    let empty: Vec<Rect> = vec![];
    assert_eq!(apply_chain_pt(&empty, (123, 456)), (123, 456));
}

#[test]
fn line_emits_one_stroke() {
    let line = Line::new((0, 0), (FX_ONE, FX_ONE));
    let paths = line.paths();
    assert_eq!(paths.len(), 1);
    assert_eq!(paths[0].points, vec![(0, 0), (FX_ONE, FX_ONE)]);
    assert!(!paths[0].closed);
    assert_eq!(paths[0].line_color, Some((0, 0, 0, FX_ONE)));
    assert_eq!(paths[0].fill_color, None);
}

#[test]
fn line_builder_sets_color() {
    let line = LineBuilder::new((1, 2), (3, 4)).with_edgecolor(red()).build();
    let paths = line.paths();
    let r = red();
    assert_eq!(paths[0].line_color, Some((r.0, r.1, r.2, r.3)));
}

#[test]
fn line_collection_gathers_vertices() {
    let mut lc = LineCollectionBuilder::new()
        .with_vertices(&vec![(0, 0), (1, 1)])
        .build();
    lc.add_vertex((2, 2));
    lc.add_vertices(&vec![(3, 3), (4, 4)]);
    let paths = lc.paths();
    assert_eq!(paths.len(), 1);
    assert_eq!(paths[0].points, vec![(0, 0), (1, 1), (2, 2), (3, 3), (4, 4)]);
}

#[test]
fn plot_maps_data_into_local_frame() {
    // One series [(0,0), (2,5)]: auto ranges X to [0,2] and Y to [0,5];
    // the first point maps to the lower-left of the frame, the second
    // to the upper-right (Y decreasing upward).
    let plot = PlotBuilder::new(vec![(units(0), units(0)), (units(2), units(5))]).build();
    assert_eq!(*plot.xlims(), (units(0), units(2)));
    assert_eq!(*plot.ylims(), (units(0), units(5)));
    let paths = plot.paths();
    assert_eq!(paths.len(), 1);
    assert_eq!(paths[0].points, vec![(-FX_ONE, FX_ONE), (FX_ONE, -FX_ONE)]);
}

#[test]
fn plot_explicit_lims_override_auto() {
    let plot = PlotBuilder::new(vec![(units(1), units(1))])
        .with_xlims((units(0), units(4)))
        .with_ylims((units(0), units(2)))
        .build();
    assert_eq!(*plot.xlims(), (units(0), units(4)));
    assert_eq!(*plot.ylims(), (units(0), units(2)));
    let paths = plot.paths();
    // x: -1 + 2 * 1/4 = -0.5; y: 1 - 2 * 1/2 = 0.
    assert_eq!(paths[0].points, vec![(-500_000, 0)]);
}

#[test]
fn multi_series_plot_emits_one_path_each() {
    let plot = PlotBuilder::new_multi_series(vec![
        vec![(units(0), units(0))],
        vec![(units(1), units(1))],
    ])
    .with_new_series(vec![(units(2), units(2))])
    .build();
    assert_eq!(plot.paths().len(), 3);
}

#[test]
fn axes_border_follows_rect() {
    let axes = AxesBuilder::new()
        .with_rect(&[100_000, 100_000, 800_000, 800_000])
        .with_facecolor(red())
        .with_edgecolor(green())
        .build();
    let paths = axes.paths();
    assert_eq!(paths.len(), 1);
    assert!(paths[0].closed);
    assert_eq!(
        paths[0].points,
        vec![
            (100_000, 100_000),
            (900_000, 100_000),
            (900_000, 900_000),
            (100_000, 900_000),
        ],
    );
    let g = green();
    let r = red();
    assert_eq!(paths[0].line_color, Some((g.0, g.1, g.2, g.3)));
    assert_eq!(paths[0].fill_color, Some((r.0, r.1, r.2, r.3)));
}

#[test]
fn default_axes_rect_is_inset() {
    let axes = AxesBuilder::new().build();
    let paths = axes.paths();
    assert_eq!(paths[0].points[0], (-600_000, -600_000));
    assert_eq!(paths[0].points[2], (600_000, 600_000));
    assert_eq!(paths[0].line_color, None);
    assert_eq!(paths[0].fill_color, None);
}

#[test]
fn artist_dispatch_matches_leaves() {
    let line = Artist::Line(Line::new((0, 0), (1, 1)));
    assert_eq!(line.paths().len(), 1);
    assert_eq!(line.texts().len(), 0);
    assert_eq!(line.images().len(), 0);
}

#[test]
fn render_tree_into_dummy_backend() {
    // A figure with a nested scene: axes holding a line and a child
    // axes holding a plot. Rendering into the do-nothing backend
    // succeeds.
    let mut inner = AxesBuilder::new().build();
    inner.add_child(Artist::Plot(
        PlotBuilder::new(vec![(units(0), units(0)), (units(1), units(1))]).build(),
    ));
    let mut outer = AxesBuilder::new().with_facecolor(black()).build();
    outer.add_child(Artist::Line(Line::new((0, 0), (FX_ONE, 0))));
    outer.add_child(Artist::Axes(inner));
    let mut fig = FigureBuilder::new().with_title("scene").build();
    fig.add_child(Artist::Axes(outer));
    let mut be = DummyBackend::new();
    assert!(fig.render(&mut be, FigureId(0)).is_ok());
}

#[test]
fn figure_builder_records_attributes() {
    let fig = FigureBuilder::new()
        .with_figsize(200, 200)
        .with_dpi(72)
        .with_title("hello")
        .with_facecolor(red())
        .build();
    assert_eq!(fig.f.figsize, (units(200), units(200)));
    assert_eq!(fig.f.dpi, units(72));
    assert_eq!(fig.title(), Some("hello"));
    assert_eq!(fig.f.facecolor, red());
    let repr = fig.backend_representation();
    assert_eq!(repr.title, "hello");
    assert_eq!(repr.size, (units(200), units(200)));
}

#[test]
fn untitled_figure_reports_default_title() {
    let fig = FigureBuilder::new().build();
    assert_eq!(fig.title(), None);
    assert_eq!(fig.backend_representation().title, "Figure");
    assert_eq!(fig.f.figsize, (units(300), units(400)));
    assert_eq!(fig.f.dpi, units(100));
    assert_eq!(fig.f.facecolor, Color(FX_ONE, FX_ONE, FX_ONE, FX_ONE));
}

#[test]
fn create_figure() {
    let fig = FigureBuilder::new().with_figsize(10, 20).build();
    assert_eq!(fig.f.figsize, (units(10), units(20)));
}
