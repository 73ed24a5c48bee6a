use matplotrs::app::{App, AppError};
use matplotrs::backend::{
    Backend, ButtonState, ClickEvent, Event, EventKind, FigureId, MouseButton,
};
use matplotrs::color::{red, white};
use matplotrs::dummy::DummyBackend;
use matplotrs::figure::{ClickAction, ClickHandler, FigureBuilder};
use matplotrs::fx::{Fx, FX_ONE};
use matplotrs::gfx_backend::GfxBackend;
use matplotrs::script_backend::ScriptBackend;

fn units(n: i64) -> Fx {
    n * FX_ONE
}

fn click() -> EventKind {
    EventKind::Click(ClickEvent { state: ButtonState::Press, button: MouseButton::Left })
}

fn release() -> EventKind {
    EventKind::Click(ClickEvent { state: ButtonState::Release, button: MouseButton::Left })
}

fn right_click() -> EventKind {
    EventKind::Click(ClickEvent { state: ButtonState::Press, button: MouseButton::Right })
}

#[test]
fn start_with_dummy_backend_assigns_ids() {
    let mut app = App::new();
    app.add_figure(FigureBuilder::new().build());
    let mut be = DummyBackend::new();
    assert!(matches!(app.start(&mut be), Ok(0)));
    assert_eq!(app.figs[0].id, Some(FigureId(0)));
}

#[test]
fn start_with_gfx_backend_assigns_ids() {
    let mut app = App::new();
    app.add_figure(FigureBuilder::new().build());
    let mut be = GfxBackend::new();
    assert!(matches!(app.start(&mut be), Ok(0)));
    assert_eq!(app.figs[0].id, Some(FigureId(0)));
}

#[test]
fn resize_updates_only_the_targeted_figure() {
    // Two figures; the backend replays Render(fig1), Resize(fig2, 300,
    // 300), Render(fig2). Figure 2 ends at size (300, 300) and figure 1
    // keeps its size.
    let mut app = App::new();
    app.add_figure(FigureBuilder::new().with_figsize(200, 200).build());
    app.add_figure(FigureBuilder::new().with_figsize(100, 120).build());
    let mut be = ScriptBackend::with_events(vec![
        Event { fig_id: FigureId(1), e: EventKind::Render },
        Event { fig_id: FigureId(2), e: EventKind::Resize(300, 300) },
        Event { fig_id: FigureId(2), e: EventKind::Render },
    ]);
    assert!(matches!(app.start(&mut be), Ok(0)));
    assert_eq!(app.figs[1].fig.f.figsize, (units(300), units(300)));
    assert_eq!(app.figs[0].fig.f.figsize, (units(200), units(200)));
    assert_eq!(be.cleared, 2);
}

#[test]
fn click_pair_restores_the_facecolor() {
    // A handler that flips the background between red and white; two
    // consecutive clicks return it to its starting value.
    let mut fig = FigureBuilder::new().with_facecolor(red()).build();
    fig.onclick(ClickHandler::always(ClickAction::ToggleFacecolor(red(), white())));
    let mut app = App::new();
    app.add_figure(fig);
    let mut be = ScriptBackend::with_events(vec![
        Event { fig_id: FigureId(1), e: click() },
        Event { fig_id: FigureId(1), e: click() },
    ]);
    assert!(matches!(app.start(&mut be), Ok(0)));
    assert_eq!(app.figs[0].fig.f.facecolor, red());
}

#[test]
fn single_click_flips_the_facecolor() {
    let mut fig = FigureBuilder::new().with_facecolor(red()).build();
    fig.onclick(ClickHandler::always(ClickAction::ToggleFacecolor(red(), white())));
    let mut app = App::new();
    app.add_figure(fig);
    let mut be = ScriptBackend::with_events(vec![Event { fig_id: FigureId(1), e: click() }]);
    assert!(matches!(app.start(&mut be), Ok(0)));
    assert_eq!(app.figs[0].fig.f.facecolor, white());
}

#[test]
fn handlers_run_in_registration_order() {
    let mut fig = FigureBuilder::new().build();
    fig.onclick(ClickHandler::always(ClickAction::SetFacecolor(white())));
    fig.onclick(ClickHandler::always(ClickAction::SetFacecolor(red())));
    let mut app = App::new();
    app.add_figure(fig);
    let mut be = ScriptBackend::with_events(vec![Event { fig_id: FigureId(1), e: click() }]);
    assert!(matches!(app.start(&mut be), Ok(0)));
    assert_eq!(app.figs[0].fig.f.facecolor, red());
}

#[test]
fn render_for_unknown_figure_is_skipped() {
    let mut app = App::new();
    app.add_figure(FigureBuilder::new().build());
    let mut be = ScriptBackend::with_events(vec![
        Event { fig_id: FigureId(99), e: EventKind::Render },
        Event { fig_id: FigureId(1), e: EventKind::Render },
    ]);
    assert!(matches!(app.start(&mut be), Ok(0)));
    assert_eq!(be.cleared, 1);
}

#[test]
fn resize_for_unknown_figure_is_an_error() {
    let mut app = App::new();
    app.add_figure(FigureBuilder::new().build());
    let mut be = ScriptBackend::with_events(vec![Event {
        fig_id: FigureId(99),
        e: EventKind::Resize(10, 10),
    }]);
    assert!(matches!(app.start(&mut be), Err(AppError::FigureNotFound)));
}

#[test]
fn close_drops_the_figure_from_tracking() {
    let mut app = App::new();
    app.add_figure(FigureBuilder::new().with_figsize(10, 10).build());
    app.add_figure(FigureBuilder::new().with_figsize(20, 20).build());
    let mut be = ScriptBackend::with_events(vec![Event {
        fig_id: FigureId(1),
        e: EventKind::Close,
    }]);
    assert!(matches!(app.start(&mut be), Ok(0)));
    assert_eq!(app.figs.len(), 1);
    assert_eq!(app.figs[0].fig.f.figsize, (units(20), units(20)));
}

#[test]
fn save_is_forwarded_to_the_backend() {
    let mut app = App::new();
    app.add_figure(FigureBuilder::new().build());
    let mut be = ScriptBackend::with_events(vec![Event {
        fig_id: FigureId(1),
        e: EventKind::SaveToFile,
    }]);
    assert!(matches!(app.start(&mut be), Ok(0)));
    assert_eq!(be.saves, 1);
}

#[test]
fn update_events_are_a_no_op() {
    let mut app = App::new();
    app.add_figure(FigureBuilder::new().with_figsize(42, 42).build());
    let mut be = ScriptBackend::with_events(vec![Event {
        fig_id: FigureId(1),
        e: EventKind::Update(FX_ONE / 60),
    }]);
    assert!(matches!(app.start(&mut be), Ok(0)));
    assert_eq!(app.figs[0].fig.f.figsize, (units(42), units(42)));
}

#[test]
fn figure_ids_are_assigned_once() {
    let mut app = App::new();
    app.add_figure(FigureBuilder::new().build());
    let mut be = ScriptBackend::with_events(Vec::new());
    assert!(matches!(app.start(&mut be), Ok(0)));
    let first = app.figs[0].id;
    // A second start finds the figure already created and keeps its id.
    let mut be2 = ScriptBackend::with_events(Vec::new());
    be2.next_id = 7;
    assert!(matches!(app.start(&mut be2), Ok(0)));
    assert_eq!(app.figs[0].id, first);
}

#[test]
fn press_guarded_handler_fires_once_per_physical_click() {
    // A physical click arrives as a press event then a release event; a
    // handler guarded on presses toggles exactly once for the pair.
    let mut fig = FigureBuilder::new().with_facecolor(red()).build();
    fig.onclick(ClickHandler::when(
        Some(ButtonState::Press),
        None,
        ClickAction::ToggleFacecolor(red(), white()),
    ));
    let mut app = App::new();
    app.add_figure(fig);
    let mut be = ScriptBackend::with_events(vec![
        Event { fig_id: FigureId(1), e: click() },
        Event { fig_id: FigureId(1), e: release() },
    ]);
    assert!(matches!(app.start(&mut be), Ok(0)));
    assert_eq!(app.figs[0].fig.f.facecolor, white());
}

#[test]
fn unguarded_handler_sees_press_and_release() {
    // Without a guard the same pair fires the toggle twice, returning
    // to the starting color.
    let mut fig = FigureBuilder::new().with_facecolor(red()).build();
    fig.onclick(ClickHandler::always(ClickAction::ToggleFacecolor(red(), white())));
    let mut app = App::new();
    app.add_figure(fig);
    let mut be = ScriptBackend::with_events(vec![
        Event { fig_id: FigureId(1), e: click() },
        Event { fig_id: FigureId(1), e: release() },
    ]);
    assert!(matches!(app.start(&mut be), Ok(0)));
    assert_eq!(app.figs[0].fig.f.facecolor, red());
}

#[test]
fn button_guarded_handler_ignores_other_buttons() {
    let mut fig = FigureBuilder::new().with_facecolor(red()).build();
    fig.onclick(ClickHandler::when(
        None,
        Some(MouseButton::Left),
        ClickAction::SetFacecolor(white()),
    ));
    let mut app = App::new();
    app.add_figure(fig);
    let mut be = ScriptBackend::with_events(vec![Event { fig_id: FigureId(1), e: right_click() }]);
    assert!(matches!(app.start(&mut be), Ok(0)));
    assert_eq!(app.figs[0].fig.f.facecolor, red());
}

#[test]
fn create_figures_keeps_existing_ids_and_contents() {
    let mut app = App::new();
    app.add_figure(FigureBuilder::new().with_figsize(11, 12).build());
    let mut be = ScriptBackend::with_events(Vec::new());
    assert!(matches!(app.create_figures(&mut be), Ok(())));
    assert_eq!(app.figs[0].id, Some(FigureId(1)));
    assert_eq!(app.figs[0].fig.f.figsize, (units(11), units(12)));
    // Creating again hands out no new handle for an already-created
    // figure.
    let mut be2 = ScriptBackend::with_events(Vec::new());
    be2.next_id = 9;
    assert!(matches!(app.create_figures(&mut be2), Ok(())));
    assert_eq!(app.figs[0].id, Some(FigureId(1)));
}
