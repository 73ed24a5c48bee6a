//! A do-nothing backend: accepts every draw call and never yields an
//! event. Useful as a stand-in where no real output is wanted.

use vstd::prelude::*;

verus! {

use crate::backend::{Backend, Event, FigureId, FigureRepr, Image, Path, Text};

/// Marker error type of backends that cannot fail: no operation ever
/// constructs one.
#[derive(Debug)]
pub struct NoError;

/// A backend that draws nothing and has no events.
pub struct DummyBackend;

impl Backend for DummyBackend {
    type Err = NoError;

    open spec fn events_left(&self) -> nat {
        0
    }

    fn new() -> Self {
        DummyBackend
    }

    fn new_figure(&mut self, _figure: &FigureRepr) -> Result<FigureId, Self::Err> {
        Ok(FigureId(0))
    }

    fn clear_figure(&mut self, _fig_id: FigureId, _figure: &FigureRepr) -> Result<
        (),
        Self::Err,
    > {
        Ok(())
    }

    fn draw_path(&mut self, _fig_id: FigureId, _path: &Path) -> Result<(), Self::Err> {
        Ok(())
    }

    fn draw_text(&mut self, _fig_id: FigureId, _text: &Text) -> Result<(), Self::Err> {
        Ok(())
    }

    fn draw_image(&mut self, _fig_id: FigureId, _image: &Image) -> Result<(), Self::Err> {
        Ok(())
    }

    fn next_event(&mut self) -> Option<Event> {
        None
    }

    fn save_to_file(&mut self) -> Result<(), Self::Err> {
        Ok(())
    }
}

} // verus!
