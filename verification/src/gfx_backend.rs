//! A placeholder graphics backend: accepts every call, draws nothing,
//! and never yields an event. It stands where a hardware-accelerated
//! backend would plug in.

use vstd::prelude::*;

verus! {

use crate::backend::{Backend, Event, FigureId, FigureRepr, Image, Path, Text};

/// The placeholder graphics backend.
pub struct GfxBackend;

/// Its (uninformative) error value.
#[derive(Debug)]
pub struct GfxError;

impl Backend for GfxBackend {
    type Err = GfxError;

    open spec fn events_left(&self) -> nat {
        0
    }

    fn new() -> Self {
        GfxBackend
    }

    fn new_figure(&mut self, _figure: &FigureRepr) -> Result<FigureId, Self::Err> {
        Ok(FigureId(0))
    }

    fn clear_figure(&mut self, _fig_id: FigureId, _figure: &FigureRepr) -> Result<
        (),
        Self::Err,
    > {
        Ok(())
    }

    fn draw_path(&mut self, _fig_id: FigureId, _path: &Path) -> Result<(), Self::Err> {
        Ok(())
    }

    fn draw_text(&mut self, _fig_id: FigureId, _text: &Text) -> Result<(), Self::Err> {
        Ok(())
    }

    fn draw_image(&mut self, _fig_id: FigureId, _image: &Image) -> Result<(), Self::Err> {
        Ok(())
    }

    fn next_event(&mut self) -> Option<Event> {
        None
    }

    fn save_to_file(&mut self) -> Result<(), Self::Err> {
        Ok(())
    }
}

} // verus!
