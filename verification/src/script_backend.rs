//! A scripted backend: hands out sequential figure handles, replays a
//! fixed list of events front to back, and counts what was drawn. This
//! is the queued-backend pattern of static document backends (which
//! enqueue their save and render requests up front), and it makes whole
//! application runs reproducible.

use vstd::prelude::*;

verus! {

use crate::backend::{Backend, Event, FigureId, FigureRepr, Image, Path, Text};

/// The error value of the scripted backend; no operation constructs
/// one.
#[derive(Debug)]
pub struct ScriptError;

/// A backend replaying a fixed event list.
pub struct ScriptBackend {
    /// The handle the next created figure receives; handles count up
    /// from here.
    pub next_id: usize,
    /// Events still to replay, front first.
    pub events: Vec<Event>,
    /// How many times a figure was cleared.
    pub cleared: usize,
    /// How many paths were drawn.
    pub paths_drawn: usize,
    /// How many texts were drawn.
    pub texts_drawn: usize,
    /// How many images were drawn.
    pub images_drawn: usize,
    /// How many saves were requested.
    pub saves: usize,
}

impl ScriptBackend {
    /// A backend that will replay exactly `events`, handing out handles
    /// from one upward.
    pub fn with_events(events: Vec<Event>) -> (r: ScriptBackend)
        ensures
            r.next_id == 1,
            r.events == events,
            r.cleared == 0,
            r.paths_drawn == 0,
            r.texts_drawn == 0,
            r.images_drawn == 0,
            r.saves == 0,
    {
        ScriptBackend {
            next_id: 1,
            events,
            cleared: 0,
            paths_drawn: 0,
            texts_drawn: 0,
            images_drawn: 0,
            saves: 0,
        }
    }
}

/// Count one more occurrence, stopping at the counter's ceiling.
fn bump(counter: &mut usize)
    ensures
        *final(counter) as int == if *old(counter) < usize::MAX {
            *old(counter) + 1
        } else {
            *old(counter) as int
        },
{
    if *counter < usize::MAX {
        *counter = *counter + 1;
    }
}

impl Backend for ScriptBackend {
    type Err = ScriptError;

    open spec fn events_left(&self) -> nat {
        self.events@.len()
    }

    fn new() -> Self {
        ScriptBackend::with_events(Vec::new())
    }

    fn new_figure(&mut self, _figure: &FigureRepr) -> (r: Result<FigureId, ScriptError>) {
        let id = FigureId(self.next_id);
        bump(&mut self.next_id);
        Ok(id)
    }

    fn clear_figure(&mut self, _fig_id: FigureId, _figure: &FigureRepr) -> (r: Result<
        (),
        ScriptError,
    >) {
        bump(&mut self.cleared);
        Ok(())
    }

    fn draw_path(&mut self, _fig_id: FigureId, _path: &Path) -> (r: Result<(), ScriptError>) {
        bump(&mut self.paths_drawn);
        Ok(())
    }

    fn draw_text(&mut self, _fig_id: FigureId, _text: &Text) -> (r: Result<(), ScriptError>) {
        bump(&mut self.texts_drawn);
        Ok(())
    }

    fn draw_image(&mut self, _fig_id: FigureId, _image: &Image) -> (r: Result<(), ScriptError>) {
        bump(&mut self.images_drawn);
        Ok(())
    }

    fn next_event(&mut self) -> (r: Option<Event>) {
        if self.events.len() == 0 {
            None
        } else {
            Some(self.events.remove(0))
        }
    }

    fn save_to_file(&mut self) -> (r: Result<(), ScriptError>) {
        bump(&mut self.saves);
        Ok(())
    }
}

} // verus!
