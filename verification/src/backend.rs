//! The backend protocol and the wire shapes that cross it.
//!
//! A backend owns the windows or documents that figures are drawn into. The
//! core only drives this capability set: it creates figures, clears them,
//! draws paths, texts and images into them, polls events, and asks for a
//! save. Concrete backends implement [`Backend`] outside the core; the core
//! never inspects a backend's error type.

use vstd::prelude::*;
use crate::fx::Fx;

verus! {

/// A polyline or polygon in the emitting artist's local coordinate space.
/// With neither a line color nor a fill color the path draws nothing.
pub struct Path {
    pub points: Vec<(Fx, Fx)>,
    pub closed: bool,
    pub line_color: Option<(Fx, Fx, Fx, Fx)>,
    pub fill_color: Option<(Fx, Fx, Fx, Fx)>,
}

/// A text label anchored at a point of the emitting artist's local space.
pub struct Text {
    pub point: (Fx, Fx),
    pub text: String,
    pub font_size: Fx,
}

/// A raster image: row-major RGB bytes, three bytes per pixel, placed by
/// its lower-left corner and displayed at `size` in the container's
/// coordinates.
pub struct Image {
    /// Content-derived cache key: equal pixel data gets an equal id, and
    /// backends are free to cache decoded images under it.
    pub id: ImageId,
    pub width: usize,
    pub height: usize,
    pub interpolation: Interpolation,
    /// RGB data (row-major), `width * height * 3` bytes.
    pub data: Vec<u8>,
    /// Position of the lower-left corner, in the container's coordinates.
    pub position: (Fx, Fx),
    /// Displayed size, in the container's coordinates.
    pub size: (Fx, Fx),
}

/// What a backend needs to know to create one figure.
pub struct FigureRepr {
    pub title: String,
    pub size: (Fx, Fx),
    pub dpi: Fx,
    pub facecolor: (Fx, Fx, Fx, Fx),
}

/// Backend-assigned handle of one figure, unique for the lifetime of one
/// backend instance and otherwise opaque.
#[derive(Debug, Copy, Clone, PartialEq, Eq, Hash, Structural)]
pub struct FigureId(pub usize);

/// Content-derived cache key of one image.
#[derive(Debug, Copy, Clone, PartialEq, Eq, Hash, Structural)]
pub struct ImageId(pub u64);

/// How a backend may smooth a scaled image. `Off` draws raw pixels.
#[derive(Copy, Clone, Debug, PartialEq, Eq, Structural)]
pub enum Interpolation {
    Off,
    Linear,
    Quadratic,
}

/// An event pulled from the backend, tagged with the figure it targets.
#[derive(Debug)]
pub struct Event {
    pub fig_id: FigureId,
    pub e: EventKind,
}

/// The kinds of events a backend can emit.
#[derive(Debug)]
pub enum EventKind {
    /// The backend asks a figure to be rendered again.
    Render,
    /// Animation hook, carrying the elapsed time in seconds.
    Update(Fx),
    /// The backend requests a save (mainly used by static backends).
    SaveToFile,
    /// A window has been resized to (width, height) in pixels.
    Resize(u32, u32),
    /// A window was closed.
    Close,
    /// A mouse button changed state over a figure.
    Click(ClickEvent),
}

/// A mouse button transition.
#[derive(Debug, Copy, Clone, PartialEq, Eq, Structural)]
pub struct ClickEvent {
    pub state: ButtonState,
    pub button: MouseButton,
}

/// Whether a button went down or up.
#[derive(Debug, Copy, Clone, PartialEq, Eq, Structural)]
pub enum ButtonState {
    Press,
    Release,
}

/// Which mouse button moved.
#[derive(Debug, Copy, Clone, PartialEq, Eq, Structural)]
pub enum MouseButton {
    Left,
    Right,
    Middle,
}

/// The capability set a concrete rendering backend implements. The core
/// states nothing about a backend's effects: what the core guarantees, it
/// guarantees of its own state and of the primitives it hands over,
/// whatever an implementation does with them.
pub trait Backend: Sized {
    type Err;

    /// How many events this backend can still yield: the termination
    /// measure of the event loop. Pulling an event shrinks it; nothing
    /// else grows it. An implementation chooses its own measure (a
    /// queued backend: its queue length); a backend that would rather
    /// wait for input indefinitely blocks inside [`Backend::next_event`]
    /// instead of yielding without bound.
    spec fn events_left(&self) -> nat;

    fn new() -> Self;

    /// Create a figure and return its handle.
    fn new_figure(&mut self, figure: &FigureRepr) -> (r: Result<FigureId, Self::Err>)
        ensures
            final(self).events_left() == old(self).events_left(),
    ;

    /// Clear a figure to its background.
    fn clear_figure(&mut self, fig_id: FigureId, figure: &FigureRepr) -> (r: Result<
        (),
        Self::Err,
    >)
        ensures
            final(self).events_left() == old(self).events_left(),
    ;

    fn draw_path(&mut self, fig_id: FigureId, path: &Path) -> (r: Result<(), Self::Err>)
        ensures
            final(self).events_left() == old(self).events_left(),
    ;

    fn draw_text(&mut self, fig_id: FigureId, text: &Text) -> (r: Result<(), Self::Err>)
        ensures
            final(self).events_left() == old(self).events_left(),
    ;

    fn draw_image(&mut self, fig_id: FigureId, image: &Image) -> (r: Result<(), Self::Err>)
        ensures
            final(self).events_left() == old(self).events_left(),
    ;

    /// The next pending event, or `None` when the backend has none left.
    fn next_event(&mut self) -> (r: Option<Event>)
        ensures
            r is Some ==> final(self).events_left() < old(self).events_left(),
    ;

    /// Persist whatever the backend has drawn so far.
    fn save_to_file(&mut self) -> (r: Result<(), Self::Err>)
        ensures
            final(self).events_left() == old(self).events_left(),
    ;
}

} // verus!
