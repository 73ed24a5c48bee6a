//! Figures: the root containers that backends allocate handles for.
//!
//! A figure owns its attributes (size, DPI, title, background color), a
//! list of child artists drawn in insertion order, and a list of click
//! handlers. Handlers are plain data describing a mutation of the
//! figure's attributes; on a click event they are applied in
//! registration order, which keeps handler dispatch free of aliasing
//! between the handler list and the attributes it mutates.

use vstd::prelude::*;

verus! {

use crate::fx::{Fx, FX_ONE, sat64};
use crate::color::Color;
use crate::backend::{Backend, ButtonState, ClickEvent, FigureId, FigureRepr, MouseButton};
use crate::artist::Artist;
use crate::axes::Rect;
use vstd::string::StringExecFns;

/// Size, resolution, title and background of one figure.
pub struct FigureAttributes {
    /// Width and height, in units (pixels for a window backend).
    pub figsize: (Fx, Fx),
    pub dpi: Fx,
    pub title: Option<String>,
    pub facecolor: Color,
}

impl Default for FigureAttributes {
    /// A 300 by 400 untitled figure at 100 DPI with a white background.
    fn default() -> (r: Self)
        ensures
            r.figsize.0 == 300 * FX_ONE,
            r.figsize.1 == 400 * FX_ONE,
            r.dpi == 100 * FX_ONE,
            r.title is None,
            r.facecolor == Color(FX_ONE, FX_ONE, FX_ONE, FX_ONE),
    {
        Self {
            figsize: (300 * FX_ONE, 400 * FX_ONE),
            dpi: 100 * FX_ONE,
            title: None,
            facecolor: Color(FX_ONE, FX_ONE, FX_ONE, FX_ONE),
        }
    }
}

/// What a click handler does when it fires.
#[derive(Copy, Clone, PartialEq, Eq, Structural, Debug)]
pub enum ClickAction {
    /// Set the background to the given color.
    SetFacecolor(Color),
    /// Flip the background between two colors: to the second when it
    /// currently is the first, back to the first from anywhere else, so
    /// that from either color two firings return to the start.
    ToggleFacecolor(Color, Color),
}

/// A click handler as data: an optional guard on the button transition
/// it reacts to, and the mutation it performs on the figure's
/// attributes when the guard matches. Backends emit press and release
/// as separate click events; a handler that should act once per
/// physical click guards on one of the two.
#[derive(Copy, Clone, PartialEq, Eq, Structural, Debug)]
pub struct ClickHandler {
    /// Fire only on this transition (press or release); `None` fires on
    /// both.
    pub on_state: Option<ButtonState>,
    /// Fire only for this mouse button; `None` fires for any.
    pub on_button: Option<MouseButton>,
    /// What to do when the guard matches.
    pub action: ClickAction,
}

impl ClickHandler {
    /// A handler firing on every click event, whatever its button and
    /// transition.
    pub fn always(action: ClickAction) -> (r: ClickHandler)
        ensures
            r == (ClickHandler { on_state: None, on_button: None, action }),
    {
        ClickHandler { on_state: None, on_button: None, action }
    }

    /// A handler firing only on events matching the given transition
    /// and button guards (`None` leaves that part unguarded).
    pub fn when(
        on_state: Option<ButtonState>,
        on_button: Option<MouseButton>,
        action: ClickAction,
    ) -> (r: ClickHandler)
        ensures
            r == (ClickHandler { on_state, on_button, action }),
    {
        ClickHandler { on_state, on_button, action }
    }
}

/// The handler's guard matches the event.
pub open spec fn handler_fires(h: ClickHandler, e: ClickEvent) -> bool {
    &&& match h.on_state {
        Some(st) => st == e.state,
        None => true,
    }
    &&& match h.on_button {
        Some(b) => b == e.button,
        None => true,
    }
}

/// What one action does to the attributes.
pub open spec fn apply_action_spec(a: ClickAction, attrs: FigureAttributes) -> FigureAttributes {
    match a {
        ClickAction::SetFacecolor(c) => FigureAttributes { facecolor: c, ..attrs },
        ClickAction::ToggleFacecolor(c1, c2) => FigureAttributes {
            facecolor: if attrs.facecolor == c1 {
                c2
            } else {
                c1
            },
            ..attrs
        },
    }
}

/// What one handler does to the attributes on one event: its action
/// when its guard matches, nothing otherwise.
pub open spec fn apply_handler_spec(h: ClickHandler, e: ClickEvent, attrs: FigureAttributes)
    -> FigureAttributes {
    if handler_fires(h, e) {
        apply_action_spec(h.action, attrs)
    } else {
        attrs
    }
}

/// What a handler list does to the attributes on one event: each
/// handler applied in order.
pub open spec fn apply_handlers_spec(
    hs: Seq<ClickHandler>,
    e: ClickEvent,
    attrs: FigureAttributes,
) -> FigureAttributes
    decreases hs.len(),
{
    if hs.len() == 0 {
        attrs
    } else {
        apply_handlers_spec(hs.drop_first(), e, apply_handler_spec(hs[0], e, attrs))
    }
}

/// Law: a toggling click handler is an involution. Starting from either
/// of its two colors, letting the handler see the same event twice
/// returns the attributes to exactly their starting value, so a pair of
/// firings (or of non-firings) is idempotent.
pub proof fn lemma_toggle_twice(h: ClickHandler, e: ClickEvent, a: FigureAttributes)
    requires
        h.action is ToggleFacecolor,
        a.facecolor == h.action->ToggleFacecolor_0 || a.facecolor == h.action->ToggleFacecolor_1,
    ensures
        apply_handler_spec(h, e, apply_handler_spec(h, e, a)) == a,
{
}

/// Apply one handler to the attributes for one event.
pub fn apply_click_handler(h: &ClickHandler, e: &ClickEvent, attrs: &mut FigureAttributes)
    ensures
        *final(attrs) == apply_handler_spec(*h, *e, *old(attrs)),
{
    let state_ok: bool = match h.on_state {
        Some(st) => st == e.state,
        None => true,
    };
    let button_ok: bool = match h.on_button {
        Some(b) => b == e.button,
        None => true,
    };
    if state_ok && button_ok {
        match h.action {
            ClickAction::SetFacecolor(c) => {
                attrs.facecolor = c;
            },
            ClickAction::ToggleFacecolor(c1, c2) => {
                if attrs.facecolor == c1 {
                    attrs.facecolor = c2;
                } else {
                    attrs.facecolor = c1;
                }
            },
        }
    }
}

/// A root container: attributes, child artists, and click handlers.
pub struct Figure {
    pub f: FigureAttributes,
    pub children: Vec<Artist>,
    pub click_event_handlers: Vec<ClickHandler>,
}

/// Builder for [`Figure`].
pub struct FigureBuilder {
    pub f: Figure,
}

impl FigureBuilder {
    /// Start from the default attributes, no children, no handlers.
    pub fn new() -> (r: Self)
        ensures
            r.f.f.figsize.0 == 300 * FX_ONE,
            r.f.f.figsize.1 == 400 * FX_ONE,
            r.f.f.dpi == 100 * FX_ONE,
            r.f.f.title is None,
            r.f.f.facecolor == Color(FX_ONE, FX_ONE, FX_ONE, FX_ONE),
            r.f.children@.len() == 0,
            r.f.click_event_handlers@.len() == 0,
    {
        let figure = Figure {
            f: Default::default(),
            children: Vec::new(),
            click_event_handlers: Vec::new(),
        };
        FigureBuilder { f: figure }
    }

    /// Set the size, in whole units.
    pub fn with_figsize(self, width: i64, height: i64) -> (r: Self)
        ensures
            r.f.f.figsize.0 as int == sat64(width * FX_ONE),
            r.f.f.figsize.1 as int == sat64(height * FX_ONE),
            r.f.f.dpi == self.f.f.dpi,
            r.f.f.title == self.f.f.title,
            r.f.f.facecolor == self.f.f.facecolor,
            r.f.children == self.f.children,
            r.f.click_event_handlers == self.f.click_event_handlers,
    {
        let mut r = self;
        r.f.f.figsize = (crate::fx::fx_from_int(width), crate::fx::fx_from_int(height));
        r
    }

    /// Set the resolution, in whole dots per unit.
    pub fn with_dpi(self, dpi: i64) -> (r: Self)
        ensures
            r.f.f.dpi as int == sat64(dpi * FX_ONE),
            r.f.f.figsize == self.f.f.figsize,
            r.f.f.title == self.f.f.title,
            r.f.f.facecolor == self.f.f.facecolor,
            r.f.children == self.f.children,
            r.f.click_event_handlers == self.f.click_event_handlers,
    {
        let mut r = self;
        r.f.f.dpi = crate::fx::fx_from_int(dpi);
        r
    }

    /// Set the title.
    pub fn with_title(self, title: &str) -> (r: Self)
        ensures
            r.f.f.title is Some,
            r.f.f.title->0@ == title@,
            r.f.f.figsize == self.f.f.figsize,
            r.f.f.dpi == self.f.f.dpi,
            r.f.f.facecolor == self.f.f.facecolor,
            r.f.children == self.f.children,
            r.f.click_event_handlers == self.f.click_event_handlers,
    {
        let mut r = self;
        r.f.f.title = Some(title.to_owned());
        r
    }

    /// Set the background color.
    pub fn with_facecolor(self, color: Color) -> (r: Self)
        ensures
            r.f.f.facecolor == color,
            r.f.f.figsize == self.f.f.figsize,
            r.f.f.dpi == self.f.f.dpi,
            r.f.f.title == self.f.f.title,
            r.f.children == self.f.children,
            r.f.click_event_handlers == self.f.click_event_handlers,
    {
        let mut r = self;
        r.f.f.facecolor = color;
        r
    }

    /// Finish the figure.
    pub fn build(self) -> (r: Figure)
        ensures
            r == self.f,
    {
        self.f
    }
}

impl Figure {
    /// Every child artist is well formed.
    pub open spec fn wf(&self) -> bool {
        forall|i: int| 0 <= i < self.children@.len() ==> (#[trigger] self.children@[i]).wf()
    }

    /// A figure with the default attributes.
    pub fn new() -> (r: Self)
        ensures
            r.f.figsize.0 == 300 * FX_ONE,
            r.f.figsize.1 == 400 * FX_ONE,
            r.f.title is None,
            r.children@.len() == 0,
            r.click_event_handlers@.len() == 0,
    {
        FigureBuilder::new().build()
    }

    /// Append a child artist; later children draw on top.
    pub fn add_child(&mut self, child: Artist)
        ensures
            final(self).children@ == old(self).children@.push(child),
            final(self).f == old(self).f,
            final(self).click_event_handlers == old(self).click_event_handlers,
    {
        self.children.push(child);
    }

    /// The title, if one was set.
    pub fn title(&self) -> (r: Option<&str>)
        ensures
            r is Some <==> self.f.title is Some,
            r is Some ==> r->0@ == self.f.title->0@,
    {
        match &self.f.title {
            Some(t) => Some(t.as_str()),
            None => None,
        }
    }

    /// Replace the size, in whole units.
    pub fn set_figsize(&mut self, width: i64, height: i64)
        ensures
            final(self).f.figsize.0 as int == sat64(width * FX_ONE),
            final(self).f.figsize.1 as int == sat64(height * FX_ONE),
            final(self).f.dpi == old(self).f.dpi,
            final(self).f.title == old(self).f.title,
            final(self).f.facecolor == old(self).f.facecolor,
            final(self).children == old(self).children,
            final(self).click_event_handlers == old(self).click_event_handlers,
    {
        self.f.figsize = (crate::fx::fx_from_int(width), crate::fx::fx_from_int(height));
    }

    /// Replace the background color.
    pub fn set_facecolor(&mut self, color: Color)
        ensures
            final(self).f.facecolor == color,
            final(self).f.figsize == old(self).f.figsize,
            final(self).f.dpi == old(self).f.dpi,
            final(self).f.title == old(self).f.title,
            final(self).children == old(self).children,
            final(self).click_event_handlers == old(self).click_event_handlers,
    {
        self.f.facecolor = color;
    }

    /// Ask the backend for a handle to a figure with these attributes.
    pub fn create<B: Backend>(&self, be: &mut B) -> (r: Result<FigureId, B::Err>)
        ensures
            final(be).events_left() == old(be).events_left(),
    {
        be.new_figure(&self.backend_representation())
    }

    /// Register one more click handler; handlers run in registration
    /// order.
    pub fn onclick(&mut self, handler: ClickHandler)
        ensures
            final(self).click_event_handlers@ == old(self).click_event_handlers@.push(handler),
            final(self).f == old(self).f,
            final(self).children == old(self).children,
    {
        self.click_event_handlers.push(handler);
    }

    /// Apply every registered click handler to the attributes, in
    /// registration order, each seeing the same event.
    pub fn handle_click(&mut self, e: &ClickEvent)
        ensures
            final(self).f == apply_handlers_spec(
                old(self).click_event_handlers@,
                *e,
                old(self).f,
            ),
            final(self).children == old(self).children,
            final(self).click_event_handlers == old(self).click_event_handlers,
    {
        let ghost hs = self.click_event_handlers@;
        let n: usize = self.click_event_handlers.len();
        proof {
            assert(hs.skip(0) =~= hs);
        }
        for i in 0..n
            invariant
                n == hs.len(),
                self.click_event_handlers == old(self).click_event_handlers,
                self.click_event_handlers@ == hs,
                self.children == old(self).children,
                apply_handlers_spec(hs.skip(i as int), *e, self.f) == apply_handlers_spec(
                    hs,
                    *e,
                    old(self).f,
                ),
        {
            let h: ClickHandler = self.click_event_handlers[i];
            proof {
                assert(hs.skip(i as int)[0] == hs[i as int]);
                assert(hs.skip(i as int).drop_first() =~= hs.skip(i as int + 1));
            }
            apply_click_handler(&h, e, &mut self.f);
        }
        proof {
            assert(hs.skip(n as int) =~= Seq::<ClickHandler>::empty());
        }
    }

    /// What the backend needs to know to create or clear this figure:
    /// the title (or "Figure" when none is set), size, DPI and
    /// background channels.
    pub fn backend_representation(&self) -> (r: FigureRepr)
        ensures
            r.title@ == (match self.f.title {
                Some(t) => t@,
                None => "Figure"@,
            }),
            r.size == self.f.figsize,
            r.dpi == self.f.dpi,
            r.facecolor == (
                self.f.facecolor.0,
                self.f.facecolor.1,
                self.f.facecolor.2,
                self.f.facecolor.3,
            ),
    {
        proof {
            reveal_strlit("Figure");
        }
        let title: String = match &self.f.title {
            Some(t) => t.clone(),
            None => "Figure".to_owned(),
        };
        let Color(cr, cg, cb, ca) = self.f.facecolor;
        FigureRepr { title, size: self.f.figsize, dpi: self.f.dpi, facecolor: (cr, cg, cb, ca) }
    }

    /// Clear the figure to its background, then draw every child artist
    /// in insertion order, each mapping its primitives through its own
    /// ancestor transforms. The figure's local space is the backend's
    /// device space: children start with an empty transform chain. The
    /// first backend error aborts the traversal and is returned.
    pub fn render<B: Backend>(&self, be: &mut B, fig_id: FigureId) -> (r: Result<(), B::Err>)
        requires
            self.wf(),
        ensures
            final(be).events_left() == old(be).events_left(),
    {
        let repr = self.backend_representation();
        let res = be.clear_figure(fig_id, &repr);
        if let Err(e) = res {
            return Err(e);
        }
        let chain: Vec<Rect> = Vec::new();
        let n: usize = self.children.len();
        for i in 0..n
            invariant
                n == self.children@.len(),
                self.wf(),
                be.events_left() == old(be).events_left(),
        {
            let res = self.children[i].render(&chain, fig_id, be);
            if let Err(e) = res {
                return Err(e);
            }
        }
        Ok(())
    }
}

} // verus!
