//! The application: figure tracking and the event-driven render loop.
//!
//! An app owns an ordered list of figures, each with the backend handle
//! it was assigned on creation (a handle is assigned at most once).
//! Starting the app creates every not-yet-created figure in the backend,
//! then pulls events until the backend has none left, dispatching each
//! to the figure it targets: render walks that figure's artist tree,
//! resize updates its stored size, close drops it from tracking, click
//! runs its handlers in registration order, and a save request is
//! forwarded to the backend. A render for an unknown figure is skipped
//! so one misbehaving window cannot end a multi-figure session; a resize
//! or click for an unknown figure is reported to the caller. Any backend
//! error ends the loop and is returned unmodified.

use vstd::prelude::*;

verus! {

use crate::fx::{Fx, FX_ONE, sat64};
use crate::backend::{Backend, Event, EventKind, FigureId};
use crate::figure::{Figure, FigureAttributes, apply_handlers_spec};

/// Why starting or event dispatch failed.
#[derive(Debug)]
pub enum AppError<E> {
    /// The backend reported an error; it is carried unmodified.
    Backend(E),
    /// An event or call named a figure the app does not track.
    FigureNotFound,
}

/// One tracked figure and, once the backend created it, its handle.
pub struct FigureContainer {
    pub fig: Figure,
    pub id: Option<FigureId>,
}

/// The application: every figure, and the routing of backend events.
pub struct App {
    pub figs: Vec<FigureContainer>,
}

/// `i` is the first tracked index whose assigned handle is `id`.
pub open spec fn is_first_match(figs: Seq<FigureContainer>, id: FigureId, i: int) -> bool {
    &&& 0 <= i < figs.len()
    &&& figs[i].id == Some(id)
    &&& forall|t: int| 0 <= t < i ==> (#[trigger] figs[t]).id != Some(id)
}

/// No tracked figure has the handle `id`.
pub open spec fn no_match(figs: Seq<FigureContainer>, id: FigureId) -> bool {
    forall|t: int| 0 <= t < figs.len() ==> (#[trigger] figs[t]).id != Some(id)
}

/// The container after a resize to `w` by `h` pixels: only the stored
/// figure size changes.
pub open spec fn resized(c: FigureContainer, w: u32, h: u32) -> FigureContainer {
    FigureContainer {
        fig: Figure {
            f: FigureAttributes {
                figsize: (sat64(w * FX_ONE) as Fx, sat64(h * FX_ONE) as Fx),
                ..c.fig.f
            },
            ..c.fig
        },
        id: c.id,
    }
}

/// The container after a click event: every registered handler applied
/// to the attributes, in registration order, each seeing that event.
pub open spec fn clicked(c: FigureContainer, e: crate::backend::ClickEvent) -> FigureContainer {
    FigureContainer {
        fig: Figure { f: apply_handlers_spec(c.fig.click_event_handlers@, e, c.fig.f), ..c.fig },
        id: c.id,
    }
}

/// Every tracked figure has a backend handle.
pub open spec fn all_assigned(figs: Seq<FigureContainer>) -> bool {
    forall|i: int| 0 <= i < figs.len() ==> (#[trigger] figs[i]).id is Some
}

impl App {
    /// Every tracked figure is well formed.
    pub open spec fn wf(&self) -> bool {
        forall|i: int| 0 <= i < self.figs@.len() ==> (#[trigger] self.figs@[i]).fig.wf()
    }

    /// An app tracking no figures.
    pub fn new() -> (r: App)
        ensures
            r.figs@.len() == 0,
    {
        App { figs: Vec::new() }
    }

    /// Track one more figure, not yet created in any backend.
    pub fn add_figure(&mut self, fig: Figure)
        ensures
            final(self).figs@ == old(self).figs@.push(FigureContainer { fig, id: None }),
    {
        self.figs.push(FigureContainer { fig, id: None });
    }

    /// The first tracked index with handle `id`.
    fn index_by_id(&self, id: FigureId) -> (r: Option<usize>)
        ensures
            match r {
                Some(i) => is_first_match(self.figs@, id, i as int),
                None => no_match(self.figs@, id),
            },
    {
        let n: usize = self.figs.len();
        for i in 0..n
            invariant
                n == self.figs@.len(),
                forall|t: int| 0 <= t < i ==> (#[trigger] self.figs@[t]).id != Some(id),
        {
            let hit: bool = match self.figs[i].id {
                Some(fid) => fid == id,
                None => false,
            };
            if hit {
                return Some(i);
            }
        }
        None
    }

    /// Create every figure that has no backend handle yet; handles
    /// already assigned stay untouched, so a handle transitions from
    /// absent to present at most once, and no figure's contents change.
    /// The first backend failure aborts and is returned: creation
    /// failure is fatal to the whole start.
    pub fn create_figures<B: Backend>(&mut self, be: &mut B) -> (r: Result<(), AppError<B::Err>>)
        requires
            old(self).wf(),
        ensures
            final(self).wf(),
            final(be).events_left() == old(be).events_left(),
            final(self).figs@.len() == old(self).figs@.len(),
            forall|t: int|
                0 <= t < old(self).figs@.len() ==> (#[trigger] final(self).figs@[t]).fig == old(
                    self,
                ).figs@[t].fig && (old(self).figs@[t].id is Some ==> final(self).figs@[t].id
                    == old(self).figs@[t].id),
            r is Ok ==> all_assigned(final(self).figs@),
            r is Err ==> r->Err_0 is Backend,
    {
        let n: usize = self.figs.len();
        let mut i: usize = 0;
        while i < n
            invariant
                n == self.figs@.len(),
                n == old(self).figs@.len(),
                0 <= i <= n,
                self.wf(),
                be.events_left() == old(be).events_left(),
                forall|t: int|
                    0 <= t < n ==> (#[trigger] self.figs@[t]).fig == old(self).figs@[t].fig && (
                    old(self).figs@[t].id is Some ==> self.figs@[t].id == old(self).figs@[t].id),
                forall|t: int| 0 <= t < i ==> (#[trigger] self.figs@[t]).id is Some,
            decreases n - i,
        {
            let needs: bool = self.figs[i].id.is_none();
            if needs {
                let res = self.figs[i].fig.create(be);
                match res {
                    Ok(fid) => {
                        let ghost pre = self.figs@;
                        let mut c = self.figs.remove(i);
                        c.id = Some(fid);
                        self.figs.insert(i, c);
                        proof {
                            assert(self.figs@ =~= pre.update(
                                i as int,
                                FigureContainer { fig: pre[i as int].fig, id: Some(fid) },
                            ));
                        }
                    },
                    Err(e) => {
                        return Err(AppError::Backend(e));
                    },
                }
            }
            i = i + 1;
        }
        Ok(())
    }

    /// Dispatch one backend event to the figure it targets.
    ///
    /// Render walks the figure's artist tree (skipping silently when the
    /// handle is unknown); update is a reserved animation hook that does
    /// nothing; a save request goes straight to the backend; resize
    /// stores the new size on exactly the targeted figure; close drops
    /// the targeted figure from tracking; click applies the targeted
    /// figure's handlers in registration order. Unknown handles on
    /// resize and click surface as `FigureNotFound`.
    pub fn handle_event<B: Backend>(&mut self, be: &mut B, event: Event) -> (r: Result<
        (),
        AppError<B::Err>,
    >)
        requires
            old(self).wf(),
        ensures
            final(self).wf(),
            final(be).events_left() == old(be).events_left(),
            all_assigned(old(self).figs@) ==> all_assigned(final(self).figs@),
            match event.e {
                EventKind::Render => {
                    &&& final(self).figs@ == old(self).figs@
                    &&& no_match(old(self).figs@, event.fig_id) ==> r is Ok
                    &&& r is Err ==> r->Err_0 is Backend
                },
                EventKind::Update(_) => final(self).figs@ == old(self).figs@ && r is Ok,
                EventKind::SaveToFile => {
                    &&& final(self).figs@ == old(self).figs@
                    &&& r is Err ==> r->Err_0 is Backend
                },
                EventKind::Resize(w, h) => {
                    &&& no_match(old(self).figs@, event.fig_id) ==> r is Err && r->Err_0
                        is FigureNotFound && final(self).figs@ == old(self).figs@
                    &&& forall|i: int|
                        #[trigger] is_first_match(old(self).figs@, event.fig_id, i) ==> r is Ok
                            && final(self).figs@ == old(self).figs@.update(
                            i,
                            resized(old(self).figs@[i], w, h),
                        )
                },
                EventKind::Close => {
                    &&& r is Ok
                    &&& no_match(old(self).figs@, event.fig_id) ==> final(self).figs@
                        == old(self).figs@
                    &&& forall|i: int|
                        #[trigger] is_first_match(old(self).figs@, event.fig_id, i)
                            ==> final(self).figs@ == old(self).figs@.remove(i)
                },
                EventKind::Click(ce) => {
                    &&& no_match(old(self).figs@, event.fig_id) ==> r is Err && r->Err_0
                        is FigureNotFound && final(self).figs@ == old(self).figs@
                    &&& forall|i: int|
                        #[trigger] is_first_match(old(self).figs@, event.fig_id, i) ==> r is Ok
                            && final(self).figs@ == old(self).figs@.update(
                            i,
                            clicked(old(self).figs@[i], ce),
                        )
                },
            },
    {
        let Event { fig_id, e } = event;
        match e {
            EventKind::Render => {
                match self.index_by_id(fig_id) {
                    Some(i) => {
                        let res = self.figs[i].fig.render(be, fig_id);
                        match res {
                            Ok(_) => Ok(()),
                            Err(er) => Err(AppError::Backend(er)),
                        }
                    },
                    None => Ok(()),
                }
            },
            EventKind::Update(_dt) => Ok(()),
            EventKind::SaveToFile => {
                let res = be.save_to_file();
                match res {
                    Ok(_) => Ok(()),
                    Err(er) => Err(AppError::Backend(er)),
                }
            },
            EventKind::Resize(w, h) => {
                match self.index_by_id(fig_id) {
                    Some(i) => {
                        let ghost pre = self.figs@;
                        let mut c = self.figs.remove(i);
                        c.fig.set_figsize(w as i64, h as i64);
                        self.figs.insert(i, c);
                        proof {
                            assert(c.fig.f == resized(pre[i as int], w, h).fig.f);
                            assert(c == resized(pre[i as int], w, h));
                            assert(self.figs@ =~= pre.update(
                                i as int,
                                resized(pre[i as int], w, h),
                            ));
                        }
                        Ok(())
                    },
                    None => Err(AppError::FigureNotFound),
                }
            },
            EventKind::Close => {
                match self.index_by_id(fig_id) {
                    Some(i) => {
                        self.figs.remove(i);
                        Ok(())
                    },
                    None => Ok(()),
                }
            },
            EventKind::Click(ce) => {
                match self.index_by_id(fig_id) {
                    Some(i) => {
                        let ghost pre = self.figs@;
                        let mut c = self.figs.remove(i);
                        c.fig.handle_click(&ce);
                        self.figs.insert(i, c);
                        proof {
                            assert(c == clicked(pre[i as int], ce));
                            assert(self.figs@ =~= pre.update(
                                i as int,
                                clicked(pre[i as int], ce),
                            ));
                        }
                        Ok(())
                    },
                    None => Err(AppError::FigureNotFound),
                }
            },
        }
    }

    /// Create every figure in the backend through
    /// [`App::create_figures`] (whose contract pins the creation phase:
    /// handles assigned at most once, figure contents untouched), then
    /// pull and dispatch events until the backend yields none. Returns
    /// zero on a clean end; the first backend error, or an unknown
    /// figure handle on a resize or click, ends the loop early and is
    /// returned.
    pub fn start<B: Backend>(&mut self, be: &mut B) -> (r: Result<i32, AppError<B::Err>>)
        requires
            old(self).wf(),
        ensures
            final(self).wf(),
            r is Ok ==> r->Ok_0 == 0 && all_assigned(final(self).figs@),
    {
        let res = self.create_figures(be);
        if let Err(e) = res {
            return Err(e);
        }
        loop
            invariant
                self.wf(),
                all_assigned(self.figs@),
            decreases be.events_left(),
        {
            let ev = be.next_event();
            match ev {
                None => {
                    break;
                },
                Some(event) => {
                    let res = self.handle_event(be, event);
                    if let Err(e) = res {
                        return Err(e);
                    }
                },
            }
        }
        Ok(0)
    }
}

} // verus!
