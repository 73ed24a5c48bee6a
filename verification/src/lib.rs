//! A small 2D scene-graph plotting library.
//!
//! Figures own trees of artists (lines, plots, raster images, nested axes);
//! every artist emits drawable primitives in its own local coordinate frame,
//! and the containing axes map those primitives into their parent's frame.
//! An application object multiplexes several figures over one rendering
//! backend and routes backend events (render, resize, click, close) to the
//! figure they target.
//!
//! All coordinates, colors and sizes are carried by the fixed-point scalar
//! type [`fx::Fx`], so that every geometric and color computation in this
//! crate has an exact integer meaning that the function contracts state.

pub mod fx;

pub mod backend;

pub mod color;

pub mod color_lut;

pub mod extend_vec;

pub mod axis;

pub mod line;

pub mod line_collection;

pub mod plot;

pub mod image_view;

pub mod artist;

pub mod axes;

pub mod figure;

pub mod app;

pub mod dummy;

pub mod gfx_backend;

pub mod script_backend;
