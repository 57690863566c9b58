//! A retained-mode widget toolkit core.
//!
//! The library keeps a tree-free, insertion-ordered collection of widgets,
//! routes pointer events to the widget under the pointer, and rebuilds each
//! widget's cached texture only when it has been invalidated.  Rendering is
//! expressed as a sequence of [`render::RenderOp`] values: the host
//! application executes them against its own canvas and texture store, so
//! everything the library decides — hit testing, event dispatch, draw plans,
//! frame pacing — is verified here, while the window system stays outside.

pub mod geometry;
pub mod render;
pub mod texture;
pub mod event;
pub mod widget;
pub mod base_widget;
pub mod box_widget;
pub mod text_widget;
pub mod button_widget;
pub mod image_widget;
pub mod cache;
pub mod engine;
