//! Reactive widget layer of a small on-screen calculator.
//!
//! A button is described by one declarative record ([`widget::MyButton`]).
//! The library expands each record exactly once into a small subtree of
//! visual elements, keeps a detached text element synchronized with the
//! record's text, routes discrete pointer clicks to a calculator state
//! machine that edits a shared display record, and lays the buttons out on a
//! uniformly gapped grid with exact fraction arithmetic.  Rendering, asset
//! decoding and input polling are external services; the shell around the
//! library performs them and feeds plain values in.

pub mod grid;
pub mod widget;
pub mod world;
pub mod compose;
pub mod action;
pub mod ui;
