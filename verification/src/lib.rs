//! A buffering write adapter for a browser-hosted terminal widget.
//!
//! Generic text-output code writes bytes through a conventional buffered-writer
//! interface; the adapter batches those bytes and forwards them to the widget
//! as single text updates, preserving write ordering even when the widget is
//! also reached directly through the adapter.

pub mod crossterm;
pub mod xterm;
