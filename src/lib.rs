//! Resolution of pointer gestures (click, multi-click, shift-click, drag)
//! against a text buffer into a multi-region selection.

pub mod text;
pub mod regions;
pub mod gesture;
pub mod laws;
