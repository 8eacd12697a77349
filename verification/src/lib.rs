//! Input-driven motion and look-rotation control for a single player entity.
//!
//! The library turns device inputs (key and mouse-button edges, mouse-motion
//! deltas) into per-frame decisions: a device-independent action state with
//! edge detection, an accumulated-and-clamped look orientation, and discrete
//! step-motion displacements. All quantities are exact fixed-point integers;
//! the host runtime owns windows, entities and rendering, converts between its
//! own units and the library's, and applies the returned transforms.

pub mod action;
pub mod num;
pub mod tracker;
pub mod look;
pub mod motion;
pub mod frame;
