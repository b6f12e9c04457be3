//! A circular progress indicator, modelled as pure state and geometry.
//!
//! The library computes everything a progress-ring widget decides: parsing
//! `#RRGGBB` color strings, holding the widget state with its latch rule for
//! value updates, and turning a state into the exact sequence of vector
//! drawing commands that paints the ring. A thin shell around the library
//! hands those commands to a concrete 2D drawing backend.

pub mod color;
pub mod render;
pub mod widget;
