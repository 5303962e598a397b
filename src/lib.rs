//! Input disambiguation and choice selection for a two-button device UI.
//!
//! Raw press and release events of two physical buttons are turned into
//! triggers of three logical positions (left, middle, right), with an
//! optional hold-to-confirm gesture per position, and drive a lazily
//! populated choice selector such as the one used for PIN entry.
use vstd::prelude::*;

pub mod time;
pub mod event;
pub mod loader;
pub mod geometry;
pub mod button;
pub mod confirm;
pub mod button_controller;
pub mod controller_laws;
pub mod choice;
pub mod text_box;
pub mod pin;
pub mod homescreen;

verus! {

} // verus!
