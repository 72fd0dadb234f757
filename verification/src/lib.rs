//! The discrete core of a small solar-system orrery: the table of planets and
//! their orbital elements in exact decimal form, the roster of bodies of the
//! scene, the rule that says which per-frame update each body receives, and
//! the mapping from pressed keys to camera movement.
//!
//! Every quantity is an exact decimal: an integer count of thousandths of its
//! unit, or of the fraction that the field's name gives, so that the model
//! holds no rounded value. Trigonometry, rendering and input polling belong
//! to the program that embeds this library.

pub mod body;
pub mod catalog;
pub mod config;
pub mod elements;
pub mod frame;
pub mod input;
