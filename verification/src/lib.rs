//! Constructive geometry for rendering text in the circular Gallifreyan
//! script: a layout engine that tokenizes words into Gallifreyan letters,
//! places each letter's shape parts in a nested polar composition
//! (sentence circle, word circles, letter glyphs, modifier marks), and
//! computes the connecting arcs between adjacent letters and words.
//!
//! Angles and radii are kept as exact rational numbers (angles as
//! fractions of a full turn), and the arcsine corrections of the
//! connecting arcs are kept as symbolic terms, so that every step of the
//! layout is stated and proved exactly. An unverified shell evaluates the
//! finished layout numerically and renders it.

pub mod math;
pub mod letters;
pub mod tokenizer;
pub mod layout;
pub mod sentence;
pub mod drawer;
