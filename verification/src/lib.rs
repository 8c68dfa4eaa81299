//! Layout engine for reinforced-concrete beam cross-section drawings.
//!
//! The engine turns a validated beam description ([`input::RcBeamDrawing`])
//! into an ordered sequence of drawing commands ([`command::DrawCommand`]):
//! the beam outline, main-rebar circles and cross-marks, web-rebar marks,
//! stirrup lines and annotation text. All coordinates are kept exact
//! (rational numbers with an optional `1/sqrt(2)` component for the 45°
//! cross-marks); a drawing sink converts them to its own number format.

pub mod command;
pub mod geometry;
pub mod input;
pub mod laws;
pub mod output;
pub mod textfmt;
