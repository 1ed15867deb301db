//! Decision engine of a four-way road intersection.
//!
//! Everything is computed on integers. Lengths are thousandths of a screen
//! unit, times are microseconds, speeds are thousandths of a unit per second
//! and angles are microradians; see [`units`]. The host program converts at
//! its edge and supplies the one thing integers cannot: the sine and cosine
//! of a heading, as a [`geometry::Direction`].
//!
//! - [`cars`]: a vehicle, its spawn and its tick; [`motion`]: what holds of
//!   every tick of a vehicle.
//! - [`hazard`]: the footprints of body and sensor; [`arbiter`]: the target
//!   speeds that follow from them, and the right of way.
//! - [`lights`]: the adaptive traffic light.
//! - [`requests`]: spawn requests; [`sim`]: the vehicles on a field and the
//!   two halves of a tick; [`safety`]: what holds of every tick of the
//!   simulation; [`stats`]: statistics over the vehicles that have left.
//! - [`geometry`], [`paint`], [`units`]: points, rectangles, directions, the
//!   field, colours and constants.

pub mod units;
pub mod geometry;
mod chance;
pub mod paint;
pub mod cars;
pub mod motion;
pub mod lights;
pub mod hazard;
pub mod arbiter;
pub mod requests;
pub mod sim;
pub mod safety;
pub mod stats;
