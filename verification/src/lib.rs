//! An automated trading controller.
//!
//! The controller derives a low and a high threshold from the volatility of
//! a historical price series, and on each polling tick decides whether the
//! current price asks for a buy, for a sell, or for nothing. A start/stop
//! flag gates whether ticks act at all, and at most one order is in flight
//! at any time.
//!
//! Prices are fixed-point integers. All arithmetic is exact integer
//! arithmetic, rounded down where it has to round.
//!
//! - [`volatility`]: mean, dispersion and thresholds of a price series.
//! - [`controller`]: the run/stop state machine and the decision of a tick.
//! - [`settlement`]: the instruction that settles an order.
//! - [`control`]: the operations behind the control surface.
//! - [`volatility_lemmas`], [`controller_lemmas`]: what holds of all of them.

pub mod control;
pub mod controller;
pub mod controller_lemmas;
pub mod settlement;
pub mod volatility;
pub mod volatility_lemmas;
