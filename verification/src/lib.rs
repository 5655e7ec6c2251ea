//! Cooperative polling core for a magnetometer compass.
//!
//! The library models the scheduling layer of a small bare-metal compass:
//! a busy-poll executor that drives suspendable operations to completion,
//! an adapter that turns a hardware-readiness predicate into a suspendable
//! operation, the multi-phase register-read transaction against the
//! magnetometer, a one-shot countdown timer operation, and a combinator
//! that merges the two periodic event sources into one stream of tagged
//! events. Peripheral registers are modelled as plain-data ports so that
//! every register write, every status poll, and the order between them is
//! stated in contracts and proved.

pub mod adapter;
pub mod bus;
pub mod heading;
pub mod sample;
pub mod streams;
pub mod stub;
pub mod task;
pub mod timer;
