//! Core contract for typed dataflow processing units.
//!
//! A pipeline is an ordered chain of processing units exchanging tagged
//! runtime values. This crate verifies the contract every unit implements:
//! the tagged value model and reference-counted object handles, parameter
//! binding against named scope variables, the unit lifecycle state machine,
//! the cooperative bridge for blocking operations, and compose-time
//! specialization of execution routines.

use vstd::prelude::*;

pub mod bridge;
pub mod errors;
pub mod handles;
pub mod hashing;
pub mod image_unit;
pub mod image_util;
pub mod params;
pub mod scope;
pub mod unit;
pub mod values;
pub mod ws_units;

verus! {

} // verus!
