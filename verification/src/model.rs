//! The request and the response, and what contracts say of them.
//!
//! A price is held exactly: as a whole number of units, and the power of ten
//! of a gwei that a unit is. Both are integers without bound, so that a
//! request can name any number, of any size and with any number of decimal
//! places, and none of it is lost.

use crate::big::{big_copy, big_value};
use num_bigint::BigInt;
use vstd::prelude::*;

verus! {

/// A decimal number: `units` times ten to the power of `exponent`.
#[derive(Debug, Clone, PartialEq, Eq)]
pub struct Decimal {
    pub units: BigInt,
    pub exponent: BigInt,
}

/// A decimal number as contracts see it.
pub struct DecimalView {
    pub units: int,
    pub exponent: int,
}

impl View for Decimal {
    type V = DecimalView;

    open spec fn view(&self) -> DecimalView {
        DecimalView { units: big_value(self.units), exponent: big_value(self.exponent) }
    }
}

/// A copy of `d`.
pub fn copy_decimal(d: &Decimal) -> (r: Decimal)
    ensures
        r@ == d@,
{
    Decimal { units: big_copy(&d.units), exponent: big_copy(&d.exponent) }
}

/// One sample of the price history.
#[derive(Debug, Clone, PartialEq, Eq)]
pub struct RecentGasPoint {
    /// When the sample was taken, as the caller wrote it. It is carried along
    /// and never read.
    pub timestamp: String,
    /// The price in gwei.
    pub gas_gwei: Decimal,
}

/// A request: the price about to be paid, and the history to judge it by,
/// oldest sample first. The order is the caller's word; it is not checked.
#[derive(Debug, Clone, PartialEq, Eq)]
pub struct OptimizeInput {
    /// The transaction that the request is about. It is carried along and
    /// never read.
    pub tx: String,
    /// The price in gwei.
    pub current_gas: Decimal,
    /// The history, oldest sample first. It may be empty.
    pub recent: Vec<RecentGasPoint>,
}

/// A response.
#[derive(Debug, Clone, PartialEq, Eq)]
pub struct OptimizeOutput {
    /// The suggested price in gwei. With a history it is a whole number of
    /// hundredths of a gwei; without one it is the current price as it came.
    pub suggested_gas: Decimal,
    /// Whether the price about to be paid is above the 90th percentile of the
    /// history.
    pub risk: bool,
    /// When to submit, as an RFC 3339 timestamp.
    pub optimal_time_iso: String,
    /// Why: the median that the suggestion rests on, or that there is no
    /// history.
    pub reason: String,
}

/// A point in time: seconds since the Unix epoch, and nanoseconds into the
/// second.
#[derive(Debug, Clone, Copy, PartialEq, Eq)]
pub struct Timestamp {
    pub secs: i64,
    pub nanos: u32,
}

/// A sample as contracts see it.
pub struct RecentGasPointView {
    pub timestamp: Seq<char>,
    pub gas_gwei: DecimalView,
}

/// A request as contracts see it.
pub struct OptimizeInputView {
    pub tx: Seq<char>,
    pub current_gas: DecimalView,
    pub recent: Seq<RecentGasPointView>,
}

/// A response as contracts see it.
pub struct OptimizeOutputView {
    pub suggested_gas: DecimalView,
    pub risk: bool,
    pub optimal_time_iso: Seq<char>,
    pub reason: Seq<char>,
}

impl View for RecentGasPoint {
    type V = RecentGasPointView;

    open spec fn view(&self) -> RecentGasPointView {
        RecentGasPointView { timestamp: self.timestamp@, gas_gwei: self.gas_gwei@ }
    }
}

impl View for OptimizeInput {
    type V = OptimizeInputView;

    open spec fn view(&self) -> OptimizeInputView {
        OptimizeInputView {
            tx: self.tx@,
            current_gas: self.current_gas@,
            recent: Seq::new(self.recent@.len(), |i: int| self.recent@[i]@),
        }
    }
}

impl View for OptimizeOutput {
    type V = OptimizeOutputView;

    open spec fn view(&self) -> OptimizeOutputView {
        OptimizeOutputView {
            suggested_gas: self.suggested_gas@,
            risk: self.risk,
            optimal_time_iso: self.optimal_time_iso@,
            reason: self.reason@,
        }
    }
}

} // verus!
