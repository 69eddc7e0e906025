//! Gas price advice from recent price history.
//!
//! A request names the price about to be paid and a history of recent prices.
//! The answer suggests a price, says whether the current one is risky, and
//! when to submit. Requests and answers travel as JSON.
//!
//! Prices are counted exactly, as decimal numbers without bound: whatever
//! number a request names is the number that is judged and answered.

pub mod advice;
pub mod big;
pub mod clock;
pub mod decimal;
pub mod decode;
pub mod exact;
pub mod json;
pub mod laws;
pub mod model;
pub mod optimizer;
pub mod reading;
pub mod response;
pub mod stats;
pub mod writing;

pub use crate::model::{Decimal, OptimizeInput, OptimizeOutput, RecentGasPoint, Timestamp};
pub use crate::optimizer::{optimize, optimize_at, try_optimize_at};
pub use crate::reading::parse_price;
