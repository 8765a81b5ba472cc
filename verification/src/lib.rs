//! The decision logic of a differential-testing harness.
//!
//! A harness drives two implementations of one small API, a trusted reference
//! and a translated candidate, with identical arguments and reports any
//! observable difference between their results. The calls themselves cross a
//! foreign boundary and are made by the program around this library; what the
//! library holds is everything the harness decides: how engine input becomes
//! arguments, in which order the steps of an iteration follow each other, when
//! two results count as different, and which resources are released when.

pub mod build_plan;
pub mod decoder;
pub mod harness;
pub mod iteration;
pub mod oracle;
