//! Estimation of the relative clock offset, skew and drift between two
//! wireless ranging radios, via a small linear Kalman filter driven by raw
//! hardware tick timestamps.
//!
//! All fractional quantities (seconds, noise magnitudes, filter state and
//! covariance entries) are carried as the bit patterns of IEEE 754 binary64
//! values, held in `u64` words.  The primitive arithmetic on those bit
//! patterns is delegated to a software implementation of IEEE 754 and is the
//! only trusted boundary of the crate; everything layered above it — the
//! wraparound-safe tick arithmetic, the unit conversions, the tracker's
//! typestate and the exact shape of every predict and update step — is
//! verified.

pub mod clock_tracker;
pub mod dwt_utils;
pub mod fp;
