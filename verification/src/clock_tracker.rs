//! The clock-offset Kalman filter.
//!
//! A `ClockTracker` estimates the relative clock offset (seconds), skew
//! (dimensionless rate) and drift (rate of skew change) between two radios
//! from a stream of tick timestamps.  All fractional quantities are binary64
//! bit patterns (see `fp`); every predict and update step is specified
//! exactly, operation for operation, over the named primitive arithmetic.
//!
//! A tracker is created in a `CONSTRUCTED` phase that carries only the noise
//! parameters, and moves exactly once, by an initialization call that
//! consumes it, into the `INITIALIZED` phase; only that phase exposes
//! `predict` and `update`.  The phase is a type parameter, so the ordering is
//! enforced at compile time.

use vstd::prelude::*;

use crate::dwt_utils::dwt_ticks_to_us;
use crate::dwt_utils::dwt_time_diff;
use crate::dwt_utils::wrapped_diff;
use crate::dwt_utils::Timestamp;
use crate::dwt_utils::MICRO_BITS;
use crate::dwt_utils::TICKS_MODULUS;
use crate::dwt_utils::TICKS_PER_US_BITS;
use crate::fp::add_bits;
use crate::fp::bits_of_ticks;
use crate::fp::div_bits;
use crate::fp::fp_add;
use crate::fp::fp_div;
use crate::fp::fp_gt;
use crate::fp::fp_mul;
use crate::fp::fp_sub;
use crate::fp::gt_bits;
use crate::fp::is_positive_bits;
use crate::fp::mul_bits;
use crate::fp::sub_bits;
use crate::fp::BITS_EIGHT;
use crate::fp::BITS_HALF;
use crate::fp::BITS_ONE;
use crate::fp::BITS_SIX;
use crate::fp::BITS_THREE;
use crate::fp::BITS_TWENTY;
use crate::fp::BITS_TWO;
use crate::fp::BITS_ZERO;

verus! {

/// Phase tag of a tracker that was constructed but not yet initialized.
#[allow(non_camel_case_types)]
pub struct CONSTRUCTED;

/// Phase tag of a tracker that has received its initial state, covariance
/// and starting timestamp.
#[allow(non_camel_case_types)]
pub struct INITIALIZED;

/// A three-component vector over the filter's state basis — clock offset in
/// seconds, dimensionless skew, drift per second — with each component
/// carried as a binary64 bit pattern.  Also used for the diagonal of a
/// covariance matrix over the same basis.
#[derive(Clone, Copy, Debug, PartialEq, Eq, Structural)]
pub struct StateVec {
    pub offset: u64,
    pub skew: u64,
    pub drift: u64,
}

/// A 3x3 matrix over the filter's state basis, row-major, with each entry
/// carried as a binary64 bit pattern.
#[derive(Clone, Copy, Debug, PartialEq, Eq, Structural)]
pub struct CovMat {
    pub m00: u64,
    pub m01: u64,
    pub m02: u64,
    pub m10: u64,
    pub m11: u64,
    pub m12: u64,
    pub m20: u64,
    pub m21: u64,
    pub m22: u64,
}

/// Bit pattern of the variance put on every state component at construction,
/// before real initialization: 8 * 10^8, a near-uninformative prior.
pub const INITIAL_VARIANCE_BITS: u64 = 0x41C7_D784_0000_0000;

/// Bit pattern of the default outlier gate ratio: 14/5.
pub const DEFAULT_OUTLIER_RATIO_BITS: u64 = 0x4006_6666_6666_6666;

/// The inner product of two three-component rows, accumulated left to right.
pub open spec fn dot3_bits(a0: u64, a1: u64, a2: u64, b0: u64, b1: u64, b2: u64) -> u64 {
    add_bits(add_bits(mul_bits(a0, b0), mul_bits(a1, b1)), mul_bits(a2, b2))
}

/// The matrix product `a * b`.
pub open spec fn mat_mul_bits(a: CovMat, b: CovMat) -> CovMat {
    CovMat {
        m00: dot3_bits(a.m00, a.m01, a.m02, b.m00, b.m10, b.m20),
        m01: dot3_bits(a.m00, a.m01, a.m02, b.m01, b.m11, b.m21),
        m02: dot3_bits(a.m00, a.m01, a.m02, b.m02, b.m12, b.m22),
        m10: dot3_bits(a.m10, a.m11, a.m12, b.m00, b.m10, b.m20),
        m11: dot3_bits(a.m10, a.m11, a.m12, b.m01, b.m11, b.m21),
        m12: dot3_bits(a.m10, a.m11, a.m12, b.m02, b.m12, b.m22),
        m20: dot3_bits(a.m20, a.m21, a.m22, b.m00, b.m10, b.m20),
        m21: dot3_bits(a.m20, a.m21, a.m22, b.m01, b.m11, b.m21),
        m22: dot3_bits(a.m20, a.m21, a.m22, b.m02, b.m12, b.m22),
    }
}

/// The matrix product `a * transpose(b)`.
pub open spec fn mat_mul_transpose_bits(a: CovMat, b: CovMat) -> CovMat {
    CovMat {
        m00: dot3_bits(a.m00, a.m01, a.m02, b.m00, b.m01, b.m02),
        m01: dot3_bits(a.m00, a.m01, a.m02, b.m10, b.m11, b.m12),
        m02: dot3_bits(a.m00, a.m01, a.m02, b.m20, b.m21, b.m22),
        m10: dot3_bits(a.m10, a.m11, a.m12, b.m00, b.m01, b.m02),
        m11: dot3_bits(a.m10, a.m11, a.m12, b.m10, b.m11, b.m12),
        m12: dot3_bits(a.m10, a.m11, a.m12, b.m20, b.m21, b.m22),
        m20: dot3_bits(a.m20, a.m21, a.m22, b.m00, b.m01, b.m02),
        m21: dot3_bits(a.m20, a.m21, a.m22, b.m10, b.m11, b.m12),
        m22: dot3_bits(a.m20, a.m21, a.m22, b.m20, b.m21, b.m22),
    }
}

/// The entrywise matrix sum `a + b`.
pub open spec fn mat_add_bits(a: CovMat, b: CovMat) -> CovMat {
    CovMat {
        m00: add_bits(a.m00, b.m00),
        m01: add_bits(a.m01, b.m01),
        m02: add_bits(a.m02, b.m02),
        m10: add_bits(a.m10, b.m10),
        m11: add_bits(a.m11, b.m11),
        m12: add_bits(a.m12, b.m12),
        m20: add_bits(a.m20, b.m20),
        m21: add_bits(a.m21, b.m21),
        m22: add_bits(a.m22, b.m22),
    }
}

/// The diagonal matrix whose diagonal is `v`, with zero bits elsewhere.
pub open spec fn diagonal_bits(v: StateVec) -> CovMat {
    CovMat {
        m00: v.offset,
        m01: BITS_ZERO,
        m02: BITS_ZERO,
        m10: BITS_ZERO,
        m11: v.skew,
        m12: BITS_ZERO,
        m20: BITS_ZERO,
        m21: BITS_ZERO,
        m22: v.drift,
    }
}

/// The all-zero state vector.
pub open spec fn zero_state_bits() -> StateVec {
    StateVec { offset: BITS_ZERO, skew: BITS_ZERO, drift: BITS_ZERO }
}

/// The construction-time covariance: `INITIAL_VARIANCE_BITS` on the diagonal.
pub open spec fn initial_covariance_bits() -> CovMat {
    diagonal_bits(
        StateVec {
            offset: INITIAL_VARIANCE_BITS,
            skew: INITIAL_VARIANCE_BITS,
            drift: INITIAL_VARIANCE_BITS,
        },
    )
}

/// The state-transition matrix A(dt) of the second-order kinematic chain,
/// with `dt` in seconds-bits.
pub open spec fn transition_bits(dt: u64) -> CovMat {
    CovMat {
        m00: BITS_ONE,
        m01: dt,
        m02: mul_bits(mul_bits(BITS_HALF, dt), dt),
        m10: BITS_ZERO,
        m11: BITS_ONE,
        m12: dt,
        m20: BITS_ZERO,
        m21: BITS_ZERO,
        m22: BITS_ONE,
    }
}

/// The continuous white-noise-on-jerk process covariance Q(dt), scaled by
/// the squared acceleration-noise density `acc`.
pub open spec fn process_noise_bits(dt: u64, acc: u64) -> CovMat {
    let dt2 = mul_bits(dt, dt);
    let dt3 = mul_bits(dt, dt2);
    let dt4 = mul_bits(dt, dt3);
    let dt5 = mul_bits(dt, dt4);
    CovMat {
        m00: mul_bits(mul_bits(div_bits(dt5, BITS_TWENTY), acc), acc),
        m01: mul_bits(mul_bits(div_bits(dt4, BITS_EIGHT), acc), acc),
        m02: mul_bits(mul_bits(div_bits(dt3, BITS_SIX), acc), acc),
        m10: mul_bits(mul_bits(div_bits(dt4, BITS_EIGHT), acc), acc),
        m11: mul_bits(mul_bits(div_bits(dt3, BITS_THREE), acc), acc),
        m12: mul_bits(mul_bits(div_bits(dt2, BITS_TWO), acc), acc),
        m20: mul_bits(mul_bits(div_bits(dt3, BITS_SIX), acc), acc),
        m21: mul_bits(mul_bits(div_bits(dt2, BITS_TWO), acc), acc),
        m22: mul_bits(mul_bits(dt, acc), acc),
    }
}

/// The elapsed time from `t0` to `t` in seconds-bits: the wraparound-correct
/// tick difference, converted to microseconds, scaled to seconds.
pub open spec fn elapsed_seconds_bits(t: Timestamp, t0: Timestamp) -> u64 {
    mul_bits(
        div_bits(bits_of_ticks(wrapped_diff(t, t0) as i64), TICKS_PER_US_BITS),
        MICRO_BITS,
    )
}

/// A tick timestamp read as a direct measurement of the clock offset, in
/// seconds-bits.
pub open spec fn measured_offset_bits(ts: Timestamp) -> u64 {
    mul_bits(div_bits(bits_of_ticks(ts as i64), TICKS_PER_US_BITS), MICRO_BITS)
}

/// The deterministic part of the state transition over `dt` seconds-bits:
/// offset advances by skew * dt, skew by drift * dt, drift stays as it is.
pub open spec fn predicted_state_bits(x: StateVec, dt: u64) -> StateVec {
    StateVec {
        offset: add_bits(x.offset, mul_bits(x.skew, dt)),
        skew: add_bits(x.skew, mul_bits(x.drift, dt)),
        drift: x.drift,
    }
}

/// The clock-offset Kalman filter.  `S` is the phase tag: `CONSTRUCTED`
/// trackers carry only the noise parameters; `INITIALIZED` trackers expose
/// `predict_mut` and `update`.
pub struct ClockTracker<S> {
    timestamp_noise: u64,
    acceleration_noise: u64,
    x: StateVec,
    p: CovMat,
    t: Timestamp,
    outlier_ratio_th: u64,
    status: S,
}

impl<S> ClockTracker<S> {
    /// The current state estimate.
    pub closed spec fn spec_x(&self) -> StateVec {
        self.x
    }

    /// The current covariance.
    pub closed spec fn spec_p(&self) -> CovMat {
        self.p
    }

    /// The timestamp of the most recent processed observation.
    pub closed spec fn spec_t(&self) -> Timestamp {
        self.t
    }

    /// The measurement timestamp-noise standard deviation, fixed at
    /// construction.
    pub closed spec fn spec_timestamp_noise(&self) -> u64 {
        self.timestamp_noise
    }

    /// The process acceleration-noise spectral density, fixed at
    /// construction.
    pub closed spec fn spec_acceleration_noise(&self) -> u64 {
        self.acceleration_noise
    }

    /// The outlier gate ratio.
    pub closed spec fn spec_outlier_ratio_th(&self) -> u64 {
        self.outlier_ratio_th
    }

    /// Well-formedness: the last-observation timestamp is a value of the
    /// wrapping 40-bit counter.
    pub open spec fn wf(&self) -> bool {
        self.spec_t() < TICKS_MODULUS
    }

    /// A fresh tracker holding only its two noise parameters, both of which
    /// must be the bit patterns of strictly positive values; the state is
    /// zeroed and the covariance is a near-uninformative diagonal prior.
    pub fn new(acc_noise: u64, ts_noise: u64) -> (r: ClockTracker<CONSTRUCTED>)
        requires
            is_positive_bits(acc_noise),
            is_positive_bits(ts_noise),
        ensures
            r.spec_acceleration_noise() == acc_noise,
            r.spec_timestamp_noise() == ts_noise,
            r.spec_x() == zero_state_bits(),
            r.spec_p() == initial_covariance_bits(),
            r.spec_t() == 0u64,
            r.spec_outlier_ratio_th() == DEFAULT_OUTLIER_RATIO_BITS,
            r.wf(),
    {
        ClockTracker {
            timestamp_noise: ts_noise,
            acceleration_noise: acc_noise,
            x: StateVec { offset: BITS_ZERO, skew: BITS_ZERO, drift: BITS_ZERO },
            p: CovMat {
                m00: INITIAL_VARIANCE_BITS,
                m01: BITS_ZERO,
                m02: BITS_ZERO,
                m10: BITS_ZERO,
                m11: INITIAL_VARIANCE_BITS,
                m12: BITS_ZERO,
                m20: BITS_ZERO,
                m21: BITS_ZERO,
                m22: INITIAL_VARIANCE_BITS,
            },
            t: 0,
            outlier_ratio_th: DEFAULT_OUTLIER_RATIO_BITS,
            status: CONSTRUCTED,
        }
    }

    /// The timestamp of the most recent processed observation.
    pub fn t(&self) -> (r: Timestamp)
        ensures
            r == self.spec_t(),
    {
        self.t
    }

    /// The current state estimate, read-only.
    pub fn x(&self) -> (r: StateVec)
        ensures
            r == self.spec_x(),
    {
        self.x
    }

    /// The current covariance, read-only.
    #[allow(non_snake_case)]
    pub fn P(&self) -> (r: CovMat)
        ensures
            r == self.spec_p(),
    {
        self.p
    }

    /// Replaces the outlier gate ratio, which must be the bit pattern of a
    /// strictly positive value; every other field is untouched.
    pub fn set_outlier_ratio_th(&mut self, outlier_ratio_th: u64)
        requires
            is_positive_bits(outlier_ratio_th),
        ensures
            final(self).spec_outlier_ratio_th() == outlier_ratio_th,
            final(self).spec_x() == old(self).spec_x(),
            final(self).spec_p() == old(self).spec_p(),
            final(self).spec_t() == old(self).spec_t(),
            final(self).spec_timestamp_noise() == old(self).spec_timestamp_noise(),
            final(self).spec_acceleration_noise() == old(self).spec_acceleration_noise(),
    {
        self.outlier_ratio_th = outlier_ratio_th;
    }
}

impl ClockTracker<CONSTRUCTED> {
    /// Moves the tracker into its initialized phase, installing the given
    /// state, covariance and starting timestamp; every other field is
    /// untouched.
    pub fn init_with_mat(self, t0: Timestamp, x0: &StateVec, p0: &CovMat) -> (r: ClockTracker<
        INITIALIZED,
    >)
        requires
            t0 < TICKS_MODULUS,
        ensures
            r.spec_x() == *x0,
            r.spec_p() == *p0,
            r.spec_t() == t0,
            r.spec_timestamp_noise() == self.spec_timestamp_noise(),
            r.spec_acceleration_noise() == self.spec_acceleration_noise(),
            r.spec_outlier_ratio_th() == self.spec_outlier_ratio_th(),
            r.wf(),
    {
        ClockTracker {
            timestamp_noise: self.timestamp_noise,
            acceleration_noise: self.acceleration_noise,
            x: *x0,
            p: *p0,
            t: t0,
            outlier_ratio_th: self.outlier_ratio_th,
            status: INITIALIZED,
        }
    }

    /// As `init_with_mat`, with the covariance given by its diagonal.
    pub fn init_with_matdiag(self, t0: Timestamp, x0: &StateVec, p0: &StateVec) -> (r: ClockTracker<
        INITIALIZED,
    >)
        requires
            t0 < TICKS_MODULUS,
        ensures
            r.spec_x() == *x0,
            r.spec_p() == diagonal_bits(*p0),
            r.spec_t() == t0,
            r.spec_timestamp_noise() == self.spec_timestamp_noise(),
            r.spec_acceleration_noise() == self.spec_acceleration_noise(),
            r.spec_outlier_ratio_th() == self.spec_outlier_ratio_th(),
            r.wf(),
    {
        let p = CovMat {
            m00: p0.offset,
            m01: BITS_ZERO,
            m02: BITS_ZERO,
            m10: BITS_ZERO,
            m11: p0.skew,
            m12: BITS_ZERO,
            m20: BITS_ZERO,
            m21: BITS_ZERO,
            m22: p0.drift,
        };
        self.init_with_mat(t0, x0, &p)
    }
}

impl ClockTracker<INITIALIZED> {
    /// What `predict_x` returns: the state carried to time `t`, unchanged
    /// when no time has elapsed.
    pub open spec fn predict_x_spec(self, t: Timestamp) -> StateVec {
        if t == self.spec_t() {
            self.spec_x()
        } else {
            predicted_state_bits(self.spec_x(), elapsed_seconds_bits(t, self.spec_t()))
        }
    }

    /// What `predict_P` returns: `A * P * transpose(A) + Q`, unchanged when
    /// no time has elapsed.
    pub open spec fn predict_p_spec(self, t: Timestamp) -> CovMat {
        if t == self.spec_t() {
            self.spec_p()
        } else {
            let dt = elapsed_seconds_bits(t, self.spec_t());
            let a = transition_bits(dt);
            mat_add_bits(
                mat_mul_transpose_bits(mat_mul_bits(a, self.spec_p()), a),
                process_noise_bits(dt, self.spec_acceleration_noise()),
            )
        }
    }

    /// The predicted state at time `t`, which must not precede the last
    /// processed observation.  The tracker is not modified.
    pub fn predict_x(&self, t: Timestamp) -> (r: StateVec)
        requires
            self.wf(),
            t < TICKS_MODULUS,
            self.spec_t() <= t,
        ensures
            r == self.predict_x_spec(t),
    {
        if t == self.t {
            return self.x;
        }
        let dt = elapsed_seconds(t, self.t);
        StateVec {
            offset: fp_add(self.x.offset, fp_mul(self.x.skew, dt)),
            skew: fp_add(self.x.skew, fp_mul(self.x.drift, dt)),
            drift: self.x.drift,
        }
    }

    /// The predicted covariance at time `t`, which must not precede the last
    /// processed observation.  The tracker is not modified.
    #[allow(non_snake_case)]
    pub fn predict_P(&self, t: Timestamp) -> (r: CovMat)
        requires
            self.wf(),
            t < TICKS_MODULUS,
            self.spec_t() <= t,
        ensures
            r == self.predict_p_spec(t),
    {
        if t == self.t {
            return self.p;
        }
        let dt = elapsed_seconds(t, self.t);
        let a = CovMat {
            m00: BITS_ONE,
            m01: dt,
            m02: fp_mul(fp_mul(BITS_HALF, dt), dt),
            m10: BITS_ZERO,
            m11: BITS_ONE,
            m12: dt,
            m20: BITS_ZERO,
            m21: BITS_ZERO,
            m22: BITS_ONE,
        };
        let dt2 = fp_mul(dt, dt);
        let dt3 = fp_mul(dt, dt2);
        let dt4 = fp_mul(dt, dt3);
        let dt5 = fp_mul(dt, dt4);
        let acc = self.acceleration_noise;
        let q = CovMat {
            m00: fp_mul(fp_mul(fp_div(dt5, BITS_TWENTY), acc), acc),
            m01: fp_mul(fp_mul(fp_div(dt4, BITS_EIGHT), acc), acc),
            m02: fp_mul(fp_mul(fp_div(dt3, BITS_SIX), acc), acc),
            m10: fp_mul(fp_mul(fp_div(dt4, BITS_EIGHT), acc), acc),
            m11: fp_mul(fp_mul(fp_div(dt3, BITS_THREE), acc), acc),
            m12: fp_mul(fp_mul(fp_div(dt2, BITS_TWO), acc), acc),
            m20: fp_mul(fp_mul(fp_div(dt3, BITS_SIX), acc), acc),
            m21: fp_mul(fp_mul(fp_div(dt2, BITS_TWO), acc), acc),
            m22: fp_mul(fp_mul(dt, acc), acc),
        };
        let ap = mat_mul(&a, &self.p);
        let apat = mat_mul_transpose(&ap, &a);
        mat_add(&apat, &q)
    }

    /// Advances the tracker to time `t`: state and covariance take their
    /// predicted values and `t` becomes the last processed observation.
    /// Always reports success once the ordering precondition holds, and is
    /// idempotent at zero elapsed time: predicting to the current timestamp
    /// leaves state and covariance bit for bit unchanged.
    pub fn predict_mut(&mut self, t: Timestamp) -> (r: bool)
        requires
            old(self).wf(),
            t < TICKS_MODULUS,
            old(self).spec_t() <= t,
        ensures
            final(self).spec_x() == old(self).predict_x_spec(t),
            final(self).spec_p() == old(self).predict_p_spec(t),
            final(self).spec_t() == t,
            final(self).spec_timestamp_noise() == old(self).spec_timestamp_noise(),
            final(self).spec_acceleration_noise() == old(self).spec_acceleration_noise(),
            final(self).spec_outlier_ratio_th() == old(self).spec_outlier_ratio_th(),
            final(self).wf(),
            r,
            t == old(self).spec_t() ==> final(self).spec_x() == old(self).spec_x()
                && final(self).spec_p() == old(self).spec_p(),
    {
        let new_x = self.predict_x(t);
        let new_p = self.predict_P(t);
        self.x = new_x;
        self.p = new_p;
        self.t = t;
        true
    }

    /// The innovation: the measured offset minus the current offset estimate.
    pub open spec fn innovation_bits(self, ts: Timestamp) -> u64 {
        sub_bits(measured_offset_bits(ts), self.spec_x().offset)
    }

    /// The innovation variance: the offset variance plus the squared
    /// measurement noise.
    pub open spec fn innovation_var_bits(self) -> u64 {
        add_bits(
            self.spec_p().m00,
            mul_bits(self.spec_timestamp_noise(), self.spec_timestamp_noise()),
        )
    }

    /// Whether the measurement at `ts` fails the outlier gate: its squared
    /// innovation exceeds the squared gate ratio times the innovation
    /// variance.
    pub open spec fn update_is_outlier(self, ts: Timestamp) -> bool {
        gt_bits(
            mul_bits(self.innovation_bits(ts), self.innovation_bits(ts)),
            mul_bits(
                mul_bits(self.spec_outlier_ratio_th(), self.spec_outlier_ratio_th()),
                self.innovation_var_bits(),
            ),
        )
    }

    /// What an accepted update makes of the state: `x + K * err` for the
    /// Kalman gain `K = P * transpose(H) / s2` of the offset-only
    /// measurement model `H = [1, 0, 0]`.
    pub open spec fn updated_state_bits(self, ts: Timestamp) -> StateVec {
        let err = self.innovation_bits(ts);
        let sinv = div_bits(BITS_ONE, self.innovation_var_bits());
        let k0 = mul_bits(self.spec_p().m00, sinv);
        let k1 = mul_bits(self.spec_p().m10, sinv);
        let k2 = mul_bits(self.spec_p().m20, sinv);
        StateVec {
            offset: add_bits(self.spec_x().offset, mul_bits(k0, err)),
            skew: add_bits(self.spec_x().skew, mul_bits(k1, err)),
            drift: add_bits(self.spec_x().drift, mul_bits(k2, err)),
        }
    }

    /// What an accepted update makes of the covariance: `(I - K * H) * P` in
    /// the simplified, non-Joseph form.
    pub open spec fn updated_covariance_bits(self, ts: Timestamp) -> CovMat {
        let sinv = div_bits(BITS_ONE, self.innovation_var_bits());
        let k0 = mul_bits(self.spec_p().m00, sinv);
        let k1 = mul_bits(self.spec_p().m10, sinv);
        let k2 = mul_bits(self.spec_p().m20, sinv);
        let p = self.spec_p();
        CovMat {
            m00: mul_bits(sub_bits(BITS_ONE, k0), p.m00),
            m01: mul_bits(sub_bits(BITS_ONE, k0), p.m01),
            m02: mul_bits(sub_bits(BITS_ONE, k0), p.m02),
            m10: sub_bits(p.m10, mul_bits(k1, p.m00)),
            m11: sub_bits(p.m11, mul_bits(k1, p.m01)),
            m12: sub_bits(p.m12, mul_bits(k1, p.m02)),
            m20: sub_bits(p.m20, mul_bits(k2, p.m00)),
            m21: sub_bits(p.m21, mul_bits(k2, p.m01)),
            m22: sub_bits(p.m22, mul_bits(k2, p.m02)),
        }
    }

    /// Corrects the estimate with the timestamp `ts`, read as a noisy direct
    /// measurement of the offset.  A measurement failing the outlier gate is
    /// rejected: the call reports failure and the tracker is left bit for
    /// bit unmodified.  An accepted measurement moves state and covariance
    /// to their corrected values.  The last processed timestamp never
    /// changes: advancing time is `predict_mut`'s business alone.
    pub fn update(&mut self, ts: Timestamp) -> (r: bool)
        requires
            old(self).wf(),
            ts < TICKS_MODULUS,
        ensures
            r == !old(self).update_is_outlier(ts),
            final(self).spec_t() == old(self).spec_t(),
            final(self).spec_timestamp_noise() == old(self).spec_timestamp_noise(),
            final(self).spec_acceleration_noise() == old(self).spec_acceleration_noise(),
            final(self).spec_outlier_ratio_th() == old(self).spec_outlier_ratio_th(),
            final(self).wf(),
            !r ==> final(self).spec_x() == old(self).spec_x(),
            !r ==> final(self).spec_p() == old(self).spec_p(),
            r ==> final(self).spec_x() == old(self).updated_state_bits(ts),
            r ==> final(self).spec_p() == old(self).updated_covariance_bits(ts),
    {
        let meas = fp_mul(dwt_ticks_to_us(ts as i64), MICRO_BITS);
        let err = fp_sub(meas, self.x.offset);
        let s2 = fp_add(self.p.m00, fp_mul(self.timestamp_noise, self.timestamp_noise));
        let is_outlier = fp_gt(
            fp_mul(err, err),
            fp_mul(fp_mul(self.outlier_ratio_th, self.outlier_ratio_th), s2),
        );
        if is_outlier {
            false
        } else {
            let sinv = fp_div(BITS_ONE, s2);
            let k0 = fp_mul(self.p.m00, sinv);
            let k1 = fp_mul(self.p.m10, sinv);
            let k2 = fp_mul(self.p.m20, sinv);
            let p = self.p;
            self.x = StateVec {
                offset: fp_add(self.x.offset, fp_mul(k0, err)),
                skew: fp_add(self.x.skew, fp_mul(k1, err)),
                drift: fp_add(self.x.drift, fp_mul(k2, err)),
            };
            self.p = CovMat {
                m00: fp_mul(fp_sub(BITS_ONE, k0), p.m00),
                m01: fp_mul(fp_sub(BITS_ONE, k0), p.m01),
                m02: fp_mul(fp_sub(BITS_ONE, k0), p.m02),
                m10: fp_sub(p.m10, fp_mul(k1, p.m00)),
                m11: fp_sub(p.m11, fp_mul(k1, p.m01)),
                m12: fp_sub(p.m12, fp_mul(k1, p.m02)),
                m20: fp_sub(p.m20, fp_mul(k2, p.m00)),
                m21: fp_sub(p.m21, fp_mul(k2, p.m01)),
                m22: fp_sub(p.m22, fp_mul(k2, p.m02)),
            };
            true
        }
    }
}

/// The elapsed time from `t0` to `t` in seconds-bits.
fn elapsed_seconds(t: Timestamp, t0: Timestamp) -> (r: u64)
    ensures
        r == elapsed_seconds_bits(t, t0),
{
    let dticks = dwt_time_diff(t, t0);
    fp_mul(dwt_ticks_to_us(dticks), MICRO_BITS)
}

/// The matrix product `a * b`.
fn mat_mul(a: &CovMat, b: &CovMat) -> (r: CovMat)
    ensures
        r == mat_mul_bits(*a, *b),
{
    CovMat {
        m00: dot3(a.m00, a.m01, a.m02, b.m00, b.m10, b.m20),
        m01: dot3(a.m00, a.m01, a.m02, b.m01, b.m11, b.m21),
        m02: dot3(a.m00, a.m01, a.m02, b.m02, b.m12, b.m22),
        m10: dot3(a.m10, a.m11, a.m12, b.m00, b.m10, b.m20),
        m11: dot3(a.m10, a.m11, a.m12, b.m01, b.m11, b.m21),
        m12: dot3(a.m10, a.m11, a.m12, b.m02, b.m12, b.m22),
        m20: dot3(a.m20, a.m21, a.m22, b.m00, b.m10, b.m20),
        m21: dot3(a.m20, a.m21, a.m22, b.m01, b.m11, b.m21),
        m22: dot3(a.m20, a.m21, a.m22, b.m02, b.m12, b.m22),
    }
}

/// The matrix product `a * transpose(b)`.
fn mat_mul_transpose(a: &CovMat, b: &CovMat) -> (r: CovMat)
    ensures
        r == mat_mul_transpose_bits(*a, *b),
{
    CovMat {
        m00: dot3(a.m00, a.m01, a.m02, b.m00, b.m01, b.m02),
        m01: dot3(a.m00, a.m01, a.m02, b.m10, b.m11, b.m12),
        m02: dot3(a.m00, a.m01, a.m02, b.m20, b.m21, b.m22),
        m10: dot3(a.m10, a.m11, a.m12, b.m00, b.m01, b.m02),
        m11: dot3(a.m10, a.m11, a.m12, b.m10, b.m11, b.m12),
        m12: dot3(a.m10, a.m11, a.m12, b.m20, b.m21, b.m22),
        m20: dot3(a.m20, a.m21, a.m22, b.m00, b.m01, b.m02),
        m21: dot3(a.m20, a.m21, a.m22, b.m10, b.m11, b.m12),
        m22: dot3(a.m20, a.m21, a.m22, b.m20, b.m21, b.m22),
    }
}

/// The entrywise matrix sum `a + b`.
fn mat_add(a: &CovMat, b: &CovMat) -> (r: CovMat)
    ensures
        r == mat_add_bits(*a, *b),
{
    CovMat {
        m00: fp_add(a.m00, b.m00),
        m01: fp_add(a.m01, b.m01),
        m02: fp_add(a.m02, b.m02),
        m10: fp_add(a.m10, b.m10),
        m11: fp_add(a.m11, b.m11),
        m12: fp_add(a.m12, b.m12),
        m20: fp_add(a.m20, b.m20),
        m21: fp_add(a.m21, b.m21),
        m22: fp_add(a.m22, b.m22),
    }
}

/// The inner product of two three-component rows, accumulated left to right.
fn dot3(a0: u64, a1: u64, a2: u64, b0: u64, b1: u64, b2: u64) -> (r: u64)
    ensures
        r == dot3_bits(a0, a1, a2, b0, b1, b2),
{
    fp_add(fp_add(fp_mul(a0, b0), fp_mul(a1, b1)), fp_mul(a2, b2))
}

} // verus!
