use uwb_clock_tracker::clock_tracker::ClockTracker;
use uwb_clock_tracker::clock_tracker::CovMat;
use uwb_clock_tracker::clock_tracker::StateVec;
use uwb_clock_tracker::clock_tracker::CONSTRUCTED;
use uwb_clock_tracker::clock_tracker::INITIALIZED;

const TICK_RATE: f64 = 499.2 * 128.0;

fn state(offset: f64, skew: f64, drift: f64) -> StateVec {
    StateVec {
        offset: offset.to_bits(),
        skew: skew.to_bits(),
        drift: drift.to_bits(),
    }
}

fn state_f(v: &StateVec) -> [f64; 3] {
    [
        f64::from_bits(v.offset),
        f64::from_bits(v.skew),
        f64::from_bits(v.drift),
    ]
}

fn cov_f(m: &CovMat) -> [[f64; 3]; 3] {
    [
        [
            f64::from_bits(m.m00),
            f64::from_bits(m.m01),
            f64::from_bits(m.m02),
        ],
        [
            f64::from_bits(m.m10),
            f64::from_bits(m.m11),
            f64::from_bits(m.m12),
        ],
        [
            f64::from_bits(m.m20),
            f64::from_bits(m.m21),
            f64::from_bits(m.m22),
        ],
    ]
}

/// The elapsed seconds the tracker derives from a tick difference.
fn dt_seconds(dticks: i64) -> f64 {
    (dticks as f64) / TICK_RATE * 1.0e-6
}

/// f64 mirror of one predict step, in the library's operation order.
fn predict_oracle(x: &mut [f64; 3], p: &mut [[f64; 3]; 3], dticks: i64, acc: f64) {
    let dt = dt_seconds(dticks);
    *x = [x[0] + x[1] * dt, x[1] + x[2] * dt, x[2]];
    let a = [[1.0, dt, 0.5 * dt * dt], [0.0, 1.0, dt], [0.0, 0.0, 1.0]];
    let dt2 = dt * dt;
    let dt3 = dt * dt2;
    let dt4 = dt * dt3;
    let dt5 = dt * dt4;
    let q = [
        [
            ((dt5 / 20.0) * acc) * acc,
            ((dt4 / 8.0) * acc) * acc,
            ((dt3 / 6.0) * acc) * acc,
        ],
        [
            ((dt4 / 8.0) * acc) * acc,
            ((dt3 / 3.0) * acc) * acc,
            ((dt2 / 2.0) * acc) * acc,
        ],
        [
            ((dt3 / 6.0) * acc) * acc,
            ((dt2 / 2.0) * acc) * acc,
            (dt * acc) * acc,
        ],
    ];
    let dot3 = |a: [f64; 3], b: [f64; 3]| (a[0] * b[0] + a[1] * b[1]) + a[2] * b[2];
    let col = |m: &[[f64; 3]; 3], j: usize| [m[0][j], m[1][j], m[2][j]];
    let mut ap = [[0.0; 3]; 3];
    for i in 0..3 {
        for j in 0..3 {
            ap[i][j] = dot3(a[i], col(p, j));
        }
    }
    let mut apat = [[0.0; 3]; 3];
    for i in 0..3 {
        for j in 0..3 {
            apat[i][j] = dot3(ap[i], a[j]);
        }
    }
    for i in 0..3 {
        for j in 0..3 {
            p[i][j] = apat[i][j] + q[i][j];
        }
    }
}

/// f64 mirror of one update step, in the library's operation order.
/// Returns whether the measurement was accepted.
fn update_oracle(x: &mut [f64; 3], p: &mut [[f64; 3]; 3], ts: u64, tn: f64, th: f64) -> bool {
    let meas = (ts as f64) / TICK_RATE * 1.0e-6;
    let err = meas - x[0];
    let s2 = p[0][0] + tn * tn;
    if err * err > (th * th) * s2 {
        return false;
    }
    let sinv = 1.0 / s2;
    let k = [p[0][0] * sinv, p[1][0] * sinv, p[2][0] * sinv];
    *x = [x[0] + k[0] * err, x[1] + k[1] * err, x[2] + k[2] * err];
    let old = *p;
    for j in 0..3 {
        p[0][j] = (1.0 - k[0]) * old[0][j];
        p[1][j] = old[1][j] - k[1] * old[0][j];
        p[2][j] = old[2][j] - k[2] * old[0][j];
    }
    true
}

fn fresh_tracker(t0: u64, x0: StateVec, p0_diag: [f64; 3]) -> ClockTracker<INITIALIZED> {
    let tracker = ClockTracker::<CONSTRUCTED>::new(1.0e-8f64.to_bits(), 0.18e-9f64.to_bits());
    tracker.init_with_matdiag(t0, &x0, &state(p0_diag[0], p0_diag[1], p0_diag[2]))
}

#[test]
fn test_new_starts_with_uninformative_prior() {
    let tracker = ClockTracker::<CONSTRUCTED>::new(1.0e-8f64.to_bits(), 0.18e-9f64.to_bits());
    assert_eq!(tracker.t(), 0);
    assert_eq!(state_f(&tracker.x()), [0.0, 0.0, 0.0]);
    let p = cov_f(&tracker.P());
    for i in 0..3 {
        for j in 0..3 {
            assert_eq!(p[i][j], if i == j { 8.0e8 } else { 0.0 });
        }
    }
}

#[test]
fn test_init_with_matdiag_builds_diagonal_covariance() {
    let tracker = fresh_tracker(42, state(0.5, 1.0, 0.0), [8.0e4, 4.0e2, 0.8]);
    assert_eq!(tracker.t(), 42);
    assert_eq!(state_f(&tracker.x()), [0.5, 1.0, 0.0]);
    let p = cov_f(&tracker.P());
    assert_eq!(p[0][0], 8.0e4);
    assert_eq!(p[1][1], 4.0e2);
    assert_eq!(p[2][2], 0.8);
    for i in 0..3 {
        for j in 0..3 {
            if i != j {
                assert_eq!(p[i][j], 0.0);
            }
        }
    }
}

#[test]
fn test_predict_idempotent_at_same_timestamp() {
    let mut tracker = fresh_tracker(1000, state(0.25, 1.0003, 1.0e-7), [8.0e4, 4.0e2, 0.8]);
    let x_before = tracker.x();
    let p_before = tracker.P();
    assert!(tracker.predict_mut(1000));
    // bit-for-bit unchanged
    assert_eq!(tracker.x(), x_before);
    assert_eq!(tracker.P(), p_before);
    assert_eq!(tracker.t(), 1000);
}

#[test]
fn test_predict_matches_ieee_reference() {
    let mut tracker = fresh_tracker(0, state(0.5, 2.0, 1.0e-6), [8.0e4, 4.0e2, 0.8]);
    let t1: u64 = 63_897_600;  // one millisecond of ticks
    let x_lib = tracker.predict_x(t1);
    let p_lib = tracker.predict_P(t1);
    let mut x = [0.5, 2.0, 1.0e-6];
    let mut p = [[8.0e4, 0.0, 0.0], [0.0, 4.0e2, 0.0], [0.0, 0.0, 0.8]];
    predict_oracle(&mut x, &mut p, t1 as i64, 1.0e-8);
    assert_eq!(state_f(&x_lib), x);
    assert_eq!(cov_f(&p_lib), p);
    // and predict_mut installs exactly these values
    assert!(tracker.predict_mut(t1));
    assert_eq!(state_f(&tracker.x()), x);
    assert_eq!(cov_f(&tracker.P()), p);
    assert_eq!(tracker.t(), t1);
}

#[test]
fn test_update_matches_ieee_reference() {
    let mut tracker = fresh_tracker(0, state(0.0, 1.0, 0.0), [8.0e4, 4.0e2, 0.8]);
    let ts: u64 = 63_898;  // about one microsecond of offset
    let mut x = [0.0, 1.0, 0.0];
    let mut p = [[8.0e4, 0.0, 0.0], [0.0, 4.0e2, 0.0], [0.0, 0.0, 0.8]];
    let accepted = update_oracle(&mut x, &mut p, ts, 0.18e-9, 2.8);
    assert!(accepted);
    assert!(tracker.update(ts));
    assert_eq!(state_f(&tracker.x()), x);
    assert_eq!(cov_f(&tracker.P()), p);
    // update never advances the tracker's timestamp
    assert_eq!(tracker.t(), 0);
}

#[test]
fn test_outlier_rejected_leaves_state() {
    // a tight covariance and gate: sigma is about a nanosecond
    let mut tracker = fresh_tracker(0, state(0.0, 1.0, 0.0), [1.0e-18, 1.0e-6, 1.0e-6]);
    tracker.set_outlier_ratio_th(1.0f64.to_bits());
    let x_before = tracker.x();
    let p_before = tracker.P();
    // a measurement a microsecond away: thousands of standard deviations
    let accepted = tracker.update(63_898);
    assert!(!accepted);
    assert_eq!(tracker.x(), x_before);
    assert_eq!(tracker.P(), p_before);
    assert_eq!(tracker.t(), 0);
    // an in-gate measurement is still accepted afterwards
    assert!(tracker.update(0));
}

#[test]
fn test_skew_convergence_linear_drift() {
    // a remote clock running 300 ppm fast, observed every 100 microseconds
    let true_skew = 1.0003;
    let step: u64 = 6_389_760;
    let mut tracker = fresh_tracker(0, state(0.0, 1.0, 0.0), [8.0e4, 4.0e2, 0.8]);
    for i in 1..=80u64 {
        let ts = i * step;
        let rs = ((true_skew * ts as f64).round()) as u64;
        assert!(tracker.predict_mut(ts));
        assert!(tracker.update(rs));
    }
    let skew = state_f(&tracker.x())[1];
    assert!(
        (skew - true_skew).abs() < 1.0e-6,
        "estimated skew {} is not near {}",
        skew,
        true_skew
    );
}

#[test]
fn test_covariance_symmetric_psd_random_sequence() {
    // drive the filter with a pseudo-random but valid observation sequence
    // and check that the covariance stays symmetric and positive
    // semidefinite up to floating-point error
    let mut seed: u64 = 0x2545_F491_4F6C_DD1D;
    let mut next = move || {
        seed ^= seed << 13;
        seed ^= seed >> 7;
        seed ^= seed << 17;
        seed
    };
    let mut tracker = fresh_tracker(0, state(0.0, 1.0, 0.0), [8.0e4, 4.0e2, 0.8]);
    let mut t: u64 = 0;
    for _ in 0..60 {
        t += 1_000_000 + next() % 1_000_000_000;
        assert!(tracker.predict_mut(t));
        let jitter = (next() % 64) as f64 - 32.0;
        let rs = (1.0001 * t as f64 + jitter).round() as u64;
        tracker.update(rs);
        let p = cov_f(&tracker.P());
        let norm = p
            .iter()
            .flatten()
            .fold(0.0f64, |m, v| m.max(v.abs()))
            .max(1.0e-300);
        for i in 0..3 {
            for j in 0..3 {
                let scale = p[i][j].abs().max(p[j][i].abs());
                assert!(
                    (p[i][j] - p[j][i]).abs() <= 1.0e-3 * scale + 1.0e-18,
                    "asymmetry at {} {}: {:e} vs {:e}",
                    i,
                    j,
                    p[i][j],
                    p[j][i]
                );
            }
        }
        // principal minors, with a tolerance scaled to the entries
        assert!(p[0][0] >= -1.0e-6 * norm);
        assert!(p[1][1] >= -1.0e-6 * norm);
        assert!(p[2][2] >= -1.0e-6 * norm);
        let det2 = p[0][0] * p[1][1] - p[0][1] * p[1][0];
        assert!(det2 >= -1.0e-6 * norm * norm);
        let det3 = p[0][0] * (p[1][1] * p[2][2] - p[1][2] * p[2][1])
            - p[0][1] * (p[1][0] * p[2][2] - p[1][2] * p[2][0])
            + p[0][2] * (p[1][0] * p[2][1] - p[1][1] * p[2][0]);
        assert!(det3 >= -1.0e-6 * norm * norm * norm);
    }
}
