use mcs_bridge::bridge::prepare_call;
use mcs_bridge::error::{BridgeError, BufferId};
use mcs_bridge::{is_supported_dimension, MAX_DIMENSION, MIN_DIMENSION};

#[test]
fn supported_dimension_boundaries() {
    assert!(!is_supported_dimension(0));
    assert!(is_supported_dimension(MIN_DIMENSION));
    assert!(is_supported_dimension(8));
    assert!(is_supported_dimension(MAX_DIMENSION));
    assert!(!is_supported_dimension(MAX_DIMENSION + 1));
}

fn bits_of(values: &[f64]) -> Vec<u64> {
    values.iter().map(|v| v.to_bits()).collect()
}

#[test]
fn prepare_accepts_every_supported_dimension() {
    for dim in MIN_DIMENSION..=MAX_DIMENSION {
        let lower = bits_of(&vec![-5.0; dim]);
        let upper = bits_of(&vec![5.0; dim]);
        let hess = bits_of(&vec![1.0; dim * dim]);
        let r = prepare_call(dim, lower.clone(), upper.clone(), dim, dim, hess.clone());
        let m = r.unwrap_or_else(|_| panic!("dimension {dim} should be accepted"));
        assert_eq!(m.lower.to_bits(), lower);
        assert_eq!(m.upper.to_bits(), upper);
        assert_eq!(m.hessian.to_bits(), hess);
        assert_eq!(m.lower.dim(), dim);
        assert_eq!(m.hessian.dim(), dim);
    }
}

#[test]
fn dimension_zero_is_unsupported() {
    let r = prepare_call(0, vec![], vec![], 0, 0, vec![]);
    match r {
        Err(BridgeError::UnsupportedDimension { dimension }) => assert_eq!(dimension, 0),
        other => panic!("expected UnsupportedDimension, got {other:?}"),
    }
}

#[test]
fn dimension_above_bound_is_unsupported() {
    let dim = MAX_DIMENSION + 1;
    let lower = bits_of(&vec![0.0; dim]);
    let upper = bits_of(&vec![1.0; dim]);
    let hess = bits_of(&vec![0.0; dim * dim]);
    let r = prepare_call(dim, lower, upper, dim, dim, hess);
    match r {
        Err(BridgeError::UnsupportedDimension { dimension }) => assert_eq!(dimension, dim),
        other => panic!("expected UnsupportedDimension, got {other:?}"),
    }
}

#[test]
fn short_lower_bound_is_a_shape_mismatch() {
    let lower = bits_of(&[0.0, 0.0]);
    let upper = bits_of(&[1.0, 1.0, 1.0]);
    let hess = bits_of(&vec![0.0; 9]);
    let r = prepare_call(3, lower, upper, 3, 3, hess);
    match r {
        Err(BridgeError::ShapeMismatch { buffer, expected, actual }) => {
            assert_eq!(buffer, BufferId::LowerBound);
            assert_eq!((expected.rows, expected.cols), (3, 1));
            assert_eq!((actual.rows, actual.cols), (2, 1));
        }
        other => panic!("expected ShapeMismatch, got {other:?}"),
    }
}

#[test]
fn long_upper_bound_is_a_shape_mismatch() {
    let lower = bits_of(&[0.0, 0.0]);
    let upper = bits_of(&[1.0, 1.0, 1.0]);
    let hess = bits_of(&vec![0.0; 4]);
    let r = prepare_call(2, lower, upper, 2, 2, hess);
    match r {
        Err(BridgeError::ShapeMismatch { buffer, expected, actual }) => {
            assert_eq!(buffer, BufferId::UpperBound);
            assert_eq!((expected.rows, expected.cols), (2, 1));
            assert_eq!((actual.rows, actual.cols), (3, 1));
        }
        other => panic!("expected ShapeMismatch, got {other:?}"),
    }
}

#[test]
fn wrong_hessian_shape_is_a_shape_mismatch() {
    let lower = bits_of(&[0.0, 0.0]);
    let upper = bits_of(&[1.0, 1.0]);
    let hess = bits_of(&vec![0.0; 6]);
    let r = prepare_call(2, lower, upper, 2, 3, hess);
    match r {
        Err(BridgeError::ShapeMismatch { buffer, expected, actual }) => {
            assert_eq!(buffer, BufferId::Hessian);
            assert_eq!((expected.rows, expected.cols), (2, 2));
            assert_eq!((actual.rows, actual.cols), (2, 3));
        }
        other => panic!("expected ShapeMismatch, got {other:?}"),
    }
}

#[test]
fn dimension_check_runs_before_shape_checks() {
    // Bad dimension and bad shapes together: the dimension complaint wins.
    let r = prepare_call(99, vec![], bits_of(&[1.0]), 5, 7, bits_of(&vec![0.0; 35]));
    match r {
        Err(BridgeError::UnsupportedDimension { dimension }) => assert_eq!(dimension, 99),
        other => panic!("expected UnsupportedDimension, got {other:?}"),
    }
}

#[test]
fn lower_bound_complaint_wins_over_upper_and_hessian() {
    let r = prepare_call(2, bits_of(&[0.0]), bits_of(&[1.0]), 9, 9, bits_of(&vec![0.0; 81]));
    match r {
        Err(BridgeError::ShapeMismatch { buffer, .. }) => {
            assert_eq!(buffer, BufferId::LowerBound)
        }
        other => panic!("expected ShapeMismatch, got {other:?}"),
    }
}
