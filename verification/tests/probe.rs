use nirwizard::error::DecodeError;
use nirwizard::probe::parse_probe;
use nirwizard::raw::RawMatrix;

fn matrix(rows: usize, cols: usize, values: &[f64]) -> RawMatrix {
    assert_eq!(values.len(), rows * cols);
    RawMatrix { rows, cols, data: values.iter().map(|v| v.to_bits()).collect() }
}

#[test]
fn optodes_are_named_and_positioned_by_row() {
    let s2d = matrix(2, 2, &[1.0, 2.0, 3.0, 4.0]);
    let s3d = matrix(2, 3, &[1.0, 2.0, 0.5, 3.0, 4.0, 0.6]);
    let d2d = matrix(1, 2, &[9.0, 8.0]);
    let d3d = matrix(1, 3, &[9.0, 8.0, 7.0]);
    let p = parse_probe(&s2d, &s3d, &d2d, &d3d).unwrap();

    assert_eq!(p.sources.len(), 2);
    assert_eq!(p.sources[0].name, "S1");
    assert_eq!(p.sources[0].id, 0);
    assert_eq!(p.sources[1].name, "S2");
    assert_eq!(f64::from_bits(p.sources[1].pos_2d.x), 3.0);
    assert_eq!(f64::from_bits(p.sources[1].pos_2d.y), 4.0);
    assert_eq!(f64::from_bits(p.sources[1].pos_3d.z), 0.6);

    assert_eq!(p.detectors.len(), 1);
    assert_eq!(p.detectors[0].name, "D1");
    assert_eq!(f64::from_bits(p.detectors[0].pos_3d.x), 9.0);
}

#[test]
fn mismatched_source_row_counts_are_structural_error() {
    let s2d = matrix(2, 2, &[0.0; 4]);
    let s3d = matrix(1, 3, &[0.0; 3]);
    let d2d = matrix(1, 2, &[0.0; 2]);
    let d3d = matrix(1, 3, &[0.0; 3]);
    let r = parse_probe(&s2d, &s3d, &d2d, &d3d);
    assert!(matches!(r, Err(DecodeError::StructuralError(_))));
}

#[test]
fn mismatched_detector_row_counts_are_structural_error() {
    let s2d = matrix(1, 2, &[0.0; 2]);
    let s3d = matrix(1, 3, &[0.0; 3]);
    let d2d = matrix(2, 2, &[0.0; 4]);
    let d3d = matrix(3, 3, &[0.0; 9]);
    let r = parse_probe(&s2d, &s3d, &d2d, &d3d);
    assert!(matches!(r, Err(DecodeError::StructuralError(_))));
}

#[test]
fn too_narrow_position_matrix_is_structural_error() {
    let s2d = matrix(1, 1, &[0.0]);
    let s3d = matrix(1, 3, &[0.0; 3]);
    let d2d = matrix(1, 2, &[0.0; 2]);
    let d3d = matrix(1, 3, &[0.0; 3]);
    let r = parse_probe(&s2d, &s3d, &d2d, &d3d);
    assert!(matches!(r, Err(DecodeError::StructuralError(_))));
}

#[test]
fn empty_probe_is_allowed() {
    let s2d = matrix(0, 2, &[]);
    let s3d = matrix(0, 3, &[]);
    let d2d = matrix(0, 2, &[]);
    let d3d = matrix(0, 3, &[]);
    let p = parse_probe(&s2d, &s3d, &d2d, &d3d).unwrap();
    assert!(p.sources.is_empty());
    assert!(p.detectors.is_empty());
}
