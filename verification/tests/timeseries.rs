use nirwizard::error::DecodeError;
use nirwizard::raw::RawMatrix;
use nirwizard::timeseries::{matrix_column, parse_timeseries_data};

fn matrix(rows: usize, cols: usize, values: &[f64]) -> RawMatrix {
    assert_eq!(values.len(), rows * cols);
    RawMatrix { rows, cols, data: values.iter().map(|v| v.to_bits()).collect() }
}

fn bits(values: &[f64]) -> Vec<u64> {
    values.iter().map(|v| v.to_bits()).collect()
}

#[test]
fn pairs_the_time_axis_with_column_series() {
    let time = bits(&[0.0, 0.1, 0.2]);
    let m = matrix(3, 2, &[1.0, 4.0, 2.0, 5.0, 3.0, 6.0]);
    let ts = parse_timeseries_data(time.clone(), &m).unwrap();
    assert_eq!(ts.time, time);
    assert_eq!(ts.data.len(), 2);
    assert_eq!(ts.data[0], bits(&[1.0, 2.0, 3.0]));
    assert_eq!(ts.data[1], bits(&[4.0, 5.0, 6.0]));
}

#[test]
fn time_length_mismatch_is_structural_error() {
    let time = bits(&[0.0, 0.1]);
    let m = matrix(3, 2, &[0.0; 6]);
    let r = parse_timeseries_data(time, &m);
    assert!(matches!(r, Err(DecodeError::StructuralError(_))));
}

#[test]
fn single_column_is_read_top_to_bottom() {
    let m = matrix(2, 3, &[1.0, 2.0, 3.0, 4.0, 5.0, 6.0]);
    assert_eq!(matrix_column(&m, 2), bits(&[3.0, 6.0]));
}
