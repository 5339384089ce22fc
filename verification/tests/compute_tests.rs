use compute_worker::compute::compute;
use compute_worker::task::{Metadata, Operation, PayloadEntry, Task, WarningKind};

fn task(operation: Operation, input: f64, values: Option<Vec<PayloadEntry>>) -> Task {
    Task {
        id: "task-1".to_string(),
        operation,
        input: input.to_bits(),
        price: None,
        kind: "arithmetic".to_string(),
        values,
        required_capabilities: Vec::new(),
    }
}

fn nums(values: &[f64]) -> Option<Vec<PayloadEntry>> {
    Some(values.iter().map(|v| PayloadEntry::Num(v.to_bits())).collect())
}

#[test]
fn square_of_three() {
    let (out, meta) = compute(&task(Operation::Square, 3.0, None));
    assert_eq!(out, 9.0f64.to_bits());
    assert_eq!(meta, None);
}

#[test]
fn square_matches_hardware_rounding() {
    let x = 1.1f64;
    let (out, _) = compute(&task(Operation::Square, x, None));
    assert_eq!(out, (x * x).to_bits());
}

#[test]
fn double_is_twice_the_input() {
    let (out, meta) = compute(&task(Operation::Double, 2.5, None));
    assert_eq!(out, 5.0f64.to_bits());
    assert_eq!(meta, None);
    let (neg, _) = compute(&task(Operation::Double, -0.75, None));
    assert_eq!(neg, (-1.5f64).to_bits());
}

#[test]
fn sqrt_matches_hardware() {
    let (out, meta) = compute(&task(Operation::Sqrt, 2.0, None));
    assert_eq!(out, 2.0f64.sqrt().to_bits());
    assert_eq!(meta, None);
    let (exact, _) = compute(&task(Operation::Sqrt, 81.0, None));
    assert_eq!(exact, 9.0f64.to_bits());
}

#[test]
fn sqrt_of_negative_is_nan() {
    let (out, _) = compute(&task(Operation::Sqrt, -1.0, None));
    assert!(f64::from_bits(out).is_nan());
}

#[test]
fn factorial_of_five() {
    let (out, meta) = compute(&task(Operation::Factorial, 5.0, None));
    assert_eq!(out, 120.0f64.to_bits());
    assert_eq!(meta, Some(Metadata::FactorialN { n: 5 }));
}

#[test]
fn factorial_of_negative_is_empty_product() {
    let (out, meta) = compute(&task(Operation::Factorial, -3.0, None));
    assert_eq!(out, 1.0f64.to_bits());
    assert_eq!(meta, Some(Metadata::FactorialN { n: 0 }));
}

#[test]
fn factorial_floors_its_input() {
    let (out, meta) = compute(&task(Operation::Factorial, 4.9, None));
    assert_eq!(out, 24.0f64.to_bits());
    assert_eq!(meta, Some(Metadata::FactorialN { n: 4 }));
}

#[test]
fn vector_sum_of_one_two_three() {
    let (out, meta) = compute(&task(Operation::VectorSum, 0.5, nums(&[1.0, 2.0, 3.0])));
    assert_eq!(out, 6.0f64.to_bits());
    assert_eq!(
        meta,
        Some(Metadata::VectorStats {
            count: 3,
            min: 1.0f64.to_bits(),
            max: 3.0f64.to_bits(),
            average: 2.0f64.to_bits(),
        })
    );
}

#[test]
fn vector_sum_skips_non_numeric_entries() {
    let values = vec![
        PayloadEntry::Num(1.0f64.to_bits()),
        PayloadEntry::NonNumeric,
        PayloadEntry::Num(2.0f64.to_bits()),
    ];
    let (out, meta) = compute(&task(Operation::VectorSum, 0.0, Some(values)));
    assert_eq!(out, 3.0f64.to_bits());
    assert_eq!(
        meta,
        Some(Metadata::VectorStats {
            count: 2,
            min: 1.0f64.to_bits(),
            max: 2.0f64.to_bits(),
            average: 1.5f64.to_bits(),
        })
    );
}

#[test]
fn vector_sum_without_values_echoes_input() {
    let (out, meta) = compute(&task(Operation::VectorSum, 7.25, None));
    assert_eq!(out, 7.25f64.to_bits());
    assert_eq!(meta, Some(Metadata::Warning { which: WarningKind::VectorSumMissingValues }));
}

#[test]
fn vector_sum_without_numeric_entries_echoes_input() {
    let (out, meta) = compute(&task(Operation::VectorSum, 7.25, Some(vec![PayloadEntry::NonNumeric])));
    assert_eq!(out, 7.25f64.to_bits());
    assert_eq!(meta, Some(Metadata::Warning { which: WarningKind::VectorSumNoNumericValues }));
}

#[test]
fn mean_of_two_values() {
    let (out, meta) = compute(&task(Operation::Mean, 0.0, nums(&[1.0, 2.0])));
    assert_eq!(out, 1.5f64.to_bits());
    assert_eq!(meta, Some(Metadata::MeanCount { count: 2 }));
}

#[test]
fn mean_of_empty_values_echoes_input() {
    let (out, meta) = compute(&task(Operation::Mean, 4.5, Some(Vec::new())));
    assert_eq!(out, 4.5f64.to_bits());
    assert_eq!(meta, Some(Metadata::Warning { which: WarningKind::MeanNoNumericValues }));
}

#[test]
fn mean_without_values_echoes_input() {
    let (out, meta) = compute(&task(Operation::Mean, 4.5, None));
    assert_eq!(out, 4.5f64.to_bits());
    assert_eq!(meta, Some(Metadata::Warning { which: WarningKind::MeanMissingValues }));
}

#[test]
fn compute_twice_is_bit_identical() {
    let t = task(Operation::VectorSum, 0.1, nums(&[0.1, 0.2, 0.3]));
    let first = compute(&t);
    let second = compute(&t);
    assert_eq!(first, second);
    let f = task(Operation::Factorial, 12.0, None);
    assert_eq!(compute(&f), compute(&f));
}

#[test]
fn warning_messages_match_wire_texts() {
    assert_eq!(WarningKind::VectorSumMissingValues.message(), "vector_sum payload missing");
    assert_eq!(
        WarningKind::VectorSumNoNumericValues.message(),
        "vector_sum payload missing numeric values"
    );
    assert_eq!(WarningKind::MeanMissingValues.message(), "mean payload missing");
    assert_eq!(WarningKind::MeanNoNumericValues.message(), "mean payload missing numeric values");
}

#[test]
fn factorial_of_nan_is_empty_product() {
    let (out, meta) = compute(&task(Operation::Factorial, f64::NAN, None));
    assert_eq!(out, 1.0f64.to_bits());
    assert_eq!(meta, Some(Metadata::FactorialN { n: 0 }));
}

#[test]
fn vector_sum_matches_hardware_fold() {
    let (out, meta) = compute(&task(Operation::VectorSum, 0.0, nums(&[0.1, 0.2, 0.3])));
    let sum = ((0.0f64 + 0.1) + 0.2) + 0.3;
    assert_eq!(out, sum.to_bits());
    match meta {
        Some(Metadata::VectorStats { count, min, max, average }) => {
            assert_eq!(count, 3);
            assert_eq!(min, 0.1f64.to_bits());
            assert_eq!(max, 0.3f64.to_bits());
            assert_eq!(average, (sum / 3.0).to_bits());
        }
        other => panic!("expected vector statistics, got {:?}", other),
    }
}

#[test]
fn mean_matches_hardware_fold() {
    let (out, _) = compute(&task(Operation::Mean, 0.0, nums(&[0.1, 0.2])));
    assert_eq!(out, (((0.0f64 + 0.1) + 0.2) / 2.0).to_bits());
}
