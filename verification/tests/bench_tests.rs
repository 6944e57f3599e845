use mnist_int8::bench::{benchmark_report, classify_cycles, stage_cycles, stage_percent,
    PerfClass, MAC_OPS_PER_INFERENCE};

#[test]
fn benchmark_report_values() {
    let r = benchmark_report(100, 1100, 10);
    assert_eq!(r.total_cycles, 1000);
    assert_eq!(r.cycles_per_inference, 100);
    assert_eq!(r.inferences_per_second, 10_000_000);
    assert_eq!(r.total_mac_operations, 10 * MAC_OPS_PER_INFERENCE);
    assert_eq!(MAC_OPS_PER_INFERENCE, 234_752);
}

#[test]
fn benchmark_report_zero_cycles() {
    let r = benchmark_report(42, 42, 5);
    assert_eq!(r.total_cycles, 0);
    assert_eq!(r.cycles_per_inference, 0);
    assert_eq!(r.inferences_per_second, 0);
}

#[test]
fn performance_classification_thresholds() {
    assert_eq!(classify_cycles(99_999), PerfClass::Excellent);
    assert_eq!(classify_cycles(100_000), PerfClass::Good);
    assert_eq!(classify_cycles(499_999), PerfClass::Good);
    assert_eq!(classify_cycles(500_000), PerfClass::Moderate);
    assert_eq!(classify_cycles(1_999_999), PerfClass::Moderate);
    assert_eq!(classify_cycles(2_000_000), PerfClass::NeedsOptimization);
}

#[test]
fn stage_arithmetic() {
    assert_eq!(stage_cycles(50, 1050, 100), 10);
    assert_eq!(stage_percent(25, 100), 25);
    assert_eq!(stage_percent(1, 3), 33);
}
