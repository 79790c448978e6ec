use cffdrs::cfb_calc;
use cffdrs::fi_calc;
use cffdrs::mode_from_option;

fn rso_record(fmc: f64, sfc: f64, cbh: f64) -> f64 {
    let lhs = f64::powf(cbh, 1.5) * 0.001;
    let rhs = f64::powf(fmc * 25.9 + 460.0, 1.5);
    let csi = lhs * rhs;
    csi / (sfc * 300.0)
}

fn cfb_record(fmc: f64, sfc: f64, ros: f64, cbh: f64) -> f64 {
    let rso = rso_record(fmc, sfc, cbh);
    if ros > rso {
        1.0 - f64::exp(-0.23) * (ros - rso)
    } else {
        0.0
    }
}

fn fi_record(fc: f64, ros: f64) -> f64 {
    300.0 * fc * ros
}

#[test]
fn cffdrs_basic_single_input() {
    let result = cfb_calc(
        &[1.0],
        &[1.0],
        &[1.0],
        &[1.0],
        mode_from_option("cfb"),
        -1.0,
        rso_record,
        cfb_record,
    );
    assert_eq!(result, Ok(vec![0.23383326388098113]));
}

#[test]
fn cffdrs_basic_error_wrong_lengths() {
    let result = cfb_calc(
        &[1.0, 1.0],
        &[1.0],
        &[1.0],
        &[1.0],
        mode_from_option("cfb"),
        -1.0,
        rso_record,
        cfb_record,
    );
    assert_eq!(result, Err(-1.0));
}

#[test]
fn basic_single_rso_lower_case() {
    let result = cfb_calc(
        &[1.0],
        &[1.0],
        &[1.0],
        &[1.0],
        mode_from_option("rso"),
        -1.0,
        rso_record,
        cfb_record,
    );
    assert_eq!(result, Ok(vec![0.03570253831296717]));
}

#[test]
fn basic_single_rso_upper_case() {
    let result = cfb_calc(
        &[1.0],
        &[1.0],
        &[1.0],
        &[1.0],
        mode_from_option("RSO"),
        -1.0,
        rso_record,
        cfb_record,
    );
    assert_eq!(result, Ok(vec![0.03570253831296717]));
}

#[test]
fn cffdrs_basic_multiple_input() {
    let result = cfb_calc(
        &[1.0, 1.0],
        &[1.0, 1.0],
        &[1.0, 1.0],
        &[1.0, 1.0],
        mode_from_option("cfb"),
        -1.0,
        rso_record,
        cfb_record,
    );
    assert_eq!(result, Ok(vec![0.23383326388098113, 0.23383326388098113]));
}

#[test]
fn basic_multiple_rso_lower_case() {
    let result = cfb_calc(
        &[1.0, 1.0],
        &[1.0, 1.0],
        &[1.0, 1.0],
        &[1.0, 1.0],
        mode_from_option("rso"),
        -1.0,
        rso_record,
        cfb_record,
    );
    assert_eq!(result, Ok(vec![0.03570253831296717, 0.03570253831296717]));
}

#[test]
fn basic_multiple_rso_upper_case() {
    let result = cfb_calc(
        &[1.0, 1.0],
        &[1.0, 1.0],
        &[1.0, 1.0],
        &[1.0, 1.0],
        mode_from_option("RSO"),
        -1.0,
        rso_record,
        cfb_record,
    );
    assert_eq!(result, Ok(vec![0.03570253831296717, 0.03570253831296717]));
}

#[test]
fn fi_basic_single_input() {
    let result = fi_calc(&[1.0], &[1.0], -1.0, fi_record);
    assert_eq!(result, Ok(vec![300.0]));
}

#[test]
fn fi_basic_error_wrong_lengths() {
    let result = fi_calc(&[1.0, 1.0], &[1.0], -1.0, fi_record);
    assert_eq!(result, Err(-1.0));
}

#[test]
fn fi_basic_multiple_input() {
    let result = fi_calc(&[1.0, 1.0], &[1.0, 1.0], -1.0, fi_record);
    assert_eq!(result, Ok(vec![300.0, 300.0]));
}

#[test]
fn identical_records_identical_outputs() {
    let single = cfb_calc(
        &[2.0],
        &[0.5],
        &[1.5],
        &[3.0],
        mode_from_option("cfb"),
        -1.0,
        rso_record,
        cfb_record,
    )
    .unwrap();
    let batch = cfb_calc(
        &[2.0, 2.0, 2.0],
        &[0.5, 0.5, 0.5],
        &[1.5, 1.5, 1.5],
        &[3.0, 3.0, 3.0],
        mode_from_option("cfb"),
        -1.0,
        rso_record,
        cfb_record,
    )
    .unwrap();
    assert_eq!(batch, vec![single[0], single[0], single[0]]);
}

#[test]
fn fi_exact_formula_value() {
    let result = fi_calc(&[2.0, 0.5], &[4.0, 10.0], -1.0, fi_record);
    assert_eq!(result, Ok(vec![2400.0, 1500.0]));
}

#[test]
fn cfb_branch_not_above_critical_is_zero() {
    // With a rate of spread at or below the critical one the crown fraction
    // burned is exactly zero.
    let result = cfb_calc(
        &[1.0],
        &[1.0],
        &[0.01],
        &[1.0],
        mode_from_option("cfb"),
        -1.0,
        rso_record,
        cfb_record,
    );
    assert_eq!(result, Ok(vec![0.0]));
}
