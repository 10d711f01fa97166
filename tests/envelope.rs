use a5geo::{boundary_message, cell_vec_result_to_c, ArrayEnvelope, ResultU64};

#[test]
fn scalar_success_has_no_error() {
    let env = ResultU64::from_result(Ok(42));
    assert_eq!(env.value, 42);
    assert!(env.error.is_none());
    assert!(!env.is_error());
}

#[test]
fn scalar_failure_zeroes_value() {
    let env = ResultU64::from_result(Err("no such cell".to_string()));
    assert_eq!(env.value, 0);
    assert_eq!(env.error.as_deref(), Some("no such cell"));
    assert!(env.is_error());
}

#[test]
fn failure_before_engine_carries_message() {
    let env = ResultU64::failure("bad input");
    assert_eq!(env.value, 0);
    assert_eq!(env.error.as_deref(), Some("bad input"));
}

#[test]
fn array_failure_has_empty_buffer() {
    let env = cell_vec_result_to_c(Err("boom".to_string()));
    assert_eq!(env.len, 0);
    assert!(env.data.is_empty());
    assert_eq!(env.error.as_deref(), Some("boom"));
    assert!(!env.has_data());
}

#[test]
fn array_success_keeps_items_in_order() {
    let env = cell_vec_result_to_c(Ok(vec![7, 3, 9]));
    assert_eq!(env.len, 3);
    assert_eq!(env.data, vec![7, 3, 9]);
    assert!(env.error.is_none());
    assert!(env.has_data());
}

#[test]
fn array_empty_success_has_no_data() {
    let env = cell_vec_result_to_c(Ok(Vec::new()));
    assert_eq!(env.len, 0);
    assert!(env.error.is_none());
    assert!(!env.has_data());
}

#[test]
fn envelopes_never_carry_both() {
    let inputs: Vec<Result<Vec<u64>, String>> = vec![
        Ok(vec![1]),
        Ok(Vec::new()),
        Err("x".to_string()),
        Err(String::new()),
    ];
    for input in inputs {
        let env = cell_vec_result_to_c(input);
        if env.error.is_some() {
            assert_eq!(env.len, 0);
            assert!(env.data.is_empty());
        } else {
            assert_eq!(env.len, env.data.len());
        }
    }
}

#[test]
fn generic_envelope_holds_coordinate_pairs() {
    let env = ArrayEnvelope::from_result(Ok(vec![(1.5f64, -2.0f64), (3.0, 4.0)]));
    assert_eq!(env.len, 2);
    assert_eq!(env.data[1], (3.0, 4.0));
    assert!(env.error.is_none());
}

#[test]
fn message_without_nul_is_kept() {
    assert_eq!(boundary_message("plain text é"), "plain text é");
    assert_eq!(boundary_message(""), "");
}

#[test]
fn message_with_nul_is_replaced() {
    let text = boundary_message("bad\0text");
    assert_eq!(text, "unreported error: the diagnostic held a NUL character");
    let env = ResultU64::from_result(Err("a\0b".to_string()));
    assert_eq!(
        env.error.as_deref(),
        Some("unreported error: the diagnostic held a NUL character")
    );
}
