use rhino::config::{DEFAULT_ENDPOINT_DURATION_SEC, DEFAULT_REQUIRE_ENDPOINT, DEFAULT_SENSITIVITY};
use rhino::float_bits::within;
use rhino::{Construction, InitStep, RhinoBuilder, RhinoErrorStatus};

fn builder() -> RhinoBuilder {
    RhinoBuilder::new(
        "key".to_string(),
        "contexts/coffee_maker_linux.rhn".to_string(),
        "lib/linux/x86_64/libpv_rhino.so".to_string(),
        "lib/common/rhino_params.pv".to_string(),
    )
}

#[test]
fn defaults_are_half_sensitivity_one_second_and_endpoint_required() {
    let b = builder();
    assert_eq!(f32::from_bits(b.sensitivity_value()), 0.5);
    assert_eq!(f32::from_bits(b.endpoint_duration_sec_value()), 1.0);
    assert!(b.require_endpoint_value());
    assert_eq!(DEFAULT_SENSITIVITY, 0.5f32.to_bits());
    assert_eq!(DEFAULT_ENDPOINT_DURATION_SEC, 1.0f32.to_bits());
    assert!(DEFAULT_REQUIRE_ENDPOINT);
    assert_eq!(b.access_key_value(), "key");
    assert_eq!(b.context_path_value(), "contexts/coffee_maker_linux.rhn");
    assert_eq!(b.library_path_value(), "lib/linux/x86_64/libpv_rhino.so");
    assert_eq!(b.model_path_value(), "lib/common/rhino_params.pv");
}

#[test]
fn setters_chain_and_replace_values() {
    let mut b = builder();
    b.sensitivity(0.25f32.to_bits())
        .endpoint_duration_sec(2.0f32.to_bits())
        .require_endpoint(false)
        .model_path("m.pv".to_string())
        .library_path("l.so".to_string())
        .context_path("c.rhn".to_string())
        .access_key("other".to_string());
    assert_eq!(f32::from_bits(b.sensitivity_value()), 0.25);
    assert_eq!(f32::from_bits(b.endpoint_duration_sec_value()), 2.0);
    assert!(!b.require_endpoint_value());
    assert_eq!(b.model_path_value(), "m.pv");
    assert_eq!(b.library_path_value(), "l.so");
    assert_eq!(b.context_path_value(), "c.rhn");
    assert_eq!(b.access_key_value(), "other");
}

#[test]
fn valid_configuration_passes() {
    assert!(builder().validate(true, true, true).is_ok());
}

#[test]
fn sensitivity_outside_unit_interval_is_an_argument_error() {
    for s in [-0.1f32, 1.5f32, f32::NAN, f32::INFINITY, -1.0f32, 1.0000001f32] {
        let mut b = builder();
        b.sensitivity(s.to_bits());
        let e = b.validate(true, true, true).unwrap_err();
        assert_eq!(e.status, RhinoErrorStatus::ArgumentError);
        assert_eq!(e.message, "Sensitivity value should be within [0, 1]");
        assert!(e.message_stack.is_empty());
    }
}

#[test]
fn sensitivity_bounds_are_accepted() {
    for s in [0.0f32, -0.0f32, 1.0f32, 0.5f32, 1e-30f32] {
        let mut b = builder();
        b.sensitivity(s.to_bits());
        assert!(b.validate(true, true, true).is_ok(), "sensitivity {s}");
    }
}

#[test]
fn endpoint_duration_outside_range_is_an_argument_error() {
    for d in [0.49f32, 5.01f32, 0.0f32, -1.0f32, f32::NAN] {
        let mut b = builder();
        b.endpoint_duration_sec(d.to_bits());
        let e = b.validate(true, true, true).unwrap_err();
        assert_eq!(e.status, RhinoErrorStatus::ArgumentError);
        assert_eq!(e.message, "Endpoint duration value should be within [0.5, 5.0]");
    }
    for d in [0.5f32, 5.0f32, 1.0f32] {
        let mut b = builder();
        b.endpoint_duration_sec(d.to_bits());
        assert!(b.validate(true, true, true).is_ok());
    }
}

#[test]
fn range_check_agrees_with_float_comparison() {
    let samples = [
        -2.0f32, -0.5, -0.0, 0.0, 1e-40, 0.1, 0.5, 0.999, 1.0, 1.0001, 4.9, 5.0, 5.1, f32::NAN, f32::INFINITY,
        f32::NEG_INFINITY,
    ];
    for x in samples {
        for (lo, hi) in [(0.0f32, 1.0f32), (0.5f32, 5.0f32)] {
            assert_eq!(within(x.to_bits(), lo.to_bits(), hi.to_bits()), (lo..=hi).contains(&x), "{x} in [{lo}, {hi}]");
        }
    }
}

#[test]
fn empty_access_key_is_refused_first() {
    let mut b = builder();
    b.access_key(String::new());
    let e = b.validate(false, false, false).unwrap_err();
    assert_eq!(e.status, RhinoErrorStatus::ArgumentError);
    assert_eq!(e.message, "AccessKey is required for Rhino initialization");
}

#[test]
fn missing_files_are_argument_errors_in_order() {
    let b = builder();
    let e = b.validate(false, false, false).unwrap_err();
    assert_eq!(e.status, RhinoErrorStatus::ArgumentError);
    assert_eq!(e.message, "Couldn't find Rhino's dynamic library at lib/linux/x86_64/libpv_rhino.so");
    let e = b.validate(true, false, false).unwrap_err();
    assert_eq!(e.message, "Couldn't find model file at lib/common/rhino_params.pv");
    let e = b.validate(true, true, false).unwrap_err();
    assert_eq!(e.message, "Couldn't find context file at contexts/coffee_maker_linux.rhn");
}

#[test]
fn strings_with_nul_are_refused() {
    let mut b = builder();
    b.access_key("ke\0y".to_string());
    let e = b.validate(true, true, true).unwrap_err();
    assert_eq!(e.status, RhinoErrorStatus::ArgumentError);
    assert_eq!(e.message, "AccessKey is not a valid C string");

    let mut b = builder();
    b.model_path("m\0.pv".to_string());
    assert_eq!(b.validate(true, true, true).unwrap_err().message, "Model path is not a valid C string");

    let mut b = builder();
    b.context_path("c\0.rhn".to_string());
    assert_eq!(b.validate(true, true, true).unwrap_err().message, "Context path is not a valid C string");
}

#[test]
fn missing_context_is_refused_without_loading_the_library() {
    let session = Construction::new(builder(), true, true, false);
    assert_eq!(session.next_step(), InitStep::Finished);
    let e = session.finish().unwrap().unwrap_err();
    assert_eq!(e.status, RhinoErrorStatus::ArgumentError);
    assert_eq!(e.message, "Couldn't find context file at contexts/coffee_maker_linux.rhn");
}

#[test]
fn bad_sensitivity_is_refused_without_loading_the_library() {
    let mut b = builder();
    b.sensitivity(1.5f32.to_bits());
    let session = Construction::new(b, true, true, true);
    assert_eq!(session.next_step(), InitStep::Finished);
    assert_eq!(session.finish().unwrap().unwrap_err().status, RhinoErrorStatus::ArgumentError);
}

#[test]
fn boundary_sensitivities_start_loading_the_library() {
    for s in [0.0f32, 1.0f32] {
        let mut b = builder();
        b.sensitivity(s.to_bits());
        let session = Construction::new(b, true, true, true);
        assert_eq!(session.next_step(), InitStep::LoadLibrary);
        assert!(session.finish().is_none());
    }
}
