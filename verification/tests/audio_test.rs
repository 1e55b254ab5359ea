use input0::audio::{check_capture_format, mono_len, prepare_plan, resample_plan, CaptureFormat, PreparePlan, ResamplePlan};
use input0::errors::AppError;
use input0::input::get_frontmost_app;

#[test]
fn test_resample_zero_from_rate_error() {
    let result = resample_plan(100, 0, 16000);
    assert!(result.is_err(), "from_rate=0 should return an error");
}

#[test]
fn test_resample_zero_to_rate_error() {
    let result = resample_plan(100, 48000, 0);
    assert!(result.is_err(), "to_rate=0 should return an error");
}

#[test]
fn test_resample_empty_input() {
    let result = resample_plan(0, 48000, 16000);
    match result {
        Ok(plan) => assert_eq!(plan, ResamplePlan::Empty),
        Err(_) => {}
    }
}

#[test]
fn test_prepare_empty() {
    assert_eq!(prepare_plan(0, 1), PreparePlan::Empty);
}

#[test]
fn resample_plan_cases() {
    assert_eq!(resample_plan(1600, 16000, 16000).unwrap(), ResamplePlan::Unchanged);
    assert_eq!(resample_plan(0, 16000, 16000).unwrap(), ResamplePlan::Unchanged);
    assert_eq!(resample_plan(4800, 48000, 16000).unwrap(), ResamplePlan::Convert);
    assert!(matches!(resample_plan(1, 0, 0), Err(AppError::Audio(m)) if m == "from_rate cannot be zero"));
    assert!(matches!(resample_plan(1, 1, 0), Err(AppError::Audio(m)) if m == "to_rate cannot be zero"));
}

#[test]
fn prepare_plan_cases() {
    assert_eq!(prepare_plan(9600, 2), PreparePlan::Process { downmix: true });
    assert_eq!(prepare_plan(1600, 1), PreparePlan::Process { downmix: false });
    assert_eq!(prepare_plan(0, 2), PreparePlan::Empty);
}

#[test]
fn mono_length_drops_odd_sample() {
    assert_eq!(mono_len(0), 0);
    assert_eq!(mono_len(3), 1);
    assert_eq!(mono_len(8), 4);
}

#[test]
fn capture_formats() {
    assert!(check_capture_format(CaptureFormat::F32).is_ok());
    assert!(check_capture_format(CaptureFormat::I16).is_ok());
    match check_capture_format(CaptureFormat::Other("U8".to_string())) {
        Err(e) => assert_eq!(e.message(), "Audio error: Unsupported sample format: U8"),
        Ok(_) => panic!("other formats are refused"),
    }
}

#[test]
fn frontmost_app_fallback_is_none() {
    assert_eq!(get_frontmost_app(), None);
}
