use rhino::{EngineInfo, RhinoErrorStatus};

fn info(frame_length: i32) -> EngineInfo {
    EngineInfo::new(16000, frame_length, "3.0.0".to_string(), "context:\n  expressions: {}".to_string())
}

#[test]
fn frame_length_error_exactly_when_length_differs() {
    let info = info(512);
    for len in 0..=1024usize {
        let frame = vec![0i16; len];
        let r = info.check_frame(&frame);
        if len == 512 {
            assert!(r.is_ok());
        } else {
            let e = r.unwrap_err();
            assert_eq!(e.status, RhinoErrorStatus::FrameLengthError);
            assert!(e.message_stack.is_empty());
        }
    }
}

#[test]
fn frame_length_error_message_names_both_lengths() {
    let e = info(512).check_frame(&[1, 2, 3]).unwrap_err();
    assert_eq!(e.message, "Found a frame length of 3 Expected 512");
    let e = info(-1).check_frame(&[]).unwrap_err();
    assert_eq!(e.message, "Found a frame length of 0 Expected -1");
}

#[test]
fn properties_are_reported_unchanged() {
    let info = info(512);
    for _ in 0..3 {
        assert_eq!(info.frame_length(), 512);
        assert_eq!(info.sample_rate(), 16000);
        assert_eq!(info.version(), "3.0.0");
        assert_eq!(info.context_info(), "context:\n  expressions: {}");
    }
}
