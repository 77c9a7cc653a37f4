use shaderview::error::CoreError;
use shaderview::export::{
    check_encoder, flip_image_vertically_raw, offscreen_capture, VideoExportSession,
    PROGRESS_INTERVAL_FRAMES,
};
use shaderview::gpu::ResourceLedger;

#[test]
fn flip_reverses_row_order_exactly_once() {
    // 1 pixel wide, 3 rows: rows read back bottom-up as 1, 2, 3.
    let raw: Vec<u8> = vec![
        1, 1, 1, 1, //
        2, 2, 2, 2, //
        3, 3, 3, 3,
    ];
    let flipped = flip_image_vertically_raw(&raw, 1, 3);
    assert_eq!(flipped, vec![3, 3, 3, 3, 2, 2, 2, 2, 1, 1, 1, 1]);
}

#[test]
fn flip_keeps_bytes_within_a_row_in_order() {
    // 2 pixels wide, 2 rows, distinct bytes everywhere.
    let raw: Vec<u8> = (0u8..16).collect();
    let flipped = flip_image_vertically_raw(&raw, 2, 2);
    let mut expected: Vec<u8> = (8u8..16).collect();
    expected.extend(0u8..8);
    assert_eq!(flipped, expected);
}

#[test]
fn output_row_zero_is_the_read_backs_last_row() {
    // A shader that paints the top half red and the bottom half blue is
    // read back bottom-up: blue rows first, red rows last.  After the
    // mandatory flip, row 0 must be red.
    let red = [255u8, 0, 0, 255];
    let blue = [0u8, 0, 255, 255];
    let mut readback: Vec<u8> = Vec::new();
    readback.extend(blue);
    readback.extend(blue);
    readback.extend(red);
    readback.extend(red);
    let out = flip_image_vertically_raw(&readback, 1, 4);
    assert_eq!(&out[0..4], &red);
    assert_eq!(&out[12..16], &blue);
}

#[test]
fn flip_of_empty_image_is_empty() {
    let out = flip_image_vertically_raw(&[], 0, 0);
    assert!(out.is_empty());
}

#[test]
fn video_export_times_are_exactly_index_over_rate() {
    let mut session =
        VideoExportSession::start(true, None, 64, 64, 10, 5).expect("session starts");
    let mut times: Vec<f64> = Vec::new();
    while let Some(request) = session.current_request() {
        times.push(f64::from(request.index) / f64::from(request.frame_rate));
        session.record_frame_result(true, true);
    }
    assert_eq!(
        times,
        vec![0.0, 0.2, 0.4, 0.6, 0.8, 1.0, 1.2, 1.4, 1.6, 1.8]
    );
}

#[test]
fn unavailable_encoder_fails_before_any_frame() {
    // The version-query probe failed (here: substituted by reporting the
    // probe's verdict directly); the export must fail as such, with no
    // frame ever requested.
    assert_eq!(check_encoder(false), Err(CoreError::EncoderUnavailable));
    let result = VideoExportSession::start(false, None, 1920, 1080, 300, 30);
    assert_eq!(result.unwrap_err(), CoreError::EncoderUnavailable);
}

#[test]
fn failed_launch_fails_before_any_frame() {
    let result = VideoExportSession::start(
        true,
        Some("spawn failed: permission denied".to_string()),
        64,
        64,
        10,
        5,
    );
    assert_eq!(
        result.unwrap_err(),
        CoreError::EncoderLaunch("spawn failed: permission denied".to_string())
    );
}

#[test]
fn a_failed_frame_aborts_the_export_immediately() {
    let mut session = VideoExportSession::start(true, None, 8, 8, 100, 25).unwrap();
    session.record_frame_result(true, true);
    session.record_frame_result(true, true);
    // The pipe write fails on the third frame.
    session.record_frame_result(true, false);
    assert!(session.current_request().is_none());

    let mut session = VideoExportSession::start(true, None, 8, 8, 100, 25).unwrap();
    // A frame that fails to render aborts just the same.
    session.record_frame_result(false, true);
    assert!(session.current_request().is_none());
}

#[test]
fn progress_is_published_every_tenth_frame() {
    let mut session = VideoExportSession::start(true, None, 8, 8, 25, 5).unwrap();
    let mut reported: Vec<u32> = Vec::new();
    while let Some(_) = session.current_request() {
        if let Some(progress) = session.progress_update("encoding".to_string()) {
            assert_eq!(progress.total_frames, 25);
            assert_eq!(progress.status, "encoding");
            reported.push(progress.current_frame);
        }
        session.record_frame_result(true, true);
    }
    assert_eq!(PROGRESS_INTERVAL_FRAMES, 10);
    assert_eq!(reported, vec![0, 10, 20]);
}

#[test]
fn offscreen_capture_flips_and_releases_its_target() {
    let mut ledger = ResourceLedger::new();
    let raw: Vec<u8> = vec![
        1, 1, 1, 1, //
        2, 2, 2, 2,
    ];
    let pixels = offscreen_capture(&mut ledger, true, raw, 1, 2).expect("capture");
    assert_eq!(pixels, vec![2, 2, 2, 2, 1, 1, 1, 1]);
    assert_eq!(ledger.live_objects(), 0);
}

#[test]
fn incomplete_framebuffer_aborts_the_capture_without_leaking() {
    let mut ledger = ResourceLedger::new();
    let raw: Vec<u8> = vec![0; 16];
    let err = offscreen_capture(&mut ledger, false, raw, 2, 2).unwrap_err();
    assert_eq!(err, CoreError::FramebufferIncomplete);
    assert_eq!(ledger.live_objects(), 0);
}

#[test]
fn error_details_carry_the_diagnostic_verbatim() {
    let e = CoreError::ShaderCompile("0:7: 'foo' : undeclared identifier".to_string());
    assert_eq!(
        e.detail(),
        Some(&"0:7: 'foo' : undeclared identifier".to_string())
    );
    assert_eq!(CoreError::FramebufferIncomplete.detail(), None);
    assert_eq!(CoreError::EncoderUnavailable.detail(), None);
}
