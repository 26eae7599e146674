use base64::Engine;
use smartlab::capture::{
    base64_text, bgra_to_rgb, bgra_to_rgba, capture_timeout_result, encode_stream_frame,
    frame_message, frame_text, jpeg_capture_result, png_capture_result, CaptureRetry, CaptureStep,
    FrameOutcome, STREAM_CAPTURE_RETRIES, STREAM_QUALITY,
};

fn gradient_bgra(w: u32, h: u32) -> Vec<u8> {
    let mut v = Vec::new();
    for y in 0..h {
        for x in 0..w {
            let r = (x * 255 / (w - 1)) as u8;
            let g = (y * 255 / (h - 1)) as u8;
            let b = 128u8;
            v.extend_from_slice(&[b, g, r, 255]);
        }
    }
    v
}

#[test]
fn bgra_to_rgb_drops_alpha_and_swaps() {
    let f = [1u8, 2, 3, 4, 5, 6, 7, 8];
    assert_eq!(bgra_to_rgb(&f), vec![3, 2, 1, 7, 6, 5]);
    assert_eq!(bgra_to_rgba(&f), vec![3, 2, 1, 4, 7, 6, 5, 8]);
    assert!(bgra_to_rgb(&[]).is_empty());
}

#[test]
fn jpeg_round_trip_within_tolerance() {
    let (w, h) = (32u32, 32u32);
    let bgra = gradient_bgra(w, h);
    let rgb = bgra_to_rgb(&bgra);
    let jpeg = encode_stream_frame(&bgra, w, h, 90).unwrap();
    assert_eq!(&jpeg[..2], &[0xff, 0xd8]);
    let decoded = image::load_from_memory_with_format(&jpeg, image::ImageFormat::Jpeg)
        .unwrap()
        .to_rgb8();
    assert_eq!(decoded.width(), w);
    assert_eq!(decoded.height(), h);
    let raw = decoded.into_raw();
    assert_eq!(raw.len(), rgb.len());
    let mut total: u64 = 0;
    for (a, b) in raw.iter().zip(rgb.iter()) {
        let d = (*a as i32 - *b as i32).unsigned_abs();
        assert!(d <= 48, "pixel error {}", d);
        total += d as u64;
    }
    assert!(total / (raw.len() as u64) <= 6);
}

#[test]
fn stream_frame_refuses_wrong_size() {
    let bgra = gradient_bgra(4, 4);
    assert!(encode_stream_frame(&bgra, 5, 4, STREAM_QUALITY).is_none());
    assert!(encode_stream_frame(&bgra, 4, 4, STREAM_QUALITY).is_some());
}

#[test]
fn frame_message_shape() {
    let bgra = gradient_bgra(8, 6);
    let jpeg = encode_stream_frame(&bgra, 8, 6, STREAM_QUALITY).unwrap();
    let msg = frame_message(&jpeg).unwrap();
    let v: serde_json::Value = serde_json::from_str(&msg).unwrap();
    assert_eq!(v.get("type").and_then(|t| t.as_str()), Some("frame"));
    let data = v.get("data").and_then(|t| t.as_str()).unwrap();
    let bytes = base64::engine::general_purpose::STANDARD.decode(data).unwrap();
    assert_eq!(bytes, jpeg);
    let img = image::load_from_memory(&bytes).unwrap();
    assert_eq!((img.width(), img.height()), (8, 6));
}

#[test]
fn frame_text_and_base64() {
    assert_eq!(frame_text("QUJD"), "{\"type\":\"frame\",\"data\":\"QUJD\"}");
    assert_eq!(base64_text(b"ABC").unwrap(), "QUJD");
    assert_eq!(base64_text(b"AB").unwrap(), "QUI=");
    assert_eq!(base64_text(b"").unwrap(), "");
}

#[test]
fn capture_retry_budget() {
    let mut r = CaptureRetry::new(2);
    assert_eq!(r.on_outcome(FrameOutcome::WouldBlock), CaptureStep::Wait);
    assert_eq!(r.on_outcome(FrameOutcome::WouldBlock), CaptureStep::Wait);
    assert_eq!(r.on_outcome(FrameOutcome::WouldBlock), CaptureStep::GiveUp);
    let mut r = CaptureRetry::new(STREAM_CAPTURE_RETRIES);
    assert_eq!(r.on_outcome(FrameOutcome::Ready), CaptureStep::Use);
    assert_eq!(r.on_outcome(FrameOutcome::Failed), CaptureStep::Fail);
    assert_eq!(r.attempts, 0);
}

#[test]
fn jpeg_capture_results() {
    let bgra = gradient_bgra(4, 4);
    let ok = jpeg_capture_result(&bgra, 4, 4, None).unwrap();
    assert!(ok.success);
    assert_eq!((ok.width, ok.height), (4, 4));
    assert_eq!(ok.message, "Screen captured");
    let bytes = base64::engine::general_purpose::STANDARD
        .decode(ok.image_base64.unwrap())
        .unwrap();
    assert_eq!(&bytes[..2], &[0xff, 0xd8]);
    assert_eq!(jpeg_capture_result(&bgra, 8, 8, Some(80)).unwrap_err(), "Failed to create image");
    let t = capture_timeout_result("Timeout");
    assert!(!t.success);
    assert!(t.image_base64.is_none());
    assert_eq!((t.width, t.height), (0, 0));
}

#[test]
fn png_capture_keeps_pixels() {
    let bgra = gradient_bgra(5, 3);
    let ok = png_capture_result(&bgra, 5, 3).unwrap();
    let bytes = base64::engine::general_purpose::STANDARD
        .decode(ok.image_base64.unwrap())
        .unwrap();
    let img = image::load_from_memory_with_format(&bytes, image::ImageFormat::Png)
        .unwrap()
        .to_rgba8();
    assert_eq!(img.into_raw(), bgra_to_rgba(&bgra));
    assert!(png_capture_result(&bgra, 2, 2).is_err());
}
