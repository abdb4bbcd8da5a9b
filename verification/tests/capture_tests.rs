use clickcapture::app_state::AppState;
use clickcapture::capture::{
    bgr_rows_to_rgb, capture_file_name, dib_buffer_len, dib_row_stride, encode_capture,
    CaptureError, CaptureRegion,
};
use clickcapture::geometry::Rect;

#[test]
fn region_of_the_selected_area() {
    let mut s = AppState::new(800, 600);
    assert_eq!(s.capture_region(), Err(CaptureError::NoAreaSelected));
    s.selected_area = Some(Rect { left: 10, top: 20, right: 110, bottom: 70 });
    assert_eq!(s.capture_region(), Ok(CaptureRegion { left: 10, top: 20, width: 100, height: 50 }));
    s.selected_area = Some(Rect { left: 110, top: 70, right: 10, bottom: 20 });
    assert_eq!(s.capture_region(), Ok(CaptureRegion { left: 110, top: 70, width: 100, height: 50 }));
}

#[test]
fn counter_and_processing_flag() {
    let mut s = AppState::new(800, 600);
    s.record_capture_saved();
    s.record_capture_saved();
    assert_eq!(s.capture_file_counter, 3);
    s.set_capture_processing(true);
    assert!(s.capture_overlay_is_processing);
    s.set_capture_processing(false);
    assert!(!s.capture_overlay_is_processing);
}

#[test]
fn only_a_saved_capture_advances_the_counter() {
    let mut s = AppState::new(800, 600);
    s.set_capture_processing(true);
    s.finish_capture(false);
    assert!(!s.capture_overlay_is_processing);
    assert_eq!(s.capture_file_counter, 1);
    s.set_capture_processing(true);
    s.finish_capture(true);
    assert!(!s.capture_overlay_is_processing);
    assert_eq!(s.capture_file_counter, 2);
    assert_eq!(capture_file_name(s.capture_file_counter), "0002.jpg");
}

#[test]
fn file_names_are_numbered() {
    assert_eq!(capture_file_name(1), "0001.jpg");
    assert_eq!(capture_file_name(42), "0042.jpg");
    assert_eq!(capture_file_name(10000), "10000.jpg");
}

#[test]
fn row_strides_are_multiples_of_four() {
    assert_eq!(dib_row_stride(1), 4);
    assert_eq!(dib_row_stride(2), 8);
    assert_eq!(dib_row_stride(4), 12);
    assert_eq!(dib_row_stride(5), 16);
    assert_eq!(dib_row_stride(0), 0);
    assert_eq!(dib_buffer_len(5, 3), 48);
}

#[test]
fn bgr_rows_become_packed_rgb() {
    // Two pixels a row, two rows; each row padded from 6 to 8 bytes.
    let bgr = vec![1, 2, 3, 4, 5, 6, 0xEE, 0xEE, 7, 8, 9, 10, 11, 12, 0xEE, 0xEE];
    let rgb = bgr_rows_to_rgb(&bgr, 2, 2);
    assert_eq!(rgb, vec![3, 2, 1, 6, 5, 4, 9, 8, 7, 12, 11, 10]);
    assert_eq!(bgr_rows_to_rgb(&[], 0, 0), Vec::<u8>::new());
}

#[test]
fn capture_encodes_a_jpeg_of_the_area() {
    let bgr = vec![0u8, 0, 255, 0, 255, 0, 0, 0, 255, 0, 0, 255, 255, 255, 0, 0];
    let jpeg = encode_capture(&bgr, 2, 2, 95).expect("encodes");
    assert_eq!(&jpeg[..2], &[0xFF, 0xD8]);
    assert_ne!(jpeg, bgr);
    let decoded = image::load_from_memory_with_format(&jpeg, image::ImageFormat::Jpeg).expect("decodes");
    assert_eq!((decoded.width(), decoded.height()), (2, 2));
}

#[test]
fn empty_capture_is_refused() {
    assert_eq!(encode_capture(&[], 0, 0, 95), Err(CaptureError::EncodingFailed));
    let row = vec![0u8; 4 * 1];
    assert_eq!(encode_capture(&row, 1, 1, 95).is_ok(), true);
}
