use text_recognition::buffer::{FrameGeometry, GeometryError};
use text_recognition::chain::PixelFormat;
use text_recognition::frame::{decide, Admission};
use text_recognition::sampler::SampleRate;

fn rgb_frame(width: i32, height: i32, row_stride: i32) -> FrameGeometry {
    FrameGeometry { width, height, bits_per_pixel: PixelFormat::Rgb24.bits_per_pixel(), row_stride }
}

#[test]
fn buffer_length_is_row_stride_times_height() {
    let layout = rgb_frame(64, 100, 192).layout().unwrap();
    assert_eq!(layout.buffer_length(), 19200);
    assert_eq!(layout.stride(), 192);
    assert_eq!(layout.frame_height(), 100);
    assert_eq!(layout.frame_width(), 64);
}

#[test]
fn packed_rgb_takes_three_bytes_per_pixel() {
    assert_eq!(PixelFormat::Rgb24.bits_per_pixel(), 24);
    let layout = rgb_frame(64, 100, 192).layout().unwrap();
    assert_eq!(layout.pixel_bytes(), 3);
}

#[test]
fn bytes_per_pixel_is_bits_divided_by_eight() {
    let gray = FrameGeometry { width: 10, height: 10, bits_per_pixel: 8, row_stride: 10 };
    assert_eq!(gray.layout().unwrap().pixel_bytes(), 1);
    let twelve_bits = FrameGeometry { width: 10, height: 10, bits_per_pixel: 12, row_stride: 16 };
    assert_eq!(twelve_bits.layout().unwrap().pixel_bytes(), 1);
    let rgba = FrameGeometry { width: 10, height: 10, bits_per_pixel: 32, row_stride: 40 };
    assert_eq!(rgba.layout().unwrap().pixel_bytes(), 4);
}

#[test]
fn padded_rows_count_in_full() {
    let layout = rgb_frame(10, 4, 32).layout().unwrap();
    assert_eq!(layout.buffer_length(), 128);
    assert_eq!(layout.pixel_bytes(), 3);
}

#[test]
fn frame_without_pixels_is_empty() {
    assert_eq!(rgb_frame(0, 100, 192).layout(), Err(GeometryError::EmptyFrame));
    assert_eq!(rgb_frame(64, 0, 192).layout(), Err(GeometryError::EmptyFrame));
    assert_eq!(rgb_frame(-64, 100, 192).layout(), Err(GeometryError::EmptyFrame));
    assert_eq!(rgb_frame(64, -1, 192).layout(), Err(GeometryError::EmptyFrame));
}

#[test]
fn pixel_of_less_than_a_byte_is_unsupported() {
    let monochrome = FrameGeometry { width: 64, height: 100, bits_per_pixel: 1, row_stride: 8 };
    assert_eq!(monochrome.layout(), Err(GeometryError::UnsupportedPixelFormat));
    let unknown = FrameGeometry { width: 64, height: 100, bits_per_pixel: -22, row_stride: 192 };
    assert_eq!(unknown.layout(), Err(GeometryError::UnsupportedPixelFormat));
    let seven = FrameGeometry { width: 64, height: 100, bits_per_pixel: 7, row_stride: 192 };
    assert_eq!(seven.layout(), Err(GeometryError::UnsupportedPixelFormat));
}

#[test]
fn stride_below_the_pixels_of_a_row_is_too_short() {
    assert_eq!(rgb_frame(64, 100, 191).layout(), Err(GeometryError::RowTooShort));
    assert_eq!(rgb_frame(64, 100, 0).layout(), Err(GeometryError::RowTooShort));
    assert_eq!(rgb_frame(64, 100, -192).layout(), Err(GeometryError::RowTooShort));
    assert!(rgb_frame(64, 100, 192).layout().is_ok());
}

#[test]
fn buffer_past_the_largest_length_is_too_large() {
    assert_eq!(rgb_frame(1, 2, i32::MAX).layout(), Err(GeometryError::TooLarge));
    assert_eq!(rgb_frame(16384, 65536, 49152).layout(), Err(GeometryError::TooLarge));
    let largest = rgb_frame(1, 1, i32::MAX).layout().unwrap();
    assert_eq!(largest.buffer_length(), i32::MAX as usize);
}

#[test]
fn errors_are_reported_in_a_fixed_order() {
    let nothing_right = FrameGeometry { width: 0, height: 0, bits_per_pixel: 0, row_stride: -1 };
    assert_eq!(nothing_right.layout(), Err(GeometryError::EmptyFrame));
    let bad_format_and_stride =
        FrameGeometry { width: 64, height: 100, bits_per_pixel: 0, row_stride: -1 };
    assert_eq!(bad_format_and_stride.layout(), Err(GeometryError::UnsupportedPixelFormat));
}

#[test]
fn view_is_the_start_of_the_decoder_buffer() {
    let layout = rgb_frame(1, 2, 4).layout().unwrap();
    let data: Vec<u8> = vec![1, 2, 3, 0, 4, 5, 6, 0, 9, 9];
    let view = layout.view(&data).unwrap();
    assert_eq!(view, &[1, 2, 3, 0, 4, 5, 6, 0]);
    assert_eq!(view.as_ptr(), data.as_ptr());
    assert_eq!(view.len(), layout.buffer_length());
}

#[test]
fn view_of_a_buffer_of_the_exact_length_is_the_whole_buffer() {
    let layout = rgb_frame(1, 2, 4).layout().unwrap();
    let data: Vec<u8> = vec![1, 2, 3, 0, 4, 5, 6, 0];
    assert_eq!(layout.view(&data), Some(&data[..]));
}

#[test]
fn there_is_no_view_of_a_buffer_that_is_too_short() {
    let layout = rgb_frame(1, 2, 4).layout().unwrap();
    let data: Vec<u8> = vec![1, 2, 3, 0, 4, 5, 6];
    assert_eq!(layout.view(&data), None);
    assert_eq!(layout.view(&[]), None);
}

#[test]
fn frame_that_the_rate_leaves_out_is_skipped_whatever_its_geometry() {
    let rate = SampleRate::new(2).unwrap();
    assert_eq!(decide(1, &rate, &rgb_frame(64, 100, 192)), Admission::Skipped { sequence_number: 1 });
    assert_eq!(decide(3, &rate, &rgb_frame(0, 0, 0)), Admission::Skipped { sequence_number: 3 });
}

#[test]
fn kept_frame_is_read_with_its_layout() {
    let rate = SampleRate::new(2).unwrap();
    let geometry = rgb_frame(64, 100, 192);
    let decision = decide(4, &rate, &geometry);
    assert_eq!(
        decision,
        Admission::Recognize { sequence_number: 4, layout: geometry.layout().unwrap() }
    );
    assert_eq!(decision.sequence_number(), 4);
}

#[test]
fn kept_frame_with_a_bad_geometry_is_dropped() {
    let rate = SampleRate::new(2).unwrap();
    let decision = decide(6, &rate, &rgb_frame(64, 100, 100));
    assert_eq!(decision, Admission::Dropped { sequence_number: 6, error: GeometryError::RowTooShort });
    assert_eq!(decision.sequence_number(), 6);
}
