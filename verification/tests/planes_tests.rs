use capture_preview::error::CaptureError;
use capture_preview::format::PixelFormat;
use capture_preview::normalize::normalize;
use capture_preview::planes::pack_yuv_planes;

#[test]
fn planes_are_interleaved_per_pixel() {
    // 3 x 3 image; luma rows padded to 4 bytes, chroma rows to 6.
    let luma = vec![1, 2, 3, 0, 4, 5, 6, 0, 7, 8, 9];
    let chroma = vec![10, 11, 20, 21, 0, 0, 30, 31, 40, 41];
    let frame = pack_yuv_planes(3, 3, &luma, 4, &chroma, 6, 5).unwrap();
    assert_eq!(frame.format, PixelFormat::Yuv);
    assert_eq!((frame.width, frame.height, frame.stride), (3, 3, 9));
    assert_eq!(frame.display_time, 5);
    assert_eq!(
        frame.data,
        vec![
            1, 10, 11, 2, 10, 11, 3, 20, 21, //
            4, 10, 11, 5, 10, 11, 6, 20, 21, //
            7, 30, 31, 8, 30, 31, 9, 40, 41,
        ]
    );
}

#[test]
fn packed_planes_normalize() {
    let luma = vec![16, 235];
    let chroma = vec![128, 128];
    let frame = pack_yuv_planes(2, 1, &luma, 2, &chroma, 2, 0).unwrap();
    let out = normalize(&frame).unwrap().into_data();
    assert_eq!(out, vec![0, 0, 0, 255, 255, 255, 255, 255]);
}

#[test]
fn short_planes_are_refused() {
    let refused = Err(CaptureError::NormalizationFailed);
    assert_eq!(pack_yuv_planes(2, 2, &vec![0; 3], 2, &vec![0; 2], 2, 0), refused);
    assert_eq!(pack_yuv_planes(2, 2, &vec![0; 4], 2, &vec![0; 1], 2, 0), refused);
    assert_eq!(pack_yuv_planes(3, 1, &vec![0; 3], 3, &vec![0; 3], 4, 0), refused);
    assert!(pack_yuv_planes(3, 1, &vec![0; 3], 3, &vec![0; 4], 4, 0).is_ok());
}

#[test]
fn bad_dimensions_and_strides_are_refused() {
    let refused = Err(CaptureError::NormalizationFailed);
    assert_eq!(pack_yuv_planes(0, 1, &vec![0; 8], 2, &vec![0; 8], 2, 0), refused);
    assert_eq!(pack_yuv_planes(1, -3, &vec![0; 8], 2, &vec![0; 8], 2, 0), refused);
    assert_eq!(pack_yuv_planes(4, 1, &vec![0; 8], 3, &vec![0; 8], 4, 0), refused);
    assert_eq!(pack_yuv_planes(4, 1, &vec![0; 8], 4, &vec![0; 8], 3, 0), refused);
    assert_eq!(pack_yuv_planes(4, 1, &vec![0; 8], 4, &vec![0; 8], -4, 0), refused);
}
