use frame_lease::frame::SIGNIFICANT_BITS_STRIDE;
use frame_lease::{AudioFrame, Frame, PixelFormat, VideoFrame, VideoPlane};

fn picture() -> VideoFrame {
    VideoFrame {
        pts: Some(40),
        planes: vec![
            VideoPlane { stride: 4, data: vec![1, 2, 3, 4] },
            VideoPlane { stride: 2, data: vec![5, 6] },
        ],
    }
}

#[test]
fn a_frame_without_recorded_bits_has_none() {
    assert_eq!(picture().significant_bits(), None);
    let empty = VideoFrame { pts: None, planes: vec![] };
    assert_eq!(empty.significant_bits(), None);
}

#[test]
fn recorded_bits_are_read_back_and_leave_the_picture_alone() {
    let mut video = picture();
    video.set_significant_bits(vec![10, 10, 9]);
    assert_eq!(video.significant_bits(), Some(&[10, 10, 9][..]));
    assert_eq!(video.pts, Some(40));
    assert_eq!(video.planes.len(), 3);
    assert_eq!(video.planes[0].data, [1, 2, 3, 4]);
    assert_eq!(video.planes[1].stride, 2);
    assert_eq!(video.planes[2].stride, SIGNIFICANT_BITS_STRIDE);
}

#[test]
fn recorded_bits_take_the_place_of_earlier_ones() {
    let mut video = picture();
    video.set_significant_bits(vec![7]);
    video.set_significant_bits(vec![6, 5]);
    assert_eq!(video.significant_bits(), Some(&[6, 5][..]));
    assert_eq!(video.planes.len(), 3);
}

#[test]
fn a_cloned_frame_has_the_same_payload() {
    let mut video = picture();
    video.set_significant_bits(vec![7]);
    let copy = video.clone();
    assert_eq!(copy.pts, Some(40));
    assert_eq!(copy.planes.len(), 3);
    assert_eq!(copy.planes[1].data, [5, 6]);
    assert_eq!(copy.significant_bits(), Some(&[7][..]));

    let audio = Frame::Audio(AudioFrame {
        pts: Some(-3),
        samples: 2,
        data: vec![vec![1, 2], vec![3, 4]],
    });
    let copy = audio.clone();
    assert_eq!(copy.pts(), Some(-3));
    let Frame::Audio(copy) = copy else {
        panic!("expected audio");
    };
    assert_eq!(copy.samples, 2);
    assert_eq!(copy.data, [[1, 2], [3, 4]]);
}

#[test]
fn frames_print_as_the_derived_form_does() {
    let mut video = picture();
    assert_eq!(video.debug_string(), format!("{:?}", video));
    assert_eq!(
        video.debug_string(),
        "VideoFrame { pts: Some(40), planes: [VideoPlane { stride: 4, data: [1, 2, 3, 4] }, \
         VideoPlane { stride: 2, data: [5, 6] }] }"
    );
    video.set_significant_bits(vec![]);
    let frame = Frame::Video(video);
    assert_eq!(frame.debug_string(), format!("{:?}", frame));

    for pts in [None, Some(0), Some(9), Some(10), Some(-10), Some(i64::MAX), Some(i64::MIN)] {
        let frame = Frame::Audio(AudioFrame {
            pts,
            samples: 1024,
            data: vec![vec![], vec![255, 0, 100]],
        });
        assert_eq!(frame.debug_string(), format!("{:?}", frame));
    }
}

#[test]
fn row_bytes_follow_the_format() {
    assert_eq!(PixelFormat::Gray8.plane_row_bytes(0, 5), Some(5));
    assert_eq!(PixelFormat::Gray16Le.plane_row_bytes(0, 5), Some(10));
    assert_eq!(PixelFormat::Rgb24.plane_row_bytes(0, 5), Some(15));
    assert_eq!(PixelFormat::Rgba.plane_row_bytes(0, 5), Some(20));
    assert_eq!(PixelFormat::Yuv420P.plane_row_bytes(0, 5), Some(5));
    assert_eq!(PixelFormat::Yuv420P.plane_row_bytes(1, 5), Some(3));
    assert_eq!(PixelFormat::Yuv422P.plane_row_bytes(2, 4), Some(2));
    assert_eq!(PixelFormat::Yuv444P.plane_row_bytes(2, 5), Some(5));
    assert_eq!(PixelFormat::Nv12.plane_row_bytes(0, 5), Some(5));
    assert_eq!(PixelFormat::Nv12.plane_row_bytes(1, 5), Some(6));
    assert_eq!(PixelFormat::Gray8.plane_row_bytes(0, 0), Some(0));
}

#[test]
fn there_are_no_row_bytes_for_a_plane_that_the_format_lacks() {
    assert_eq!(PixelFormat::Gray8.plane_row_bytes(1, 5), None);
    assert_eq!(PixelFormat::Gray16Le.plane_row_bytes(1, 5), None);
    assert_eq!(PixelFormat::Rgb24.plane_row_bytes(1, 5), None);
    assert_eq!(PixelFormat::Rgba.plane_row_bytes(1, 5), None);
    assert_eq!(PixelFormat::Yuv420P.plane_row_bytes(3, 5), None);
    assert_eq!(PixelFormat::Yuv422P.plane_row_bytes(3, 5), None);
    assert_eq!(PixelFormat::Yuv444P.plane_row_bytes(3, 5), None);
    assert_eq!(PixelFormat::Nv12.plane_row_bytes(2, 5), None);
}

#[test]
fn formats_are_named_as_their_variants() {
    for format in [
        PixelFormat::Gray8,
        PixelFormat::Gray16Le,
        PixelFormat::Rgb24,
        PixelFormat::Rgba,
        PixelFormat::Yuv420P,
        PixelFormat::Yuv422P,
        PixelFormat::Yuv444P,
        PixelFormat::Nv12,
    ] {
        assert_eq!(format.name(), format!("{:?}", format));
    }
}
