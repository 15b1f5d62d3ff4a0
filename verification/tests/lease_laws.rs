use std::sync::Arc;

use frame_lease::arena::sync::{ArenaPool, Frame as ArenaFrame, FrameHeader, FrameInner};
use frame_lease::lease::{materialize_arena_video, materialize_plane, move_or_copy, wrap_video};
use frame_lease::{
    AnyRef, AudioFrame, Error, Frame, FrameLease, HardwareVideoFrame, HardwareVideoFrameStorage,
    PixelFormat, VideoFrame, VideoPlane,
};

fn owned() -> FrameLease {
    FrameLease::from(Frame::Video(VideoFrame {
        pts: Some(7),
        planes: vec![VideoPlane { stride: 2, data: vec![1, 2, 3, 4] }],
    }))
}

fn arena_frame(format: PixelFormat, planes: &[(usize, usize)]) -> ArenaFrame {
    let pool = ArenaPool::new(1, 8);
    let mut arena = pool.lease().unwrap();
    arena.allocate(8).unwrap().copy_from_slice(&[1, 2, 3, 4, 5, 6, 7, 8]);
    FrameInner::new(arena, planes, FrameHeader::new(3, 2, format, Some(11))).unwrap()
}

fn video(frame: Result<Frame, Error>) -> VideoFrame {
    match frame {
        Ok(Frame::Video(video)) => video,
        _ => panic!("expected video"),
    }
}

fn invalid(error: Error) -> String {
    match error {
        Error::InvalidData(message) => message,
        other => panic!("unexpected error {:?}", other),
    }
}

struct Surface {
    backend: &'static str,
    readable: bool,
}

impl HardwareVideoFrameStorage for Surface {
    fn backend(&self) -> &'static str {
        self.backend
    }

    fn width(&self) -> u32 {
        1920
    }

    fn height(&self) -> u32 {
        1080
    }

    fn pixel_format(&self) -> PixelFormat {
        PixelFormat::Nv12
    }

    fn pts(&self) -> Option<i64> {
        Some(-90)
    }

    fn as_any(&self) -> AnyRef<'_> {
        AnyRef::new(self)
    }

    fn materialize(&self) -> Result<VideoFrame, Error> {
        if self.readable {
            Ok(VideoFrame { pts: Some(-90), planes: vec![] })
        } else {
            Err(Error::invalid("surface lost".to_string()))
        }
    }
}

/// Hands out the handle inside it, not itself.
struct OtherSurface {
    handle: Handle,
}

struct Handle {
    id: u64,
}

fn other() -> HardwareVideoFrame {
    HardwareVideoFrame::new(OtherSurface { handle: Handle { id: 77 } })
}

impl HardwareVideoFrameStorage for OtherSurface {
    fn backend(&self) -> &'static str {
        "other"
    }

    fn width(&self) -> u32 {
        0
    }

    fn height(&self) -> u32 {
        0
    }

    fn pixel_format(&self) -> PixelFormat {
        PixelFormat::Gray8
    }

    fn pts(&self) -> Option<i64> {
        None
    }

    fn as_any(&self) -> AnyRef<'_> {
        AnyRef::new(&self.handle)
    }

    fn materialize(&self) -> Result<VideoFrame, Error> {
        Err(Error::exhausted("no surface".to_string()))
    }
}

fn hardware(readable: bool) -> HardwareVideoFrame {
    HardwareVideoFrame::new(Surface { backend: "vdpau", readable })
}

fn shareable<T: Send + Sync>(_: &T) {}

#[test]
fn leases_can_cross_threads() {
    shareable(&owned());
    shareable(&hardware(true));
}

#[test]
fn a_lease_retains_one_storage() {
    let lease = owned();
    assert!(lease.as_frame().is_some());
    assert!(lease.as_arena_video().is_none());
    assert!(lease.as_hardware_video().is_none());
    assert!(!lease.is_hardware_video());
    assert_eq!(lease.pts(), Some(7));

    let lease = FrameLease::from(arena_frame(PixelFormat::Gray8, &[(0, 6)]));
    assert!(lease.as_frame().is_none());
    assert_eq!(lease.as_arena_video().unwrap().plane(0), Some(&[1, 2, 3, 4, 5, 6][..]));
    assert!(lease.as_hardware_video().is_none());
    assert!(!lease.is_hardware_video());
    assert_eq!(lease.pts(), Some(11));

    let lease = FrameLease::from(hardware(true));
    assert!(lease.as_frame().is_none());
    assert!(lease.as_arena_video().is_none());
    assert_eq!(lease.as_hardware_video().unwrap().width(), 1920);
    assert!(lease.is_hardware_video());
    assert_eq!(lease.pts(), Some(-90));
}

#[test]
fn a_shared_owned_frame_comes_out_of_every_clone() {
    let lease = owned();
    let clone = lease.clone();
    assert_eq!(video(lease.materialize()).planes[0].data, [1, 2, 3, 4]);
    assert_eq!(video(clone.into_frame()).planes[0].data, [1, 2, 3, 4]);
    let out = video(lease.into_frame());
    assert_eq!(out.pts, Some(7));
    assert_eq!(out.planes[0].stride, 2);
    assert_eq!(out.planes[0].data, [1, 2, 3, 4]);
}

#[test]
fn a_unique_owned_frame_is_moved_out() {
    let data = vec![1, 2, 3, 4];
    let address = data.as_ptr();
    let lease = FrameLease::from_frame(Frame::Video(VideoFrame {
        pts: None,
        planes: vec![VideoPlane { stride: 2, data }],
    }));
    assert_eq!(video(lease.into_frame()).planes[0].data.as_ptr(), address);
}

#[test]
fn an_owned_audio_frame_stays_audio() {
    let lease = FrameLease::from_frame(Frame::Audio(AudioFrame {
        pts: Some(3),
        samples: 1,
        data: vec![vec![5]],
    }));
    assert_eq!(lease.pts(), Some(3));
    assert!(matches!(lease.materialize(), Ok(Frame::Audio(_))));
    assert!(matches!(lease.into_frame(), Ok(Frame::Audio(_))));
}

#[test]
fn planes_without_a_declared_stride_are_tightly_packed() {
    let frame = arena_frame(PixelFormat::Nv12, &[(0, 4), (4, 4)]);
    let copy = materialize_arena_video(&frame).unwrap();
    assert_eq!(copy.pts, Some(11));
    assert_eq!(copy.planes.len(), 2);
    assert_eq!(copy.planes[0].stride, 3);
    assert_eq!(copy.planes[0].data, [1, 2, 3, 4]);
    assert_eq!(copy.planes[1].stride, 4);
    assert_eq!(copy.planes[1].data, [5, 6, 7, 8]);
    assert_eq!(copy.significant_bits(), None);
}

#[test]
fn the_first_plane_without_a_stride_is_reported() {
    let lease = FrameLease::from(arena_frame(PixelFormat::Gray8, &[(0, 4), (4, 2), (6, 2)]));
    let expected = "arena video frame has no stride for plane 1 (Gray8 3x2)";
    assert_eq!(invalid(lease.materialize().unwrap_err()), expected);
    assert_eq!(invalid(lease.into_frame().unwrap_err()), expected);
}

#[test]
fn a_plane_without_bytes_is_reported_before_its_stride() {
    let header = FrameHeader::new(3, 2, PixelFormat::Gray8, None);
    let error = materialize_plane(&header, 12, None, None).unwrap_err();
    assert_eq!(invalid(error), "arena video frame is missing plane 12");
    let error = materialize_plane(&header, 0, None, Some(3)).unwrap_err();
    assert_eq!(invalid(error), "arena video frame is missing plane 0");
    let plane = materialize_plane(&header, 5, Some(&[1, 2]), Some(9)).unwrap();
    assert_eq!(plane.stride, 9);
    assert_eq!(plane.data, [1, 2]);
    let plane = materialize_plane(&header, 0, Some(&[1, 2]), None).unwrap();
    assert_eq!(plane.stride, 3);
}

#[test]
fn materializing_again_changes_nothing() {
    let lease = FrameLease::from(arena_frame(PixelFormat::Gray8, &[(2, 3)]));
    let once = video(lease.materialize());
    let again = video(FrameLease::from_frame(Frame::Video(once.clone())).into_frame());
    assert_eq!(again.pts, once.pts);
    assert_eq!(again.planes[0].stride, once.planes[0].stride);
    assert_eq!(again.planes[0].data, [3, 4, 5]);
}

#[test]
fn a_hardware_frame_reports_what_its_storage_does() {
    let frame = hardware(true);
    assert_eq!(frame.backend(), "vdpau");
    assert_eq!(frame.width(), 1920);
    assert_eq!(frame.height(), 1080);
    assert_eq!(frame.pixel_format(), PixelFormat::Nv12);
    assert_eq!(frame.pts(), Some(-90));
    assert_eq!(frame.storage().height(), 1080);
    assert_eq!(frame.storage().backend(), "vdpau");
}

#[test]
fn a_hardware_frame_is_downcast_to_its_own_type_only() {
    let frame = hardware(true).clone();
    let surface = frame.downcast_ref::<Surface>().unwrap();
    assert!(surface.readable);
    assert!(frame.downcast_ref::<OtherSurface>().is_none());
    assert!(frame.downcast_ref::<u32>().is_none());
    assert!(frame.downcast_ref::<Box<Surface>>().is_none());
}

#[test]
fn a_backend_chooses_the_handle_it_hands_out() {
    let frame = other();
    assert_eq!(frame.downcast_ref::<Handle>().unwrap().id, 77);
    assert!(frame.downcast_ref::<OtherSurface>().is_none());
    assert_eq!(frame.storage().as_any().downcast_ref::<Handle>().unwrap().id, 77);
}

#[test]
fn clones_lend_one_storage_object() {
    let frame = hardware(true);
    let clone = frame.clone();
    assert!(std::ptr::eq(frame.storage(), clone.storage()));
    let original = frame.downcast_ref::<Surface>().unwrap();
    assert!(std::ptr::eq(original, clone.downcast_ref::<Surface>().unwrap()));
}

#[test]
fn a_taken_frame_is_moved_and_a_shared_one_copied() {
    let data = vec![6, 7];
    let address = data.as_ptr();
    let frame = Frame::Video(VideoFrame {
        pts: Some(4),
        planes: vec![VideoPlane { stride: 1, data }],
    });
    let moved = video(Ok(move_or_copy(Ok(frame))));
    assert_eq!(moved.planes[0].data.as_ptr(), address);
    let shared = Arc::new(Frame::Video(moved));
    let copy = video(Ok(move_or_copy(Err(Arc::clone(&shared)))));
    assert_eq!(copy.pts, Some(4));
    assert_eq!(copy.planes[0].data, [6, 7]);
    assert_ne!(copy.planes[0].data.as_ptr(), address);
}

#[test]
fn a_failed_readback_is_passed_on() {
    let lease = FrameLease::from_hardware_video(hardware(false));
    assert_eq!(invalid(lease.materialize().unwrap_err()), "surface lost");
    assert_eq!(invalid(lease.into_frame().unwrap_err()), "surface lost");
    let lease = FrameLease::from(other());
    assert!(matches!(lease.into_frame(), Err(Error::ResourceExhausted(_))));
    let lease = FrameLease::from(hardware(true));
    assert_eq!(video(lease.into_frame()).pts, Some(-90));
}

#[test]
fn a_materialized_picture_is_wrapped_as_a_frame() {
    let wrapped = wrap_video(Ok(VideoFrame { pts: Some(1), planes: vec![] }));
    assert_eq!(video(wrapped).pts, Some(1));
    let wrapped = wrap_video(Err(Error::invalid("broken".to_string())));
    assert_eq!(invalid(wrapped.unwrap_err()), "broken");
}

#[test]
fn leases_print_what_they_retain() {
    assert_eq!(
        owned().debug_string(),
        "FrameLease::Owned(Video(VideoFrame { pts: Some(7), \
         planes: [VideoPlane { stride: 2, data: [1, 2, 3, 4] }] }))"
    );
    assert_eq!(
        FrameLease::from(arena_frame(PixelFormat::Gray8, &[(0, 1), (1, 1)])).debug_string(),
        "FrameLease::ArenaVideo { header: FrameHeader { width: 3, height: 2, \
         pixel_format: Gray8, presentation_timestamp: Some(11), significant_bits: None }, \
         planes: 2 }"
    );
    let frame = HardwareVideoFrame::new(Surface { backend: "a\"b", readable: true });
    assert_eq!(
        frame.debug_string(),
        "HardwareVideoFrame { backend: \"a\\\"b\", width: 1920, height: 1080, \
         pixel_format: Nv12, pts: Some(-90), .. }"
    );
    assert_eq!(
        frame.debug_string_with("?"),
        "HardwareVideoFrame { backend: ?, width: 1920, height: 1080, \
         pixel_format: Nv12, pts: Some(-90), .. }"
    );
    let lease = FrameLease::from(frame);
    assert_eq!(
        lease.debug_string(),
        "FrameLease::HardwareVideo(HardwareVideoFrame { backend: \"a\\\"b\", width: 1920, \
         height: 1080, pixel_format: Nv12, pts: Some(-90), .. })"
    );
    assert_eq!(
        lease.debug_string_with("?"),
        "FrameLease::HardwareVideo(HardwareVideoFrame { backend: ?, width: 1920, \
         height: 1080, pixel_format: Nv12, pts: Some(-90), .. })"
    );
}
