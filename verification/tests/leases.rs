use std::sync::atomic::{AtomicUsize, Ordering};
use std::sync::Arc;

use frame_lease::arena::sync::{ArenaPool, FrameHeader, FrameInner};
use frame_lease::{
    AnyRef, Error, Frame, FrameLease, HardwareVideoFrame, HardwareVideoFrameStorage, PixelFormat,
    VideoFrame, VideoPlane,
};

#[test]
fn owned_lease_moves_unique_frame_without_changing_payload() {
    let frame = Frame::Video(VideoFrame {
        pts: Some(7),
        planes: vec![VideoPlane {
            stride: 2,
            data: vec![1, 2, 3, 4],
        }],
    });
    let lease = FrameLease::from_frame(frame);
    let out = lease.into_frame().expect("materialize owned frame");
    let Frame::Video(out) = out else {
        panic!("expected video frame");
    };
    assert_eq!(out.pts, Some(7));
    assert_eq!(out.planes[0].data, [1, 2, 3, 4]);
}

#[test]
fn arena_lease_retains_pool_buffer_until_last_clone_drops() {
    let pool = ArenaPool::new(1, 16);
    let mut arena = pool.lease().expect("lease arena");
    let pixels = arena.allocate(4).expect("allocate pixels");
    pixels.copy_from_slice(&[1, 2, 3, 4]);
    let frame = FrameInner::new_with_strides(
        arena,
        &[(0, 4)],
        &[2],
        FrameHeader::new(2, 2, PixelFormat::Gray8, Some(11)),
    )
    .expect("arena frame");
    let lease = FrameLease::from_arena_video(frame);
    let retained = lease.clone();

    assert!(matches!(pool.lease(), Err(Error::ResourceExhausted(_))));
    drop(lease);
    assert!(matches!(pool.lease(), Err(Error::ResourceExhausted(_))));
    drop(retained);
    assert!(pool.lease().is_ok());
}

#[test]
fn arena_materialization_preserves_stride_and_significant_bits() {
    let pool = ArenaPool::new(1, 8);
    let mut arena = pool.lease().unwrap();
    arena
        .allocate(8)
        .unwrap()
        .copy_from_slice(&[1, 2, 9, 9, 3, 4, 9, 9]);
    let arena_frame = FrameInner::new_with_strides(
        arena,
        &[(0, 8)],
        &[4],
        FrameHeader::new(2, 2, PixelFormat::Gray8, Some(3))
            .with_significant_bits(&[7])
            .unwrap(),
    )
    .unwrap();
    let frame = FrameLease::from_arena_video(arena_frame)
        .into_frame()
        .unwrap();
    let Frame::Video(video) = frame else {
        panic!("expected video");
    };
    assert_eq!(video.planes[0].stride, 4);
    assert_eq!(video.planes[0].data, [1, 2, 9, 9, 3, 4, 9, 9]);
    assert_eq!(video.significant_bits(), Some(&[7][..]));
}

struct FakeHardwareFrame {
    drops: Arc<AtomicUsize>,
}

impl Drop for FakeHardwareFrame {
    fn drop(&mut self) {
        self.drops.fetch_add(1, Ordering::SeqCst);
    }
}

impl HardwareVideoFrameStorage for FakeHardwareFrame {
    fn backend(&self) -> &'static str {
        "fake"
    }

    fn width(&self) -> u32 {
        2
    }

    fn height(&self) -> u32 {
        2
    }

    fn pixel_format(&self) -> PixelFormat {
        PixelFormat::Gray8
    }

    fn pts(&self) -> Option<i64> {
        Some(5)
    }

    fn as_any(&self) -> AnyRef<'_> {
        AnyRef::new(self)
    }

    fn materialize(&self) -> Result<VideoFrame, Error> {
        Ok(VideoFrame {
            pts: Some(5),
            planes: vec![VideoPlane {
                stride: 2,
                data: vec![9, 8, 7, 6],
            }],
        })
    }
}

#[test]
fn hardware_lease_is_refcounted_and_materializes_only_on_request() {
    let drops = Arc::new(AtomicUsize::new(0));
    let hardware = HardwareVideoFrame::new(FakeHardwareFrame {
        drops: Arc::clone(&drops),
    });
    let lease = FrameLease::from_hardware_video(hardware.clone());
    let retained = lease.clone();
    assert_eq!(hardware.backend(), "fake");
    assert!(hardware.downcast_ref::<FakeHardwareFrame>().is_some());
    assert_eq!(drops.load(Ordering::SeqCst), 0);

    let materialized = retained.materialize().unwrap();
    let Frame::Video(video) = materialized else {
        panic!("expected video");
    };
    assert_eq!(video.planes[0].data, [9, 8, 7, 6]);
    assert_eq!(drops.load(Ordering::SeqCst), 0);

    drop(retained);
    drop(lease);
    drop(hardware);
    assert_eq!(drops.load(Ordering::SeqCst), 1);
}
