use frame_lease::arena::sync::{ArenaPool, Frame, FrameHeader, FrameInner};
use frame_lease::frame::SIGNIFICANT_BITS_STRIDE;
use frame_lease::{Error, PixelFormat};

fn gray(pts: Option<i64>) -> FrameHeader {
    FrameHeader::new(2, 2, PixelFormat::Gray8, pts)
}

fn refusal(frame: Result<Frame, Error>) -> String {
    match frame {
        Err(Error::InvalidData(message)) => message,
        Err(other) => panic!("unexpected error {:?}", other),
        Ok(_) => panic!("expected an error"),
    }
}

#[test]
fn allocations_follow_each_other_until_the_arena_is_full() {
    let pool = ArenaPool::new(1, 6);
    let mut arena = pool.lease().unwrap();
    arena.allocate(4).unwrap().copy_from_slice(&[1, 2, 3, 4]);
    match arena.allocate(3) {
        Err(Error::ResourceExhausted(message)) => {
            assert_eq!(message, "arena has no room for 3 more bytes");
        }
        _ => panic!("expected exhaustion"),
    }
    arena.allocate(2).unwrap().copy_from_slice(&[5, 6]);
    assert!(arena.allocate(1).is_err());
    assert_eq!(arena.allocate(0).unwrap().len(), 0);
    let frame = FrameInner::new(arena, &[(0, 6), (3, 2)], gray(None)).unwrap();
    assert_eq!(frame.plane_count(), 2);
    assert_eq!(frame.plane(0), Some(&[1, 2, 3, 4, 5, 6][..]));
    assert_eq!(frame.plane(1), Some(&[4, 5][..]));
    assert_eq!(frame.plane(2), None);
    assert_eq!(frame.plane_stride(0), None);
    assert_eq!(frame.plane_stride(2), None);
}

#[test]
fn a_pool_lends_out_no_more_than_its_arenas() {
    let pool = ArenaPool::new(2, 4);
    let first = pool.lease().unwrap();
    let second = pool.lease().unwrap();
    match pool.lease() {
        Err(Error::ResourceExhausted(message)) => {
            assert_eq!(message, "all 2 arenas of the pool are in use");
        }
        _ => panic!("expected exhaustion"),
    }
    drop(first);
    let third = pool.lease().unwrap();
    assert!(pool.lease().is_err());
    drop(second);
    drop(third);
    assert!(pool.lease().is_ok());
    assert!(ArenaPool::new(0, 4).lease().is_err());
}

#[test]
fn a_recycled_buffer_starts_out_zeroed() {
    let pool = ArenaPool::new(1, 3);
    let mut arena = pool.lease().unwrap();
    arena.allocate(3).unwrap().copy_from_slice(&[7, 8, 9]);
    drop(arena);
    let mut arena = pool.lease().unwrap();
    assert_eq!(arena.allocate(3).unwrap().to_vec(), [0, 0, 0]);
}

#[test]
fn an_arena_outlives_its_pool() {
    let pool = ArenaPool::new(1, 2);
    let mut arena = pool.lease().unwrap();
    arena.allocate(2).unwrap().copy_from_slice(&[3, 4]);
    drop(pool);
    let frame = FrameInner::new(arena, &[(0, 2)], gray(Some(1))).unwrap();
    assert_eq!(frame.plane(0), Some(&[3, 4][..]));
}

#[test]
fn a_plane_outside_the_allocated_bytes_is_refused() {
    let pool = ArenaPool::new(1, 8);
    let mut arena = pool.lease().unwrap();
    arena.allocate(4).unwrap();
    let frame = FrameInner::new(arena, &[(0, 4), (4, 1), (9, 9)], gray(None));
    assert_eq!(refusal(frame), "plane 1 does not fit its arena");

    let mut arena = pool.lease().unwrap();
    arena.allocate(4).unwrap();
    let frame = FrameInner::new(arena, &[(usize::MAX, 2)], gray(None));
    assert_eq!(refusal(frame), "plane 0 does not fit its arena");
    assert!(pool.lease().is_ok());
}

#[test]
fn strides_are_checked() {
    let pool = ArenaPool::new(1, 8);
    let arena = pool.lease().unwrap();
    let frame = FrameInner::new_with_strides(arena, &[(0, 0)], &[], gray(None));
    assert_eq!(refusal(frame), "a frame has one stride for each plane");

    let arena = pool.lease().unwrap();
    let frame = FrameInner::new_with_strides(
        arena,
        &[(0, 0), (0, 0)],
        &[1, SIGNIFICANT_BITS_STRIDE],
        gray(None),
    );
    assert_eq!(refusal(frame), "plane 1 does not fit its arena");

    let arena = pool.lease().unwrap();
    let frame = FrameInner::new_with_strides(arena, &[(0, 0), (0, 0)], &[0, 5], gray(None));
    let frame = frame.unwrap();
    assert_eq!(frame.plane_stride(0), Some(0));
    assert_eq!(frame.plane_stride(1), Some(5));
    assert_eq!(frame.plane_stride(2), None);
}

#[test]
fn significant_bits_of_a_header_are_checked() {
    let header = gray(None).with_significant_bits(&[1, 2, 3, 255]).unwrap();
    assert_eq!(header.significant_bits(), Some(&[1, 2, 3, 255][..]));
    assert_eq!(gray(None).significant_bits(), None);
    for bits in [&[][..], &[8, 0][..], &[1, 2, 3, 4, 5][..]] {
        match gray(None).with_significant_bits(bits) {
            Err(Error::InvalidData(message)) => {
                assert_eq!(
                    message,
                    "significant bits are one to four numbers other than zero"
                );
            }
            _ => panic!("expected an error"),
        }
    }
}

#[test]
fn headers_print_as_the_derived_form_does() {
    let header = gray(Some(-5));
    assert_eq!(header.debug_string(), format!("{:?}", header));
    let header = header.with_significant_bits(&[7, 12]).unwrap();
    assert_eq!(header.debug_string(), format!("{:?}", header));
    assert_eq!(
        header.debug_string(),
        "FrameHeader { width: 2, height: 2, pixel_format: Gray8, \
         presentation_timestamp: Some(-5), significant_bits: Some([7, 12]) }"
    );
}
