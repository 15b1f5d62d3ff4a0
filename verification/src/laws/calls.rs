//! How the results of one call bear on those of another.

use vstd::prelude::*;

use crate::arena;
use crate::arena::sync::{Arena, ArenaPool, FrameHeader, FrameInner};
use crate::error::Error;
use crate::frame::{Frame, VideoFrame};
use crate::hardware::HardwareVideoFrame;
use crate::lease::FrameLease;

verus! {

/// An arena that a pool lends out has the size that the pool was made for, holds
/// zeros only, and goes back into the channel of that pool, into which it has put
/// nothing yet. The pool was made with one buffer for each of its arenas.
pub proof fn pool_lends_its_own_zeroed_buffers(
    max_arenas: usize,
    arena_size: usize,
    pool: ArenaPool,
    arena: Arena,
)
    requires
        call_ensures(ArenaPool::new, (max_arenas, arena_size), pool),
        call_ensures(ArenaPool::lease, (&pool,), Ok(arena)),
    ensures
        pool.stock().len() == max_arenas,
        arena.channel() == pool.channel(),
        arena.given_back().len() == 0,
        arena@.used == 0,
        arena@.bytes.len() == arena_size,
        forall|i: int| 0 <= i < arena_size ==> arena@.bytes[i] == 0,
{
}

/// Reading a plane of a frame gives the range of the arena that the plane was
/// given when the frame was built: byte for byte, from the offset on. The frame
/// keeps the arena itself, and has no plane besides.
pub proof fn planes_read_as_their_ranges(
    arena: Arena,
    planes: &[(usize, usize)],
    header: FrameHeader,
    frame: arena::sync::Frame,
    index: usize,
    read: Option<&[u8]>,
    stride: Option<usize>,
)
    requires
        call_ensures(FrameInner::new, (arena, planes, header), Ok(frame)),
        call_ensures(FrameInner::plane, (&*frame, index), read),
        call_ensures(FrameInner::plane_stride, (&*frame, index), stride),
    ensures
        frame.arena() == arena,
        stride is None,
        read is Some <==> index < planes@.len(),
        read matches Some(bytes) ==> {
            let (offset, len) = planes@[index as int];
            &&& bytes@ == arena@.bytes.subrange(offset as int, offset + len)
            &&& bytes@.len() == len
            &&& forall|k: int| 0 <= k < len ==> #[trigger] bytes@[k] == arena@.bytes[offset + k]
        },
{
}

/// The same holds of a frame that was built with strides, and each plane has its
/// stride.
pub proof fn strided_planes_read_as_their_ranges(
    arena: Arena,
    planes: &[(usize, usize)],
    strides: &[usize],
    header: FrameHeader,
    frame: arena::sync::Frame,
    index: usize,
    read: Option<&[u8]>,
    stride: Option<usize>,
)
    requires
        call_ensures(FrameInner::new_with_strides, (arena, planes, strides, header), Ok(frame)),
        call_ensures(FrameInner::plane, (&*frame, index), read),
        call_ensures(FrameInner::plane_stride, (&*frame, index), stride),
    ensures
        frame.arena() == arena,
        read is Some <==> index < planes@.len(),
        stride is Some <==> index < planes@.len(),
        stride matches Some(bytes) ==> bytes == strides@[index as int],
        read matches Some(bytes) ==> {
            let (offset, len) = planes@[index as int];
            &&& bytes@ == arena@.bytes.subrange(offset as int, offset + len)
            &&& bytes@.len() == len
            &&& forall|k: int| 0 <= k < len ==> #[trigger] bytes@[k] == arena@.bytes[offset + k]
        },
{
}

/// A frame that was built with strides always comes out of its lease, and comes
/// out whole: with the timestamp of its header, with each plane as the range of
/// the arena that it was given, with the stride that it was given, and with the
/// significant bits of the header behind the planes, where it has any.
pub proof fn strided_frame_comes_out_of_its_lease_whole(
    arena: Arena,
    planes: &[(usize, usize)],
    strides: &[usize],
    header: FrameHeader,
    frame: arena::sync::Frame,
    lease: FrameLease,
    outcome: Result<Frame, Error>,
)
    requires
        call_ensures(FrameInner::new_with_strides, (arena, planes, strides, header), Ok(frame)),
        call_ensures(FrameLease::from_arena_video, (frame,), lease),
        call_ensures(FrameLease::materialize, (&lease,), outcome) || call_ensures(
            FrameLease::into_frame,
            (lease,),
            outcome,
        ),
    ensures
        outcome matches Ok(Frame::Video(video)) && {
            &&& video.pts == header.presentation_timestamp
            &&& match header.significant_bits {
                Some(bits) => {
                    &&& video.planes@.len() == planes@.len() + 1
                    &&& video.planes@[planes@.len() as int].stride == usize::MAX
                    &&& video.planes@[planes@.len() as int].data@ == bits@
                },
                None => video.planes@.len() == planes@.len(),
            }
            &&& forall|i: int|
                0 <= i < planes@.len() ==> {
                    &&& (#[trigger] video.planes@[i]).stride == strides@[i]
                    &&& video.planes@[i].data@ == arena@.bytes.subrange(
                        planes@[i].0 as int,
                        planes@[i].0 + planes@[i].1,
                    )
                }
        },
{
    crate::laws::arena_lease_gives_the_whole_picture(
        frame@,
        crate::lease::frame_outcome(outcome),
    );
    if let Ok(Frame::Video(video)) = outcome {
        crate::laws::pictures::video_model_is_the_picture(video);
        assert forall|i: int| 0 <= i < planes@.len() implies {
            &&& (#[trigger] video.planes@[i]).stride == strides@[i]
            &&& video.planes@[i].data@ == arena@.bytes.subrange(
                planes@[i].0 as int,
                planes@[i].0 + planes@[i].1,
            )
        } by {
            assert(frame@.planes[i].stride == Some(strides@[i]));
            assert(video@.planes[i].data == video.planes@[i].data@);
        }
        if header.significant_bits is Some {
            assert(video@.planes[planes@.len() as int].data
                == video.planes@[planes@.len() as int].data@);
        }
    }
}

/// A frame that was built without strides comes out of its lease exactly where
/// its format gives a row size for each plane, and comes out whole, with those
/// row sizes as its strides.
pub proof fn packed_frame_comes_out_of_its_lease_whole(
    arena: Arena,
    planes: &[(usize, usize)],
    header: FrameHeader,
    frame: arena::sync::Frame,
    lease: FrameLease,
    outcome: Result<Frame, Error>,
)
    requires
        call_ensures(FrameInner::new, (arena, planes, header), Ok(frame)),
        call_ensures(FrameLease::from_arena_video, (frame,), lease),
        call_ensures(FrameLease::materialize, (&lease,), outcome) || call_ensures(
            FrameLease::into_frame,
            (lease,),
            outcome,
        ),
    ensures
        outcome is Ok <==> forall|i: int|
            0 <= i < planes@.len() ==> (#[trigger] header.pixel_format.row_bytes(
                i as nat,
                header.width,
            )) is Some,
        outcome matches Err(error) ==> error is InvalidData,
        outcome matches Ok(obtained) ==> obtained matches Frame::Video(video) && {
            &&& video.pts == header.presentation_timestamp
            &&& match header.significant_bits {
                Some(bits) => {
                    &&& video.planes@.len() == planes@.len() + 1
                    &&& video.planes@[planes@.len() as int].stride == usize::MAX
                    &&& video.planes@[planes@.len() as int].data@ == bits@
                },
                None => video.planes@.len() == planes@.len(),
            }
            &&& forall|i: int|
                0 <= i < planes@.len() ==> {
                    &&& header.pixel_format.row_bytes(i as nat, header.width) == Some(
                        (#[trigger] video.planes@[i]).stride as nat,
                    )
                    &&& video.planes@[i].data@ == arena@.bytes.subrange(
                        planes@[i].0 as int,
                        planes@[i].0 + planes@[i].1,
                    )
                }
        },
{
    crate::laws::arena_lease_gives_the_whole_picture(
        frame@,
        crate::lease::frame_outcome(outcome),
    );
    if let Ok(Frame::Video(video)) = outcome {
        crate::laws::pictures::video_model_is_the_picture(video);
        assert forall|i: int| 0 <= i < planes@.len() implies {
            &&& header.pixel_format.row_bytes(i as nat, header.width) == Some(
                (#[trigger] video.planes@[i]).stride as nat,
            )
            &&& video.planes@[i].data@ == arena@.bytes.subrange(
                planes@[i].0 as int,
                planes@[i].0 + planes@[i].1,
            )
        } by {
            assert(frame@.planes[i].stride is None);
            assert(video@.planes[i].data == video.planes@[i].data@);
        }
        assert forall|i: int| 0 <= i < planes@.len() implies (
        #[trigger] header.pixel_format.row_bytes(i as nat, header.width)) is Some by {
            assert(video.planes@[i].stride == video@.planes[i].stride);
        }
        if header.significant_bits is Some {
            assert(video@.planes[planes@.len() as int].data
                == video.planes@[planes@.len() as int].data@);
        }
    }
}

/// What comes out of a lease on a hardware frame is a picture just as reading the
/// frame back can give it, or the error that reading it back can end in.
pub proof fn hardware_lease_gives_what_the_frame_gives(
    frame: HardwareVideoFrame,
    lease: FrameLease,
    outcome: Result<Frame, Error>,
)
    requires
        call_ensures(FrameLease::from_hardware_video, (frame,), lease),
        call_ensures(FrameLease::materialize, (&lease,), outcome) || call_ensures(
            FrameLease::into_frame,
            (lease,),
            outcome,
        ),
    ensures
        match outcome {
            Ok(Frame::Video(video)) => frame@.readbacks.contains(Ok(video@)),
            Ok(Frame::Audio(_)) => false,
            Err(error) => frame@.readbacks.contains(Err(error@)),
        },
{
}

/// A lease on a heap-backed frame gives that frame, always.
pub proof fn owned_lease_gives_its_frame(
    frame: Frame,
    lease: FrameLease,
    outcome: Result<Frame, Error>,
)
    requires
        call_ensures(FrameLease::from_frame, (frame,), lease),
        call_ensures(FrameLease::materialize, (&lease,), outcome) || call_ensures(
            FrameLease::into_frame,
            (lease,),
            outcome,
        ),
    ensures
        match (frame, outcome) {
            (Frame::Video(leased), Ok(Frame::Video(video))) => {
                &&& video.pts == leased.pts
                &&& video.planes@.len() == leased.planes@.len()
                &&& forall|i: int|
                    0 <= i < leased.planes@.len() ==> {
                        &&& (#[trigger] video.planes@[i]).stride == leased.planes@[i].stride
                        &&& video.planes@[i].data@ == leased.planes@[i].data@
                    }
            },
            (Frame::Audio(leased), Ok(Frame::Audio(audio))) => {
                &&& audio.pts == leased.pts
                &&& audio.samples == leased.samples
                &&& audio.data@.len() == leased.data@.len()
                &&& forall|i: int|
                    0 <= i < leased.data@.len() ==> (#[trigger] audio.data@[i])@
                        == leased.data@[i]@
            },
            _ => false,
        },
{
    match (frame, outcome) {
        (Frame::Video(leased), Ok(Frame::Video(video))) => {
            crate::laws::pictures::video_model_is_the_picture(leased);
            crate::laws::pictures::video_model_is_the_picture(video);
            assert forall|i: int| 0 <= i < leased.planes@.len() implies {
                &&& (#[trigger] video.planes@[i]).stride == leased.planes@[i].stride
                &&& video.planes@[i].data@ == leased.planes@[i].data@
            } by {
                assert(video@.planes[i] == leased@.planes[i]);
            }
        },
        (Frame::Audio(leased), Ok(Frame::Audio(audio))) => {
            crate::laws::pictures::audio_model_is_the_samples(leased);
            crate::laws::pictures::audio_model_is_the_samples(audio);
            assert forall|i: int| 0 <= i < leased.data@.len() implies (
            #[trigger] audio.data@[i])@ == leased.data@[i]@ by {
                assert(audio@.data[i] == leased@.data[i]);
            }
        },
        _ => {},
    }
}

/// A clone of a lease retains the very storage that the lease retains, and so
/// gives whatever the lease can give.
pub proof fn clone_retains_the_same_storage(
    lease: FrameLease,
    other: FrameLease,
    outcome: Result<Frame, Error>,
)
    requires
        call_ensures(<FrameLease as Clone>::clone, (&lease,), other),
        call_ensures(FrameLease::materialize, (&lease,), outcome),
    ensures
        other == lease,
        call_ensures(FrameLease::materialize, (&other,), outcome),
{
}

/// A lease reports the timestamp that what it was made of reports.
pub proof fn lease_reports_the_timestamp_it_was_made_with(
    hardware: HardwareVideoFrame,
    hardware_lease: FrameLease,
    hardware_pts: Option<i64>,
    owned: Frame,
    owned_lease: FrameLease,
    owned_pts: Option<i64>,
    video: arena::sync::Frame,
    header: &FrameHeader,
    arena_lease: FrameLease,
)
    requires
        call_ensures(FrameLease::from_hardware_video, (hardware,), hardware_lease),
        call_ensures(HardwareVideoFrame::pts, (&hardware,), hardware_pts),
        call_ensures(FrameLease::from_frame, (owned,), owned_lease),
        call_ensures(Frame::pts, (&owned,), owned_pts),
        call_ensures(FrameLease::from_arena_video, (video,), arena_lease),
        call_ensures(FrameInner::header, (&*video,), header),
    ensures
        forall|pts: Option<i64>|
            #[trigger] call_ensures(FrameLease::pts, (&hardware_lease,), pts) ==> pts
                == hardware_pts,
        forall|pts: Option<i64>|
            #[trigger] call_ensures(FrameLease::pts, (&owned_lease,), pts) ==> pts == owned_pts,
        forall|pts: Option<i64>|
            #[trigger] call_ensures(FrameLease::pts, (&arena_lease,), pts) ==> pts
                == header.presentation_timestamp,
{
}

/// The significant bits that a picture reports are those that its last entry
/// carries, and the entry carries them where it has the largest stride there is.
pub proof fn picture_reports_the_bits_of_its_last_entry(video: VideoFrame, bits: Option<&[u8]>)
    requires
        call_ensures(VideoFrame::significant_bits, (&video,), bits),
    ensures
        bits is Some <==> video.planes@.len() > 0 && video.planes@.last().stride == usize::MAX,
        bits matches Some(b) ==> b@ == video.planes@.last().data@,
{
    if video.planes@.len() > 0 {
        assert(video@.planes.last() == video.planes@.last()@);
    }
}

} // verus!
