//! What holds of leases and frames as a whole.

use vstd::prelude::*;

use crate::arena::sync::{ArenaFrameModel, HeaderModel};
use crate::error::ErrorModel;
use crate::frame::{FrameModel, PlaneModel, VideoModel};
use crate::hardware::HardwareModel;
use crate::lease::{FrameLease, LeaseModel};

pub mod arenas;
pub mod calls;
pub mod pictures;
pub mod text;

verus! {

/// A lease retains exactly one kind of storage: one of the three borrows is
/// there, and the lease is hardware-resident where it is the hardware one.
pub proof fn lease_retains_one_storage(lease: FrameLease)
    ensures
        lease.spec_as_frame() is Some <==> lease@ is Owned,
        lease.spec_as_arena_video() is Some <==> lease@ is ArenaVideo,
        lease.spec_as_hardware_video() is Some <==> lease@ is HardwareVideo,
        lease@ is Owned || lease@ is ArenaVideo || lease@ is HardwareVideo,
{
}

/// A leased heap-backed frame comes out of its lease as it went in: obtaining it
/// always succeeds, and gives the frame itself.
pub proof fn owned_lease_gives_its_frame_back(
    frame: FrameModel,
    outcome: Result<FrameModel, ErrorModel>,
)
    ensures
        LeaseModel::Owned(frame).materializes_to(outcome) <==> outcome == Ok::<
            FrameModel,
            ErrorModel,
        >(frame),
{
}

/// Copying an arena frame comes to exactly one outcome.
pub proof fn arena_copy_has_one_outcome(
    frame: ArenaFrameModel,
    a: Result<VideoModel, ErrorModel>,
    b: Result<VideoModel, ErrorModel>,
)
    requires
        frame.copies_to(a),
        frame.copies_to(b),
    ensures
        a == b,
{
    if a is Err && b is Err {
        let i = choose|i: int| #[trigger]
            frame.first_failure(i) && frame.plane_outcome(i)->Err_0 == a->Err_0;
        let j = choose|j: int| #[trigger]
            frame.first_failure(j) && frame.plane_outcome(j)->Err_0 == b->Err_0;
        assert(frame.plane_outcome(i) is Err && frame.plane_outcome(j) is Err);
    }
}

/// Copying an arena frame always comes to some outcome: it succeeds, or there is
/// a first plane that cannot be copied.
pub proof fn arena_copy_has_an_outcome(frame: ArenaFrameModel)
    ensures
        exists|outcome: Result<VideoModel, ErrorModel>| #[trigger] frame.copies_to(outcome),
{
    if forall|i: int| 0 <= i < frame.planes.len() ==> (#[trigger] frame.plane_outcome(i)) is Ok {
        assert(frame.copies_to(Ok(frame.copied_video())));
    } else {
        let i = choose|i: int|
            0 <= i < frame.planes.len() && !((#[trigger] frame.plane_outcome(i)) is Ok);
        let first = lemma_first_failure(frame, i);
        assert(frame.copies_to(Err(frame.plane_outcome(first)->Err_0)));
    }
}

proof fn lemma_first_failure(frame: ArenaFrameModel, index: int) -> (first: int)
    requires
        0 <= index < frame.planes.len(),
        frame.plane_outcome(index) is Err,
    ensures
        frame.first_failure(first),
    decreases index,
{
    if exists|j: int| 0 <= j < index && (#[trigger] frame.plane_outcome(j)) is Err {
        let j = choose|j: int| 0 <= j < index && (#[trigger] frame.plane_outcome(j)) is Err;
        lemma_first_failure(frame, j)
    } else {
        index
    }
}

/// Unless the frame is in hardware, where the backend decides, a lease gives the
/// same result however often it is asked, by borrow or by value, itself or a
/// clone of it.
pub proof fn lease_has_one_outcome(
    lease: LeaseModel,
    a: Result<FrameModel, ErrorModel>,
    b: Result<FrameModel, ErrorModel>,
)
    requires
        !(lease is HardwareVideo),
        lease.materializes_to(a),
        lease.materializes_to(b),
    ensures
        a == b,
{
    if let LeaseModel::ArenaVideo(frame) = lease {
        let x: Result<VideoModel, ErrorModel> = match a {
            Ok(FrameModel::Video(video)) => Ok(video),
            Ok(FrameModel::Audio(_)) => arbitrary(),
            Err(error) => Err(error),
        };
        let y: Result<VideoModel, ErrorModel> = match b {
            Ok(FrameModel::Video(video)) => Ok(video),
            Ok(FrameModel::Audio(_)) => arbitrary(),
            Err(error) => Err(error),
        };
        arena_copy_has_one_outcome(frame, x, y);
    }
}

/// Unless the frame is in hardware, where the backend decides, a frame that is
/// obtained from a lease has the timestamp of the lease.
pub proof fn materializing_keeps_the_timestamp(lease: LeaseModel, frame: FrameModel)
    requires
        !(lease is HardwareVideo),
        lease.materializes_to(Ok(frame)),
    ensures
        frame.pts() == lease.pts(),
{
}

/// A frame that is obtained from arena or hardware storage is a picture.
pub proof fn materialized_video_is_video(lease: LeaseModel, frame: FrameModel)
    requires
        !(lease is Owned),
        lease.materializes_to(Ok(frame)),
    ensures
        frame is Video,
{
}

/// Leasing what a lease gave, and obtaining it again, changes nothing more.
pub proof fn materializing_again_changes_nothing(
    lease: LeaseModel,
    frame: FrameModel,
    again: Result<FrameModel, ErrorModel>,
)
    requires
        lease.materializes_to(Ok(frame)),
        LeaseModel::Owned(frame).materializes_to(again),
    ensures
        again == Ok::<FrameModel, ErrorModel>(frame),
{
}

/// A copied arena frame has the planes of the arena frame in their order, with
/// all their bytes, each with the declared stride where there is one; it has
/// its timestamp, and its significant bits where there are any.
pub proof fn arena_copy_is_faithful(frame: ArenaFrameModel, video: VideoModel)
    requires
        frame.wf(),
        frame.copies_to(Ok(video)),
    ensures
        video.pts == frame.header.presentation_timestamp,
        video.significant_bits() == frame.header.significant_bits,
        video.picture_planes().len() == frame.planes.len(),
        forall|i: int|
            #![trigger video.picture_planes()[i]]
            0 <= i < frame.planes.len() ==> {
                &&& Some(video.picture_planes()[i].data) == frame.plane(i)
                &&& frame.plane_stride(i) matches Some(stride)
                    ==> video.picture_planes()[i].stride == stride
                &&& frame.plane_stride(i) is None ==> frame.header.pixel_format.row_bytes(
                    i as nat,
                    frame.header.width,
                ) == Some(video.picture_planes()[i].stride as nat)
            },
{
    let plain = VideoModel {
        pts: frame.header.presentation_timestamp,
        planes: frame.copied_planes(),
    };
    assert forall|i: int| 0 <= i < frame.planes.len() implies !(
    #[trigger] frame.copied_planes()[i]).carries_bits() by {
        assert(frame.plane_outcome(i) is Ok);
        assert(frame.planes[i].stride != Some(crate::frame::SIGNIFICANT_BITS_STRIDE));
    }
    assert(!plain.has_bits_entry());
    if let Some(bits) = frame.header.significant_bits {
        assert(video.picture_planes() =~= plain.planes);
    }
    assert forall|i: int|
        #![trigger video.picture_planes()[i]]
        0 <= i < frame.planes.len() implies {
        &&& Some(video.picture_planes()[i].data) == frame.plane(i)
        &&& frame.plane_stride(i) matches Some(stride) ==> video.picture_planes()[i].stride
            == stride
        &&& frame.plane_stride(i) is None ==> frame.header.pixel_format.row_bytes(
            i as nat,
            frame.header.width,
        ) == Some(video.picture_planes()[i].stride as nat)
    } by {
        assert(frame.plane_outcome(i) is Ok);
        assert(video.picture_planes()[i] == frame.copied_planes()[i]);
    }
}

/// Copying an arena frame fails only for want of a stride: the plane that the
/// error speaks of has no declared stride, and its format gives none either.
pub proof fn arena_copy_fails_for_want_of_a_stride(frame: ArenaFrameModel, error: ErrorModel)
    requires
        frame.wf(),
        frame.copies_to(Err(error)),
    ensures
        exists|i: int|
            #![trigger frame.plane_stride(i)]
            {
                &&& 0 <= i < frame.planes.len()
                &&& frame.plane_stride(i) is None
                &&& frame.header.pixel_format.row_bytes(i as nat, frame.header.width) is None
                &&& error == ErrorModel::InvalidData(
                    crate::lease::no_stride_message(frame.header, i as nat),
                )
            },
{
    let i = choose|i: int| #[trigger]
        frame.first_failure(i) && frame.plane_outcome(i)->Err_0 == error;
    assert(frame.planes[i].data is Some);
    assert(frame.plane_stride(i) is None);
}

/// An arena frame with a declared stride for each plane can always be copied.
pub proof fn declared_strides_suffice(
    frame: ArenaFrameModel,
    outcome: Result<VideoModel, ErrorModel>,
)
    requires
        frame.wf(),
        forall|i: int|
            0 <= i < frame.planes.len() ==> (#[trigger] frame.planes[i]).stride is Some,
        frame.copies_to(outcome),
    ensures
        outcome is Ok,
{
    if let Err(error) = outcome {
        arena_copy_fails_for_want_of_a_stride(frame, error);
    }
}

/// An arena frame whose planes its pixel format knows can always be copied, with
/// or without declared strides, where four bytes a pixel fit in a row.
pub proof fn known_planes_suffice(
    frame: ArenaFrameModel,
    outcome: Result<VideoModel, ErrorModel>,
)
    requires
        frame.wf(),
        forall|i: int|
            0 <= i < frame.planes.len() ==> (#[trigger] frame.header.pixel_format.row_layout(
                i as nat,
            )) is Some,
        4 * frame.header.width <= usize::MAX / 2,
        frame.copies_to(outcome),
    ensures
        outcome is Ok,
{
    if let Err(error) = outcome {
        arena_copy_fails_for_want_of_a_stride(frame, error);
        let i = choose|i: int|
            #![trigger frame.plane_stride(i)]
            0 <= i < frame.planes.len() && frame.header.pixel_format.row_bytes(
                i as nat,
                frame.header.width,
            ) is None;
        let layout = frame.header.pixel_format.row_layout(i as nat)->0;
        let width = frame.header.width as nat;
        let groups = (width + layout.columns - 1) as nat / layout.columns;
        assert(groups * layout.bytes <= 4 * width) by (nonlinear_arith)
            requires
                1 <= layout.columns <= 2,
                1 <= layout.bytes <= 4,
                groups == (width + layout.columns - 1) as nat / layout.columns,
        {
            if layout.columns == 1 {
                assert(groups == width);
            } else {
                assert(groups == (width + 1) as nat / 2);
                assert(groups <= width);
            }
        }
    }
}

/// What a lease says of its storage is what the storage says, and the borrow of
/// the storage is the storage itself.
pub proof fn lease_speaks_of_its_storage(lease: FrameLease)
    ensures
        match lease {
            FrameLease::Owned(shared) => {
                &&& lease@ == LeaseModel::Owned((*shared)@)
                &&& lease.spec_as_frame() == Some(&*shared)
                &&& lease.spec_as_arena_video() is None
                &&& lease.spec_as_hardware_video() is None
            },
            FrameLease::ArenaVideo(frame) => {
                &&& lease@ == LeaseModel::ArenaVideo(frame@)
                &&& lease.spec_as_frame() is None
                &&& lease.spec_as_arena_video() == Some(&frame)
                &&& lease.spec_as_hardware_video() is None
            },
            FrameLease::HardwareVideo(frame) => {
                &&& lease@ == LeaseModel::HardwareVideo(frame@)
                &&& lease.spec_as_frame() is None
                &&& lease.spec_as_arena_video() is None
                &&& lease.spec_as_hardware_video() == Some(&frame)
            },
        },
{
}

/// The timestamp of a lease is the one that its storage has, whatever it is.
pub proof fn lease_has_the_timestamp_of_its_storage(lease: LeaseModel)
    ensures
        match lease {
            LeaseModel::Owned(FrameModel::Video(video)) => lease.pts() == video.pts,
            LeaseModel::Owned(FrameModel::Audio(audio)) => lease.pts() == audio.pts,
            LeaseModel::ArenaVideo(frame) => lease.pts() == frame.header.presentation_timestamp,
            LeaseModel::HardwareVideo(frame) => lease.pts() == frame.pts,
        },
{
}

/// A lease is well-formed where each plane of an arena frame in it has its bytes
/// and no declared stride is the largest number there is.
pub proof fn lease_is_well_formed_by_its_planes(lease: LeaseModel)
    ensures
        lease.wf() <==> (lease matches LeaseModel::ArenaVideo(frame) ==> forall|i: int|
            0 <= i < frame.planes.len() ==> {
                &&& (#[trigger] frame.planes[i]).data is Some
                &&& frame.planes[i].stride != Some(usize::MAX)
            }),
{
}

/// A frame comes out of an arena lease with every plane: as many entries as the
/// arena frame has planes, in their order, each with all the bytes of its plane
/// and with the stride that was declared, or that of tightly packed rows where
/// none was; then the significant bits, where there are any, in an entry of their
/// own. Nothing comes out exactly where a plane has neither stride, and the error
/// names the first such plane.
pub proof fn arena_lease_gives_the_whole_picture(
    frame: ArenaFrameModel,
    outcome: Result<FrameModel, ErrorModel>,
)
    requires
        frame.wf(),
    ensures
        LeaseModel::ArenaVideo(frame).materializes_to(outcome) <==> match outcome {
            Ok(FrameModel::Video(video)) => {
                &&& video.pts == frame.header.presentation_timestamp
                &&& match frame.header.significant_bits {
                    Some(bits) => {
                        &&& video.planes.len() == frame.planes.len() + 1
                        &&& video.planes[frame.planes.len() as int].stride == usize::MAX
                        &&& video.planes[frame.planes.len() as int].data == bits
                    },
                    None => video.planes.len() == frame.planes.len(),
                }
                &&& forall|i: int|
                    #![trigger frame.planes[i]]
                    #![trigger video.planes[i]]
                    0 <= i < frame.planes.len() ==> {
                        &&& frame.planes[i].data == Some(video.planes[i].data)
                        &&& match frame.planes[i].stride {
                            Some(stride) => video.planes[i].stride == stride,
                            None => frame.header.pixel_format.row_bytes(
                                i as nat,
                                frame.header.width,
                            ) == Some(video.planes[i].stride as nat),
                        }
                    }
            },
            Ok(FrameModel::Audio(_)) => false,
            Err(error) => exists|i: int|
                #![trigger frame.planes[i]]
                {
                    &&& 0 <= i < frame.planes.len()
                    &&& frame.planes[i].stride is None
                    &&& frame.header.pixel_format.row_bytes(i as nat, frame.header.width) is None
                    &&& forall|j: int|
                        #![trigger frame.planes[j]]
                        0 <= j < i ==> frame.planes[j].stride is Some
                            || frame.header.pixel_format.row_bytes(
                            j as nat,
                            frame.header.width,
                        ) is Some
                    &&& error == ErrorModel::InvalidData(
                        "arena video frame has no stride for plane "@ + crate::text::decimal(
                            i as nat,
                        ) + " ("@ + frame.header.pixel_format.spec_name() + " "@
                            + crate::text::decimal(frame.header.width as nat) + "x"@
                            + crate::text::decimal(frame.header.height as nat) + ")"@,
                    )
                },
        },
{
    let lease = LeaseModel::ArenaVideo(frame);
    let plain = VideoModel {
        pts: frame.header.presentation_timestamp,
        planes: frame.copied_planes(),
    };
    let n = frame.planes.len() as int;
    assert forall|i: int| #![trigger frame.plane_outcome(i)] 0 <= i < n implies {
        &&& frame.plane_outcome(i) is Ok <==> frame.planes[i].stride is Some
            || frame.header.pixel_format.row_bytes(i as nat, frame.header.width) is Some
        &&& frame.plane_outcome(i) is Ok ==> !frame.plane_outcome(i)->Ok_0.carries_bits()
    } by {
        assert(frame.planes[i].data is Some);
    }
    match outcome {
        Ok(FrameModel::Video(video)) => {
            if lease.materializes_to(outcome) {
                arena_copy_is_faithful(frame, video);
                assert forall|i: int|
                    #![trigger frame.planes[i]]
                    #![trigger video.planes[i]]
                    0 <= i < n implies {
                    &&& frame.planes[i].data == Some(video.planes[i].data)
                    &&& match frame.planes[i].stride {
                        Some(stride) => video.planes[i].stride == stride,
                        None => frame.header.pixel_format.row_bytes(i as nat, frame.header.width)
                            == Some(video.planes[i].stride as nat),
                    }
                } by {
                    assert(video.picture_planes()[i] == video.planes[i]);
                }
                assert(forall|i: int|
                    0 <= i < n ==> !(#[trigger] frame.copied_planes()[i]).carries_bits());
                assert(!plain.has_bits_entry());
            } else if {
                &&& video.pts == frame.header.presentation_timestamp
                &&& match frame.header.significant_bits {
                    Some(bits) => {
                        &&& video.planes.len() == n + 1
                        &&& video.planes[n].stride == usize::MAX
                        &&& video.planes[n].data == bits
                    },
                    None => video.planes.len() == n,
                }
                &&& forall|i: int|
                    #![trigger frame.planes[i]]
                    #![trigger video.planes[i]]
                    0 <= i < n ==> {
                        &&& frame.planes[i].data == Some(video.planes[i].data)
                        &&& match frame.planes[i].stride {
                            Some(stride) => video.planes[i].stride == stride,
                            None => frame.header.pixel_format.row_bytes(
                                i as nat,
                                frame.header.width,
                            ) == Some(video.planes[i].stride as nat),
                        }
                    }
            } {
                assert forall|i: int| 0 <= i < n implies (#[trigger] frame.plane_outcome(i)) == Ok::<
                    PlaneModel,
                    ErrorModel,
                >(video.planes[i]) by {
                    assert(frame.planes[i].data == Some(video.planes[i].data));
                }
                assert(!plain.has_bits_entry());
                assert(video.planes =~= frame.copied_video().planes);
                assert(false);
            }
        },
        Ok(FrameModel::Audio(_)) => {},
        Err(error) => {
            if lease.materializes_to(outcome) {
                let i = choose|i: int| #[trigger]
                    frame.first_failure(i) && frame.plane_outcome(i)->Err_0 == error;
                assert(frame.planes[i].data is Some);
                assert forall|j: int| #![trigger frame.planes[j]] 0 <= j < i implies
                    frame.planes[j].stride is Some || frame.header.pixel_format.row_bytes(
                    j as nat,
                    frame.header.width,
                ) is Some by {
                    assert(frame.plane_outcome(j) is Ok);
                }
            }
            assert forall|i: int|
                #![trigger frame.planes[i]]
                {
                    &&& 0 <= i < n
                    &&& frame.planes[i].stride is None
                    &&& frame.header.pixel_format.row_bytes(i as nat, frame.header.width) is None
                    &&& forall|j: int|
                        #![trigger frame.planes[j]]
                        0 <= j < i ==> frame.planes[j].stride is Some
                            || frame.header.pixel_format.row_bytes(
                            j as nat,
                            frame.header.width,
                        ) is Some
                } implies frame.first_failure(i) && frame.plane_outcome(i) == Err::<
                PlaneModel,
                ErrorModel,
            >(ErrorModel::InvalidData(crate::lease::no_stride_message(frame.header, i as nat))) by {
                assert(frame.plane_outcome(i) is Err);
                assert forall|j: int| 0 <= j < i implies (#[trigger] frame.plane_outcome(
                    j,
                )) is Ok by {
                    assert(frame.planes[j].data is Some);
                }
            }
        },
    }
}

/// A lease on an arena frame gives what copying the frame gives, no more and no
/// less.
pub proof fn arena_lease_gives_the_copy(
    frame: ArenaFrameModel,
    copy: Result<VideoModel, ErrorModel>,
)
    ensures
        frame.copies_to(copy) <==> LeaseModel::ArenaVideo(frame).materializes_to(
            match copy {
                Ok(video) => Ok(FrameModel::Video(video)),
                Err(error) => Err(error),
            },
        ),
{
}

/// A lease on a hardware frame gives a picture as it was read back, and the error
/// of a readback that failed, and it can give each of them.
pub proof fn hardware_lease_gives_a_readback(
    frame: HardwareModel,
    outcome: Result<FrameModel, ErrorModel>,
)
    ensures
        LeaseModel::HardwareVideo(frame).materializes_to(outcome) <==> exists|
            readback: Result<VideoModel, ErrorModel>,
        | #[trigger]
            frame.readbacks.contains(readback) && match readback {
                Ok(video) => outcome == Ok::<FrameModel, ErrorModel>(FrameModel::Video(video)),
                Err(error) => outcome == Err::<FrameModel, ErrorModel>(error),
            },
{
    match outcome {
        Ok(FrameModel::Video(video)) => {
            let readback: Result<VideoModel, ErrorModel> = Ok(video);
            assert(frame.readbacks.contains(readback) == LeaseModel::HardwareVideo(
                frame,
            ).materializes_to(outcome));
        },
        Ok(FrameModel::Audio(_)) => {},
        Err(error) => {
            let readback: Result<VideoModel, ErrorModel> = Err(error);
            assert(frame.readbacks.contains(readback) == LeaseModel::HardwareVideo(
                frame,
            ).materializes_to(outcome));
        },
    }
}

/// Where a hardware frame can be read back in one way only, its lease gives that
/// picture, whole, or that error.
pub proof fn only_readback_is_what_the_lease_gives(
    frame: HardwareModel,
    readback: Result<VideoModel, ErrorModel>,
    outcome: Result<FrameModel, ErrorModel>,
)
    requires
        forall|other: Result<VideoModel, ErrorModel>| #[trigger]
            frame.readbacks.contains(other) <==> other == readback,
        LeaseModel::HardwareVideo(frame).materializes_to(outcome),
    ensures
        match readback {
            Ok(video) => outcome == Ok::<FrameModel, ErrorModel>(FrameModel::Video(video)),
            Err(error) => outcome == Err::<FrameModel, ErrorModel>(error),
        },
{
    hardware_lease_gives_a_readback(frame, outcome);
}

/// One plane is copied with its bytes and with the stride that was declared, or
/// else that of tightly packed rows. It cannot be copied where the bytes are not
/// there, nor where there is no stride.
pub proof fn plane_is_copied_whole(
    header: HeaderModel,
    index: nat,
    data: Option<Seq<u8>>,
    declared: Option<usize>,
)
    ensures
        match crate::lease::plane_outcome(header, index, data, declared) {
            Ok(plane) => {
                &&& data == Some(plane.data)
                &&& match declared {
                    Some(stride) => plane.stride == stride,
                    None => header.pixel_format.row_bytes(index, header.width) == Some(
                        plane.stride as nat,
                    ),
                }
            },
            Err(error) => if data is None {
                error == ErrorModel::InvalidData(
                    "arena video frame is missing plane "@ + crate::text::decimal(index),
                )
            } else {
                &&& declared is None
                &&& header.pixel_format.row_bytes(index, header.width) is None
                &&& error == ErrorModel::InvalidData(
                    "arena video frame has no stride for plane "@ + crate::text::decimal(index)
                        + " ("@ + header.pixel_format.spec_name() + " "@ + crate::text::decimal(
                        header.width as nat,
                    ) + "x"@ + crate::text::decimal(header.height as nat) + ")"@,
                )
            },
        },
{
}

/// The text of a lease names the storage and shows what is in it.
pub proof fn lease_text_shows_its_storage(lease: LeaseModel, quoted_backend: Seq<char>)
    ensures
        match lease {
            LeaseModel::Owned(frame) => {
                &&& lease.debug_text(quoted_backend) == "FrameLease::Owned("@ + frame.debug_text()
                    + ")"@
                &&& lease.quoted_backend() == ""@
            },
            LeaseModel::ArenaVideo(frame) => {
                &&& lease.debug_text(quoted_backend) == "FrameLease::ArenaVideo { header: "@
                    + frame.header.debug_text() + ", planes: "@ + crate::text::decimal(
                    frame.planes.len(),
                ) + " }"@
                &&& lease.quoted_backend() == ""@
            },
            LeaseModel::HardwareVideo(frame) => {
                &&& lease.debug_text(quoted_backend) == "FrameLease::HardwareVideo("@
                    + frame.debug_text(quoted_backend) + ")"@
                &&& lease.quoted_backend() == crate::hardware::quoted(frame.backend)
            },
        },
{
}

/// The text of a hardware frame shows its backend, its size, its format and its
/// timestamp.
pub proof fn hardware_text_shows_the_frame(frame: HardwareModel, quoted_backend: Seq<char>)
    ensures
        frame.debug_text(quoted_backend) == "HardwareVideoFrame { backend: "@ + quoted_backend
            + ", width: "@ + crate::text::decimal(frame.width as nat) + ", height: "@
            + crate::text::decimal(frame.height as nat) + ", pixel_format: "@
            + frame.pixel_format.spec_name() + ", pts: "@ + crate::text::optional_timestamp(
            frame.pts,
        ) + ", .. }"@,
{
}

/// Significant bits that are recorded are read back, take the place of earlier
/// ones, and leave the timestamp and the planes of the picture alone.
pub proof fn significant_bits_are_read_back(video: VideoModel, first: Seq<u8>, second: Seq<u8>)
    ensures
        video.with_significant_bits(first).significant_bits() == Some(first),
        video.with_significant_bits(first).picture_planes() == video.picture_planes(),
        video.with_significant_bits(first).pts == video.pts,
        video.with_significant_bits(first).with_significant_bits(second)
            == video.with_significant_bits(second),
{
    let once = video.with_significant_bits(first);
    assert(once.planes.drop_last() =~= video.picture_planes());
}

} // verus!
