//! Owned, cheaply retainable decoded-frame storage.

use std::sync::Arc;

use vstd::prelude::*;
use vstd::slice::slice_to_vec;

use crate::arena;
use crate::arena::sync::{ArenaFrameModel, FrameHeader, HeaderModel};
use crate::error::{Error, ErrorModel};
use crate::frame::{Frame, FrameModel, PlaneModel, VideoFrame, VideoModel, VideoPlane};
use crate::hardware::{quoted_text, HardwareModel, HardwareVideoFrame};
use crate::text::decimal_text;

verus! {

/// Owned, cheaply retainable decoded-frame storage.
///
/// This is the preferred currency between a decoder and an asynchronous player
/// sink. The variants cover both CPU and GPU storage under one lifetime rule:
///
/// - [`Self::Owned`] retains an ordinary heap-backed [`Frame`] behind an
///   [`Arc`], avoiding deep clones as it crosses queues.
/// - [`Self::ArenaVideo`] retains a reusable CPU arena allocation; the backing
///   buffer returns to its [`arena::sync::ArenaPool`] after the last clone is
///   dropped.
/// - [`Self::HardwareVideo`] retains an opaque decoder surface; its backend
///   decides how the resource is recycled after the final lease disappears.
#[non_exhaustive]
pub enum FrameLease {
    /// Heap-backed frame retained behind an atomic reference count.
    Owned(Arc<Frame>),
    /// Pooled CPU video frame retained directly from a sync arena.
    ArenaVideo(arena::sync::Frame),
    /// Opaque hardware-resident video frame.
    HardwareVideo(HardwareVideoFrame),
}

/// What a [`FrameLease`] retains, as a mathematical value.
#[verifier::ext_equal]
pub enum LeaseModel {
    Owned(FrameModel),
    ArenaVideo(ArenaFrameModel),
    HardwareVideo(HardwareModel),
}

impl View for FrameLease {
    type V = LeaseModel;

    open spec fn view(&self) -> LeaseModel {
        match *self {
            FrameLease::Owned(frame) => LeaseModel::Owned(frame@),
            FrameLease::ArenaVideo(frame) => LeaseModel::ArenaVideo(frame@),
            FrameLease::HardwareVideo(frame) => LeaseModel::HardwareVideo(frame@),
        }
    }
}

/// The message for a plane whose bytes are not there.
pub open spec fn missing_plane_message(index: nat) -> Seq<char> {
    "arena video frame is missing plane "@ + crate::text::decimal(index)
}

/// The message for a plane of which nothing gives the stride.
pub open spec fn no_stride_message(header: HeaderModel, index: nat) -> Seq<char> {
    "arena video frame has no stride for plane "@ + crate::text::decimal(index) + " ("@
        + header.pixel_format.spec_name() + " "@ + crate::text::decimal(header.width as nat) + "x"@
        + crate::text::decimal(header.height as nat) + ")"@
}

/// The stride of a plane: the declared one, else that of tightly packed rows.
pub open spec fn effective_stride(
    header: HeaderModel,
    index: nat,
    declared: Option<usize>,
) -> Option<usize> {
    match declared {
        Some(stride) => Some(stride),
        None => match header.pixel_format.row_bytes(index, header.width) {
            Some(bytes) => Some(bytes as usize),
            None => None,
        },
    }
}

/// What copying one plane of an arena frame comes to.
pub open spec fn plane_outcome(
    header: HeaderModel,
    index: nat,
    data: Option<Seq<u8>>,
    declared: Option<usize>,
) -> Result<PlaneModel, ErrorModel> {
    match (data, effective_stride(header, index, declared)) {
        (None, _) => Err(ErrorModel::InvalidData(missing_plane_message(index))),
        (Some(_), None) => Err(ErrorModel::InvalidData(no_stride_message(header, index))),
        (Some(bytes), Some(stride)) => Ok(PlaneModel { stride, data: bytes }),
    }
}

impl ArenaFrameModel {
    /// What copying the plane at `index` comes to.
    pub open spec fn plane_outcome(self, index: int) -> Result<PlaneModel, ErrorModel> {
        plane_outcome(
            self.header,
            index as nat,
            self.plane(index),
            self.plane_stride(index),
        )
    }

    /// Whether the plane at `index` is the first that cannot be copied.
    pub open spec fn first_failure(self, index: int) -> bool {
        &&& 0 <= index < self.planes.len()
        &&& self.plane_outcome(index) is Err
        &&& forall|j: int| 0 <= j < index ==> (#[trigger] self.plane_outcome(j)) is Ok
    }

    /// The copied planes, where all of them can be copied.
    pub open spec fn copied_planes(self) -> Seq<PlaneModel> {
        Seq::new(self.planes.len(), |i: int| self.plane_outcome(i)->Ok_0)
    }

    /// The copied picture, where all planes can be copied.
    pub open spec fn copied_video(self) -> VideoModel {
        let video = VideoModel {
            pts: self.header.presentation_timestamp,
            planes: self.copied_planes(),
        };
        match self.header.significant_bits {
            Some(bits) => video.with_significant_bits(bits),
            None => video,
        }
    }

    /// Whether copying the picture comes to `outcome`: the copy, or the error of
    /// the first plane that cannot be copied.
    pub open spec fn copies_to(self, outcome: Result<VideoModel, ErrorModel>) -> bool {
        match outcome {
            Ok(video) => {
                &&& forall|i: int|
                    0 <= i < self.planes.len() ==> (#[trigger] self.plane_outcome(i)) is Ok
                &&& video == self.copied_video()
            },
            Err(error) => exists|i: int| #[trigger]
                self.first_failure(i) && self.plane_outcome(i)->Err_0 == error,
        }
    }
}

/// The outcome of copying a picture, as that of obtaining a frame.
pub open spec fn as_frame_outcome(video: Result<VideoModel, ErrorModel>) -> Result<
    FrameModel,
    ErrorModel,
> {
    match video {
        Ok(v) => Ok(FrameModel::Video(v)),
        Err(error) => Err(error),
    }
}

/// The outcome of obtaining a frame, as a mathematical value.
pub open spec fn frame_outcome(frame: Result<Frame, Error>) -> Result<FrameModel, ErrorModel> {
    match frame {
        Ok(f) => Ok(f@),
        Err(error) => Err(error@),
    }
}

impl LeaseModel {
    /// What every lease satisfies: an arena frame in it is well-formed.
    pub open spec fn wf(self) -> bool {
        self matches LeaseModel::ArenaVideo(frame) ==> frame.wf()
    }

    /// The presentation timestamp, where there is one.
    pub open spec fn pts(self) -> Option<i64> {
        match self {
            LeaseModel::Owned(frame) => frame.pts(),
            LeaseModel::ArenaVideo(frame) => frame.header.presentation_timestamp,
            LeaseModel::HardwareVideo(frame) => frame.pts,
        }
    }

    /// Whether obtaining a heap-backed frame from the lease may come to
    /// `outcome`: for a heap-backed frame that frame itself, for an arena frame
    /// what copying it comes to, for a hardware frame what reading it back may
    /// come to.
    pub open spec fn materializes_to(self, outcome: Result<FrameModel, ErrorModel>) -> bool {
        match self {
            LeaseModel::Owned(frame) => outcome == Ok::<FrameModel, ErrorModel>(frame),
            LeaseModel::ArenaVideo(frame) => match outcome {
                Ok(FrameModel::Video(video)) => frame.copies_to(Ok(video)),
                Ok(FrameModel::Audio(_)) => false,
                Err(error) => frame.copies_to(Err(error)),
            },
            LeaseModel::HardwareVideo(frame) => match outcome {
                Ok(FrameModel::Video(video)) => frame.readbacks.contains(Ok(video)),
                Ok(FrameModel::Audio(_)) => false,
                Err(error) => frame.readbacks.contains(Err(error)),
            },
        }
    }

    /// The backend name of a hardware frame, in quotes; of the others nothing.
    pub open spec fn quoted_backend(self) -> Seq<char> {
        match self {
            LeaseModel::HardwareVideo(frame) => crate::hardware::quoted(frame.backend),
            _ => ""@,
        }
    }

    /// The lease as text. `quoted_backend` is the quoted backend name of a
    /// hardware frame.
    pub open spec fn debug_text(self, quoted_backend: Seq<char>) -> Seq<char> {
        match self {
            LeaseModel::Owned(frame) => "FrameLease::Owned("@ + frame.debug_text() + ")"@,
            LeaseModel::ArenaVideo(frame) => "FrameLease::ArenaVideo { header: "@
                + frame.header.debug_text() + ", planes: "@ + crate::text::decimal(
                frame.planes.len(),
            ) + " }"@,
            LeaseModel::HardwareVideo(frame) => "FrameLease::HardwareVideo("@ + frame.debug_text(
                quoted_backend,
            ) + ")"@,
        }
    }
}

/// `std::sync::Arc::try_unwrap`: the frame itself where this was its only owner,
/// else the same shared frame. Which of the two depends on the reference count,
/// of which nothing is claimed.
#[verifier::external_body]
fn unwrap_unique(shared: Arc<Frame>) -> (frame: Result<Frame, Arc<Frame>>)
    ensures
        match frame {
            Ok(unique) => unique == *shared,
            Err(still_shared) => still_shared == shared,
        },
{
    Arc::try_unwrap(shared)
}

/// What `unwrap` makes of a shared frame.
fn unwrapped<F: Fn(Arc<Frame>) -> Result<Frame, Arc<Frame>>>(unwrap: F, shared: Arc<Frame>) -> (
frame: Result<Frame, Arc<Frame>>)
    requires
        unwrap.requires((shared,)),
    ensures
        unwrap.ensures((shared,), frame),
{
    unwrap(shared)
}

/// Whether a frame may have owners besides the one that wants to unwrap it.
pub closed spec fn may_be_shared(shared: Arc<Frame>) -> bool {
    call_ensures(unwrap_unique, (shared,), Err::<Frame, Arc<Frame>>(shared))
}

/// Whether a frame may have more owners is a matter of whether unwrapping it can
/// give it back shared.
proof fn unwrapping_decides_on_sharing(shared: Arc<Frame>)
    ensures
        may_be_shared(shared) <==> call_ensures(
            unwrap_unique,
            (shared,),
            Err::<Frame, Arc<Frame>>(shared),
        ),
{
}

/// The frame itself where it could be taken out of its sharing, else a copy of the
/// shared frame.
pub fn move_or_copy(taken: Result<Frame, Arc<Frame>>) -> (frame: Frame)
    ensures
        match taken {
            Ok(unique) => frame == unique,
            Err(shared) => frame@ == shared@,
        },
{
    match taken {
        Ok(unique) => unique,
        Err(shared) => (*shared).clone(),
    }
}

/// Copy one plane of an arena frame, given what the frame says of its bytes and
/// its stride.
pub fn materialize_plane(
    header: &FrameHeader,
    index: usize,
    data: Option<&[u8]>,
    declared: Option<usize>,
) -> (plane: Result<VideoPlane, Error>)
    ensures
        match plane {
            Ok(p) => Ok::<PlaneModel, ErrorModel>(p@),
            Err(error) => Err(error@),
        } == plane_outcome(
            header@,
            index as nat,
            match data {
                Some(bytes) => Some(bytes@),
                None => None,
            },
            declared,
        ),
{
    let bytes = match data {
        Some(bytes) => bytes,
        None => {
            let mut message = "arena video frame is missing plane ".to_owned();
            message.append(decimal_text(index as u64).as_str());
            return Err(Error::invalid(message));
        },
    };
    let stride = match declared {
        Some(stride) => Some(stride),
        None => header.pixel_format.plane_row_bytes(index, header.width),
    };
    match stride {
        Some(stride) => Ok(VideoPlane { stride, data: slice_to_vec(bytes) }),
        None => {
            let mut message = "arena video frame has no stride for plane ".to_owned();
            message.append(decimal_text(index as u64).as_str());
            message.append(" (");
            message.append(header.pixel_format.name());
            message.append(" ");
            message.append(decimal_text(header.width as u64).as_str());
            message.append("x");
            message.append(decimal_text(header.height as u64).as_str());
            message.append(")");
            Err(Error::invalid(message))
        },
    }
}

/// Copy an arena frame to the heap, with its strides, its timestamp and its
/// significant bits.
pub fn materialize_arena_video(frame: &arena::sync::Frame) -> (video: Result<VideoFrame, Error>)
    ensures
        frame@.wf(),
        frame@.copies_to(crate::hardware::video_outcome(video)),
{
    let header = frame.header();
    let count = frame.plane_count();
    let mut planes: Vec<VideoPlane> = Vec::with_capacity(count);
    let mut index: usize = 0;
    while index < count
        invariant
            index <= count,
            count == frame@.planes.len(),
            header@ == frame@.header,
            frame@.wf(),
            planes.len() == index,
            forall|j: int|
                0 <= j < index ==> (#[trigger] frame@.plane_outcome(j)) == Ok::<
                    PlaneModel,
                    ErrorModel,
                >(planes@[j]@),
        decreases count - index,
    {
        let data = frame.plane(index);
        let declared = frame.plane_stride(index);
        match materialize_plane(header, index, data, declared) {
            Ok(plane) => {
                planes.push(plane);
            },
            Err(error) => {
                assert(frame@.first_failure(index as int));
                return Err(error);
            },
        }
        index += 1;
    }
    let mut video = VideoFrame { pts: header.presentation_timestamp, planes };
    assert(video@.planes =~= frame@.copied_planes());
    match header.significant_bits() {
        Some(bits) => {
            video.set_significant_bits(slice_to_vec(bits));
        },
        None => {},
    }
    Ok(video)
}

/// The frame that holds a materialized picture, or the error that came instead.
pub fn wrap_video(video: Result<VideoFrame, Error>) -> (frame: Result<Frame, Error>)
    ensures
        frame_outcome(frame) == as_frame_outcome(crate::hardware::video_outcome(video)),
{
    match video {
        Ok(video) => Ok(Frame::Video(video)),
        Err(error) => Err(error),
    }
}

impl Clone for FrameLease {
    fn clone(&self) -> (other: Self)
        ensures
            other == *self,
            other@ == self@,
    {
        match self {
            FrameLease::Owned(frame) => FrameLease::Owned(frame.clone()),
            FrameLease::ArenaVideo(frame) => FrameLease::ArenaVideo(frame.clone()),
            FrameLease::HardwareVideo(frame) => FrameLease::HardwareVideo(frame.clone()),
        }
    }
}

impl FrameLease {
    /// The retained heap-backed frame, where the lease retains one.
    pub open spec fn spec_as_frame(&self) -> Option<&Frame> {
        match *self {
            FrameLease::Owned(shared) => Some(&*shared),
            _ => None,
        }
    }

    /// The retained arena frame, where the lease retains one.
    pub open spec fn spec_as_arena_video(&self) -> Option<&arena::sync::Frame> {
        match *self {
            FrameLease::ArenaVideo(video) => Some(&video),
            _ => None,
        }
    }

    /// The retained hardware frame, where the lease retains one.
    pub open spec fn spec_as_hardware_video(&self) -> Option<&HardwareVideoFrame> {
        match *self {
            FrameLease::HardwareVideo(video) => Some(&video),
            _ => None,
        }
    }

    /// Wrap a heap-backed frame without copying its media buffers.
    pub fn from_frame(frame: Frame) -> (lease: Self)
        ensures
            lease matches FrameLease::Owned(shared) && *shared == frame,
            lease@ == LeaseModel::Owned(frame@),
    {
        FrameLease::Owned(Arc::new(frame))
    }

    /// Wrap an arena-backed CPU video frame.
    pub fn from_arena_video(frame: arena::sync::Frame) -> (lease: Self)
        ensures
            lease == FrameLease::ArenaVideo(frame),
            lease@ == LeaseModel::ArenaVideo(frame@),
    {
        FrameLease::ArenaVideo(frame)
    }

    /// Wrap an opaque hardware video frame.
    pub fn from_hardware_video(frame: HardwareVideoFrame) -> (lease: Self)
        ensures
            lease == FrameLease::HardwareVideo(frame),
            lease@ == LeaseModel::HardwareVideo(frame@),
    {
        FrameLease::HardwareVideo(frame)
    }

    /// Presentation timestamp in stream time-base units, when available.
    pub fn pts(&self) -> (pts: Option<i64>)
        ensures
            pts == self@.pts(),
            self@.wf(),
            match *self {
                FrameLease::Owned(shared) => match *shared {
                    Frame::Video(video) => pts == video.pts,
                    Frame::Audio(audio) => pts == audio.pts,
                },
                FrameLease::ArenaVideo(frame) => pts == frame@.header.presentation_timestamp,
                FrameLease::HardwareVideo(frame) => pts == frame@.pts,
            },
    {
        match self {
            FrameLease::Owned(frame) => frame.pts(),
            FrameLease::ArenaVideo(frame) => frame.header().presentation_timestamp,
            FrameLease::HardwareVideo(frame) => frame.pts(),
        }
    }

    /// Borrow the heap-backed frame when this lease already retains one.
    pub fn as_frame(&self) -> (frame: Option<&Frame>)
        ensures
            frame == self.spec_as_frame(),
            match *self {
                FrameLease::Owned(shared) => frame == Some(&*shared),
                _ => frame is None,
            },
    {
        match self {
            FrameLease::Owned(frame) => Some(&**frame),
            _ => None,
        }
    }

    /// Borrow the arena-backed video frame when present.
    pub fn as_arena_video(&self) -> (frame: Option<&arena::sync::Frame>)
        ensures
            frame == self.spec_as_arena_video(),
            match *self {
                FrameLease::ArenaVideo(video) => frame == Some(&video),
                _ => frame is None,
            },
    {
        match self {
            FrameLease::ArenaVideo(frame) => Some(frame),
            _ => None,
        }
    }

    /// Borrow the opaque hardware video frame when present.
    pub fn as_hardware_video(&self) -> (frame: Option<&HardwareVideoFrame>)
        ensures
            frame == self.spec_as_hardware_video(),
            match *self {
                FrameLease::HardwareVideo(video) => frame == Some(&video),
                _ => frame is None,
            },
    {
        match self {
            FrameLease::HardwareVideo(frame) => Some(frame),
            _ => None,
        }
    }

    /// Return `true` when the decoded video is still hardware-resident.
    pub fn is_hardware_video(&self) -> (yes: bool)
        ensures
            yes == (self@ is HardwareVideo),
            yes == (*self is HardwareVideo),
    {
        matches!(self, FrameLease::HardwareVideo(_))
    }

    /// Obtain a heap-backed frame of its own, a copy of what the lease retains.
    /// [`Self::as_frame`] borrows a frame that is heap-backed already.
    pub fn materialize(&self) -> (frame: Result<Frame, Error>)
        ensures
            self@.wf(),
            self@.materializes_to(frame_outcome(frame)),
            match *self {
                FrameLease::Owned(shared) => frame matches Ok(f) && f@ == (*shared)@,
                FrameLease::ArenaVideo(arena) => frame matches Ok(f) ==> f is Video,
                FrameLease::HardwareVideo(hardware) => match frame {
                    Ok(Frame::Video(video)) => hardware@.readbacks.contains(Ok(video@)),
                    Ok(Frame::Audio(_)) => false,
                    Err(error) => hardware@.readbacks.contains(Err(error@)),
                },
            },
    {
        match self {
            FrameLease::Owned(frame) => Ok((**frame).clone()),
            FrameLease::ArenaVideo(frame) => wrap_video(materialize_arena_video(frame)),
            FrameLease::HardwareVideo(frame) => wrap_video(frame.materialize()),
        }
    }

    /// Consume the lease and obtain a heap-backed frame.
    ///
    /// A uniquely-owned [`Self::Owned`] frame is moved out of its [`Arc`] with
    /// no media-buffer copy. Shared owned frames, arena frames, and hardware
    /// frames materialize as needed.
    pub fn into_frame(self) -> (frame: Result<Frame, Error>)
        ensures
            self@.wf(),
            self@.materializes_to(frame_outcome(frame)),
            match self {
                FrameLease::Owned(shared) => {
                    &&& frame matches Ok(f) && f@ == (*shared)@
                    &&& frame == Ok::<Frame, Error>(*shared) || may_be_shared(shared)
                },
                FrameLease::ArenaVideo(arena) => frame matches Ok(f) ==> f is Video,
                FrameLease::HardwareVideo(hardware) => match frame {
                    Ok(Frame::Video(video)) => hardware@.readbacks.contains(Ok(video@)),
                    Ok(Frame::Audio(_)) => false,
                    Err(error) => hardware@.readbacks.contains(Err(error@)),
                },
            },
    {
        match self {
            FrameLease::Owned(frame) => Ok(move_or_copy(unwrapped(unwrap_unique, frame))),
            FrameLease::ArenaVideo(frame) => wrap_video(materialize_arena_video(&frame)),
            FrameLease::HardwareVideo(frame) => wrap_video(frame.materialize()),
        }
    }

    /// The lease as text.
    pub fn debug_string(&self) -> (text: String)
        ensures
            text@ == self@.debug_text(self@.quoted_backend()),
    {
        match self {
            FrameLease::HardwareVideo(frame) => {
                let quoted_backend = quoted_text(frame.backend());
                self.debug_string_with(quoted_backend.as_str())
            },
            _ => self.debug_string_with(""),
        }
    }

    /// The lease as text, with the backend name of a hardware frame already
    /// quoted.
    pub fn debug_string_with(&self, quoted_backend: &str) -> (text: String)
        ensures
            text@ == self@.debug_text(quoted_backend@),
    {
        match self {
            FrameLease::Owned(frame) => {
                let mut text = "FrameLease::Owned(".to_owned();
                text.append(frame.debug_string().as_str());
                text.append(")");
                text
            },
            FrameLease::ArenaVideo(frame) => {
                let mut text = "FrameLease::ArenaVideo { header: ".to_owned();
                text.append(frame.header().debug_string().as_str());
                text.append(", planes: ");
                text.append(decimal_text(frame.plane_count() as u64).as_str());
                text.append(" }");
                text
            },
            FrameLease::HardwareVideo(frame) => {
                let mut text = "FrameLease::HardwareVideo(".to_owned();
                text.append(frame.debug_string_with(quoted_backend).as_str());
                text.append(")");
                text
            },
        }
    }
}

impl From<Frame> for FrameLease {
    fn from(value: Frame) -> (lease: Self)
        ensures
            lease matches FrameLease::Owned(shared) && *shared == value,
    {
        FrameLease::from_frame(value)
    }
}

impl vstd::std_specs::convert::FromSpecImpl<Frame> for FrameLease {
    open spec fn obeys_from_spec() -> bool {
        true
    }

    open spec fn from_spec(value: Frame) -> Self {
        FrameLease::Owned(Arc::new(value))
    }
}

impl From<arena::sync::Frame> for FrameLease {
    fn from(value: arena::sync::Frame) -> (lease: Self)
        ensures
            lease == FrameLease::ArenaVideo(value),
    {
        FrameLease::from_arena_video(value)
    }
}

impl vstd::std_specs::convert::FromSpecImpl<arena::sync::Frame> for FrameLease {
    open spec fn obeys_from_spec() -> bool {
        true
    }

    open spec fn from_spec(value: arena::sync::Frame) -> Self {
        FrameLease::ArenaVideo(value)
    }
}

impl From<HardwareVideoFrame> for FrameLease {
    fn from(value: HardwareVideoFrame) -> (lease: Self)
        ensures
            lease == FrameLease::HardwareVideo(value),
    {
        FrameLease::from_hardware_video(value)
    }
}

impl vstd::std_specs::convert::FromSpecImpl<HardwareVideoFrame> for FrameLease {
    open spec fn obeys_from_spec() -> bool {
        true
    }

    open spec fn from_spec(value: HardwareVideoFrame) -> Self {
        FrameLease::HardwareVideo(value)
    }
}

} // verus!
