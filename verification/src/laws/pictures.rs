//! What holds of pixel formats and of frames on the heap.

use vstd::prelude::*;

use crate::error::{Error, ErrorModel};
use crate::frame::{
    AudioFrame,
    AudioModel,
    Frame,
    FrameModel,
    PlaneModel,
    VideoFrame,
    VideoModel,
    VideoPlane,
};
use crate::pixel::PixelFormat;

verus! {

/// A row of a packed format takes its bytes for each pixel: one for gray, two for
/// deep gray, three for red, green and blue, four with alpha. There is one plane.
pub proof fn packed_rows_take_their_bytes_for_each_pixel(index: nat, width: u32)
    ensures
        ({
            let held = |bytes: nat|
                if index == 0 && bytes <= usize::MAX / 2 {
                    Some(bytes)
                } else {
                    None::<nat>
                };
            &&& PixelFormat::Gray8.row_bytes(index, width) == held(width as nat)
            &&& PixelFormat::Gray16Le.row_bytes(index, width) == held(2 * width as nat)
            &&& PixelFormat::Rgb24.row_bytes(index, width) == held(3 * width as nat)
            &&& PixelFormat::Rgba.row_bytes(index, width) == held(4 * width as nat)
        }),
{
    if index == 0 {
        lemma_row(PixelFormat::Gray8, 0, width, 1);
        lemma_row(PixelFormat::Gray16Le, 0, width, 2);
        lemma_row(PixelFormat::Rgb24, 0, width, 3);
        lemma_row(PixelFormat::Rgba, 0, width, 4);
    }
}

proof fn lemma_row(format: PixelFormat, index: nat, width: u32, bytes: nat)
    requires
        format.row_layout(index) matches Some(layout) && 1 <= layout.columns <= 2 && layout.bytes
            == bytes,
    ensures
        ({
            let groups = if format.row_layout(index)->0.columns == 1 {
                width as nat
            } else {
                (width as nat + 1) / 2
            };
            format.row_bytes(index, width) == if bytes * groups <= usize::MAX / 2 {
                Some(bytes * groups)
            } else {
                None
            }
        }),
{
    let layout = format.row_layout(index)->0;
    let groups = (width as nat + layout.columns - 1) as nat / layout.columns;
    if layout.columns == 1 {
        assert(groups == width) by (nonlinear_arith)
            requires
                layout.columns == 1,
                groups == (width as nat + layout.columns - 1) as nat / layout.columns,
        ;
    } else {
        assert(groups == (width as nat + 1) / 2);
    }
    assert(groups * layout.bytes == bytes * groups) by (nonlinear_arith)
        requires
            layout.bytes == bytes,
    ;
}

/// A luma row takes one byte for each pixel. A chroma row takes one byte for each
/// pixel where chroma has full size, and one for every two, rounded up, where it
/// is halved; two chroma planes in one have two for every two.
pub proof fn planar_rows_halve_their_chroma(index: nat, width: u32)
    ensures
        ({
            let held = |bytes: nat|
                if bytes <= usize::MAX / 2 {
                    Some(bytes)
                } else {
                    None::<nat>
                };
            let half = (width as nat + 1) / 2;
            &&& 2 * half == width || 2 * half == width + 1
            &&& PixelFormat::Yuv420P.row_bytes(0, width) == held(width as nat)
            &&& PixelFormat::Yuv422P.row_bytes(0, width) == held(width as nat)
            &&& PixelFormat::Yuv444P.row_bytes(0, width) == held(width as nat)
            &&& PixelFormat::Nv12.row_bytes(0, width) == held(width as nat)
            &&& 1 <= index <= 2 ==> {
                &&& PixelFormat::Yuv420P.row_bytes(index, width) == held(half)
                &&& PixelFormat::Yuv422P.row_bytes(index, width) == held(half)
                &&& PixelFormat::Yuv444P.row_bytes(index, width) == held(width as nat)
            }
            &&& index > 2 ==> {
                &&& PixelFormat::Yuv420P.row_bytes(index, width) is None
                &&& PixelFormat::Yuv422P.row_bytes(index, width) is None
                &&& PixelFormat::Yuv444P.row_bytes(index, width) is None
            }
            &&& PixelFormat::Nv12.row_bytes(1, width) == held(2 * half)
            &&& index > 1 ==> PixelFormat::Nv12.row_bytes(index, width) is None
        }),
{
    lemma_row(PixelFormat::Yuv420P, 0, width, 1);
    lemma_row(PixelFormat::Yuv422P, 0, width, 1);
    lemma_row(PixelFormat::Yuv444P, 0, width, 1);
    lemma_row(PixelFormat::Nv12, 0, width, 1);
    lemma_row(PixelFormat::Nv12, 1, width, 2);
    if 1 <= index <= 2 {
        lemma_row(PixelFormat::Yuv420P, index, width, 1);
        lemma_row(PixelFormat::Yuv422P, index, width, 1);
        lemma_row(PixelFormat::Yuv444P, index, width, 1);
    }
}

/// A format has a row layout for each of its planes: one for a packed format, two
/// where both chroma components share a plane, else three.
pub proof fn formats_lay_out_their_planes(format: PixelFormat, index: nat)
    ensures
        format.row_layout(index) is Some <==> index < match format {
            PixelFormat::Gray8
            | PixelFormat::Gray16Le
            | PixelFormat::Rgb24
            | PixelFormat::Rgba => 1nat,
            PixelFormat::Nv12 => 2nat,
            PixelFormat::Yuv420P | PixelFormat::Yuv422P | PixelFormat::Yuv444P => 3nat,
        },
{
}

/// The name of a format is the word that its variant is written with.
pub proof fn formats_have_their_names()
    ensures
        PixelFormat::Gray8.spec_name() == "Gray8"@,
        PixelFormat::Gray16Le.spec_name() == "Gray16Le"@,
        PixelFormat::Rgb24.spec_name() == "Rgb24"@,
        PixelFormat::Rgba.spec_name() == "Rgba"@,
        PixelFormat::Yuv420P.spec_name() == "Yuv420P"@,
        PixelFormat::Yuv422P.spec_name() == "Yuv422P"@,
        PixelFormat::Yuv444P.spec_name() == "Yuv444P"@,
        PixelFormat::Nv12.spec_name() == "Nv12"@,
{
}

/// The model of a plane has the stride and the bytes of the plane.
pub proof fn plane_model_is_the_plane(plane: VideoPlane)
    ensures
        plane@.stride == plane.stride,
        plane@.data == plane.data@,
{
}

/// The model of a picture has its timestamp and, one for one, its planes.
pub proof fn video_model_is_the_picture(video: VideoFrame)
    ensures
        video@.pts == video.pts,
        video@.planes.len() == video.planes@.len(),
        forall|i: int|
            0 <= i < video.planes@.len() ==> {
                &&& (#[trigger] video@.planes[i]).stride == video.planes@[i].stride
                &&& video@.planes[i].data == video.planes@[i].data@
            },
{
}

/// The model of a run of samples has its timestamp, its length and, one for one,
/// its sample bytes.
pub proof fn audio_model_is_the_samples(audio: AudioFrame)
    ensures
        audio@.pts == audio.pts,
        audio@.samples == audio.samples,
        audio@.data.len() == audio.data@.len(),
        forall|i: int|
            0 <= i < audio.data@.len() ==> (#[trigger] audio@.data[i]) == audio.data@[i]@,
{
}

/// The model of a frame is that of its picture or of its samples, and so is its
/// timestamp.
pub proof fn frame_model_is_that_of_its_media(frame: Frame)
    ensures
        match frame {
            Frame::Video(video) => frame@ == FrameModel::Video(video@) && frame@.pts()
                == video.pts,
            Frame::Audio(audio) => frame@ == FrameModel::Audio(audio@) && frame@.pts()
                == audio.pts,
        },
{
}

/// The model of an error has its cause and its message.
pub proof fn error_model_is_the_error(error: Error)
    ensures
        match error {
            Error::InvalidData(message) => error@ == ErrorModel::InvalidData(message@),
            Error::ResourceExhausted(message) => error@ == ErrorModel::ResourceExhausted(message@),
        },
{
}

/// An outcome succeeds where the result does, with the model of what came, and
/// fails where the result does, with the model of the error.
pub proof fn outcomes_are_those_of_the_results(
    video: Result<VideoFrame, Error>,
    frame: Result<Frame, Error>,
)
    ensures
        match video {
            Ok(v) => crate::hardware::video_outcome(video) == Ok::<VideoModel, ErrorModel>(v@),
            Err(error) => crate::hardware::video_outcome(video) == Err::<VideoModel, ErrorModel>(
                error@,
            ),
        },
        match frame {
            Ok(f) => crate::lease::frame_outcome(frame) == Ok::<FrameModel, ErrorModel>(f@),
            Err(error) => crate::lease::frame_outcome(frame) == Err::<FrameModel, ErrorModel>(
                error@,
            ),
        },
{
}

/// An outcome for a picture is one for the frame that holds the picture.
pub proof fn pictures_come_in_frames(video: Result<VideoModel, ErrorModel>)
    ensures
        match video {
            Ok(v) => crate::lease::as_frame_outcome(video) == Ok::<FrameModel, ErrorModel>(
                FrameModel::Video(v),
            ),
            Err(error) => crate::lease::as_frame_outcome(video) == Err::<FrameModel, ErrorModel>(
                error,
            ),
        },
{
}

/// A picture has significant bits exactly where its last entry has the largest
/// stride there is; that entry holds them, and the entries before it are the
/// planes. Where it has none, every entry is a plane.
pub proof fn significant_bits_stand_behind_the_planes(video: VideoModel, bits: Seq<u8>)
    ensures
        video.significant_bits() == Some(bits) <==> {
            &&& video.planes.len() > 0
            &&& video.planes[video.planes.len() - 1].stride == usize::MAX
            &&& video.planes[video.planes.len() - 1].data == bits
        },
        video.significant_bits() is None ==> video.picture_planes() == video.planes,
        video.significant_bits() is Some ==> video.picture_planes() == video.planes.subrange(
            0,
            video.planes.len() - 1,
        ),
{
}

/// Recording significant bits adds one entry behind the planes of the picture,
/// with the largest stride there is, or puts it in the place of an earlier one.
pub proof fn recording_bits_adds_one_entry(video: VideoModel, bits: Seq<u8>)
    ensures
        ({
            let recorded = video.with_significant_bits(bits);
            let kept: int = if video.planes.len() > 0 && video.planes[video.planes.len()
                - 1].stride == usize::MAX {
                video.planes.len() - 1
            } else {
                video.planes.len() as int
            };
            &&& recorded.pts == video.pts
            &&& recorded.planes.len() == kept + 1
            &&& recorded.planes[kept].stride == usize::MAX
            &&& recorded.planes[kept].data == bits
            &&& forall|i: int|
                0 <= i < kept ==> #[trigger] recorded.planes[i] == video.planes[i]
        }),
{
}

/// The text of a plane shows its stride and its bytes.
pub proof fn plane_text_shows_the_plane(plane: PlaneModel)
    ensures
        plane.debug_text() == "VideoPlane { stride: "@ + crate::text::decimal(plane.stride as nat)
            + ", data: "@ + crate::text::byte_list(plane.data) + " }"@,
{
}

/// The text of a picture shows its timestamp and the text of each plane.
pub proof fn video_text_shows_the_picture(video: VideoModel)
    ensures
        video.debug_text() == "VideoFrame { pts: "@ + crate::text::optional_timestamp(video.pts)
            + ", planes: "@ + crate::text::bracketed(
            Seq::new(video.planes.len(), |i: int| video.planes[i].debug_text()),
        ) + " }"@,
{
    assert(video.planes.map_values(|p: PlaneModel| p.debug_text()) =~= Seq::new(
        video.planes.len(),
        |i: int| video.planes[i].debug_text(),
    ));
}

/// The text of a run of samples shows its timestamp, its length and its bytes.
pub proof fn audio_text_shows_the_samples(audio: AudioModel)
    ensures
        audio.debug_text() == "AudioFrame { pts: "@ + crate::text::optional_timestamp(audio.pts)
            + ", samples: "@ + crate::text::decimal(audio.samples as nat) + ", data: "@
            + crate::text::bracketed(
            Seq::new(audio.data.len(), |i: int| crate::text::byte_list(audio.data[i])),
        ) + " }"@,
{
    assert(audio.data.map_values(|d: Seq<u8>| crate::text::byte_list(d)) =~= Seq::new(
        audio.data.len(),
        |i: int| crate::text::byte_list(audio.data[i]),
    ));
}

/// The text of a frame names its media and shows them.
pub proof fn frame_text_shows_its_media(video: VideoModel, audio: AudioModel)
    ensures
        FrameModel::Video(video).debug_text() == "Video("@ + video.debug_text() + ")"@,
        FrameModel::Audio(audio).debug_text() == "Audio("@ + audio.debug_text() + ")"@,
{
}

} // verus!
