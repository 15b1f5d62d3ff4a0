//! Heap-backed frames: the form in which every consumer can read decoded media.

use vstd::prelude::*;
use vstd::slice::slice_to_vec;

use crate::text::{
    bracketed_text,
    byte_list_text,
    decimal_text,
    optional_timestamp_text,
};

verus! {

/// The stride of the entry that carries the significant bits of a video frame.
/// No plane of a picture has it: a row that long fits in no allocation.
pub const SIGNIFICANT_BITS_STRIDE: usize = usize::MAX;

/// One plane of a picture.
#[derive(Debug)]
pub struct VideoPlane {
    /// Bytes from the start of one row to the start of the next.
    pub stride: usize,
    /// The rows, one after the other.
    pub data: Vec<u8>,
}

/// A decoded picture on the heap.
///
/// Where the samples use fewer bits than the pixel format offers, the frame
/// carries the number of bits of each component in one more entry behind its
/// planes, with the stride [`SIGNIFICANT_BITS_STRIDE`].
#[derive(Debug)]
pub struct VideoFrame {
    /// Presentation timestamp in the stream's time-base units.
    pub pts: Option<i64>,
    /// The planes of the picture.
    pub planes: Vec<VideoPlane>,
}

/// A run of decoded audio samples on the heap.
#[derive(Debug)]
pub struct AudioFrame {
    /// Presentation timestamp in the stream's time-base units.
    pub pts: Option<i64>,
    /// Samples per channel.
    pub samples: u32,
    /// The sample bytes, one entry for each channel or one for all of them.
    pub data: Vec<Vec<u8>>,
}

/// A decoded frame on the heap.
#[derive(Debug)]
#[non_exhaustive]
pub enum Frame {
    /// A picture.
    Video(VideoFrame),
    /// Audio samples.
    Audio(AudioFrame),
}

/// What a [`VideoPlane`] holds, as a mathematical value.
#[verifier::ext_equal]
pub struct PlaneModel {
    pub stride: usize,
    pub data: Seq<u8>,
}

/// What a [`VideoFrame`] holds, as a mathematical value.
#[verifier::ext_equal]
pub struct VideoModel {
    pub pts: Option<i64>,
    pub planes: Seq<PlaneModel>,
}

/// What an [`AudioFrame`] holds, as a mathematical value.
#[verifier::ext_equal]
pub struct AudioModel {
    pub pts: Option<i64>,
    pub samples: u32,
    pub data: Seq<Seq<u8>>,
}

/// What a [`Frame`] holds, as a mathematical value.
#[verifier::ext_equal]
pub enum FrameModel {
    Video(VideoModel),
    Audio(AudioModel),
}

impl View for VideoPlane {
    type V = PlaneModel;

    open spec fn view(&self) -> PlaneModel {
        PlaneModel { stride: self.stride, data: self.data@ }
    }
}

impl View for VideoFrame {
    type V = VideoModel;

    open spec fn view(&self) -> VideoModel {
        VideoModel { pts: self.pts, planes: self.planes@.map_values(|p: VideoPlane| p@) }
    }
}

impl View for AudioFrame {
    type V = AudioModel;

    open spec fn view(&self) -> AudioModel {
        AudioModel {
            pts: self.pts,
            samples: self.samples,
            data: self.data@.map_values(|d: Vec<u8>| d@),
        }
    }
}

impl View for Frame {
    type V = FrameModel;

    open spec fn view(&self) -> FrameModel {
        match *self {
            Frame::Video(video) => FrameModel::Video(video@),
            Frame::Audio(audio) => FrameModel::Audio(audio@),
        }
    }
}

impl PlaneModel {
    /// Whether this entry carries significant bits instead of picture rows.
    pub open spec fn carries_bits(self) -> bool {
        self.stride == SIGNIFICANT_BITS_STRIDE
    }

    /// The plane as text.
    pub open spec fn debug_text(self) -> Seq<char> {
        "VideoPlane { stride: "@ + crate::text::decimal(self.stride as nat) + ", data: "@
            + crate::text::byte_list(self.data) + " }"@
    }
}

impl VideoModel {
    /// Whether the last entry carries significant bits.
    pub open spec fn has_bits_entry(self) -> bool {
        self.planes.len() > 0 && self.planes.last().carries_bits()
    }

    /// The number of significant bits of each component, where the frame says so.
    pub open spec fn significant_bits(self) -> Option<Seq<u8>> {
        if self.has_bits_entry() {
            Some(self.planes.last().data)
        } else {
            None
        }
    }

    /// The entries that hold picture rows.
    pub open spec fn picture_planes(self) -> Seq<PlaneModel> {
        if self.has_bits_entry() {
            self.planes.drop_last()
        } else {
            self.planes
        }
    }

    /// The frame with `bits` as its significant bits.
    pub open spec fn with_significant_bits(self, bits: Seq<u8>) -> VideoModel {
        VideoModel {
            pts: self.pts,
            planes: self.picture_planes().push(
                PlaneModel { stride: SIGNIFICANT_BITS_STRIDE, data: bits },
            ),
        }
    }

    /// The frame as text.
    pub open spec fn debug_text(self) -> Seq<char> {
        "VideoFrame { pts: "@ + crate::text::optional_timestamp(self.pts) + ", planes: "@
            + crate::text::bracketed(self.planes.map_values(|p: PlaneModel| p.debug_text()))
            + " }"@
    }
}

impl AudioModel {
    /// The frame as text.
    pub open spec fn debug_text(self) -> Seq<char> {
        "AudioFrame { pts: "@ + crate::text::optional_timestamp(self.pts) + ", samples: "@
            + crate::text::decimal(self.samples as nat) + ", data: "@ + crate::text::bracketed(
            self.data.map_values(|d: Seq<u8>| crate::text::byte_list(d)),
        ) + " }"@
    }
}

impl FrameModel {
    /// The presentation timestamp, where there is one.
    pub open spec fn pts(self) -> Option<i64> {
        match self {
            FrameModel::Video(video) => video.pts,
            FrameModel::Audio(audio) => audio.pts,
        }
    }

    /// The frame as text.
    pub open spec fn debug_text(self) -> Seq<char> {
        match self {
            FrameModel::Video(video) => "Video("@ + video.debug_text() + ")"@,
            FrameModel::Audio(audio) => "Audio("@ + audio.debug_text() + ")"@,
        }
    }
}

impl Clone for VideoPlane {
    fn clone(&self) -> (copy: Self)
        ensures
            copy@ == self@,
    {
        VideoPlane { stride: self.stride, data: slice_to_vec(self.data.as_slice()) }
    }
}

impl Clone for VideoFrame {
    fn clone(&self) -> (copy: Self)
        ensures
            copy@ == self@,
    {
        let mut planes: Vec<VideoPlane> = Vec::with_capacity(self.planes.len());
        let mut i: usize = 0;
        while i < self.planes.len()
            invariant
                i <= self.planes.len(),
                planes.len() == i,
                forall|j: int| 0 <= j < i ==> (#[trigger] planes@[j])@ == self.planes@[j]@,
            decreases self.planes.len() - i,
        {
            planes.push(self.planes[i].clone());
            i += 1;
        }
        let copy = VideoFrame { pts: self.pts, planes };
        assert(copy@ =~= self@);
        copy
    }
}

impl Clone for AudioFrame {
    fn clone(&self) -> (copy: Self)
        ensures
            copy@ == self@,
    {
        let mut data: Vec<Vec<u8>> = Vec::with_capacity(self.data.len());
        let mut i: usize = 0;
        while i < self.data.len()
            invariant
                i <= self.data.len(),
                data.len() == i,
                forall|j: int| 0 <= j < i ==> (#[trigger] data@[j])@ == self.data@[j]@,
            decreases self.data.len() - i,
        {
            data.push(slice_to_vec(self.data[i].as_slice()));
            i += 1;
        }
        let copy = AudioFrame { pts: self.pts, samples: self.samples, data };
        assert(copy@ =~= self@);
        copy
    }
}

impl Clone for Frame {
    fn clone(&self) -> (copy: Self)
        ensures
            copy@ == self@,
    {
        match self {
            Frame::Video(video) => Frame::Video(video.clone()),
            Frame::Audio(audio) => Frame::Audio(audio.clone()),
        }
    }
}

impl VideoPlane {
    /// The plane as text.
    pub fn debug_string(&self) -> (text: String)
        ensures
            text@ == self@.debug_text(),
    {
        let mut text = "VideoPlane { stride: ".to_owned();
        text.append(decimal_text(self.stride as u64).as_str());
        text.append(", data: ");
        text.append(byte_list_text(self.data.as_slice()).as_str());
        text.append(" }");
        text
    }
}

impl VideoFrame {
    /// The number of significant bits of each component, where the frame says so.
    pub fn significant_bits(&self) -> (bits: Option<&[u8]>)
        ensures
            match bits {
                Some(b) => self@.significant_bits() == Some(b@),
                None => self@.significant_bits() is None,
            },
    {
        let count = self.planes.len();
        if count > 0 && self.planes[count - 1].stride == SIGNIFICANT_BITS_STRIDE {
            Some(self.planes[count - 1].data.as_slice())
        } else {
            None
        }
    }

    /// Record the number of significant bits of each component, in place of what
    /// was recorded before.
    pub fn set_significant_bits(&mut self, bits: Vec<u8>)
        ensures
            final(self)@ == old(self)@.with_significant_bits(bits@),
    {
        let count = self.planes.len();
        if count > 0 && self.planes[count - 1].stride == SIGNIFICANT_BITS_STRIDE {
            let _ = self.planes.pop();
        }
        self.planes.push(VideoPlane { stride: SIGNIFICANT_BITS_STRIDE, data: bits });
        assert(self@ =~= old(self)@.with_significant_bits(bits@));
    }

    /// The frame as text.
    pub fn debug_string(&self) -> (text: String)
        ensures
            text@ == self@.debug_text(),
    {
        let mut items: Vec<String> = Vec::new();
        let mut i: usize = 0;
        while i < self.planes.len()
            invariant
                i <= self.planes.len(),
                items.len() == i,
                forall|j: int|
                    0 <= j < i ==> (#[trigger] items@[j])@ == self.planes@[j]@.debug_text(),
            decreases self.planes.len() - i,
        {
            items.push(self.planes[i].debug_string());
            i += 1;
        }
        assert(items@.map_values(|item: String| item@) =~= self@.planes.map_values(
            |p: PlaneModel| p.debug_text(),
        ));
        let mut text = "VideoFrame { pts: ".to_owned();
        text.append(optional_timestamp_text(self.pts).as_str());
        text.append(", planes: ");
        text.append(bracketed_text(&items).as_str());
        text.append(" }");
        text
    }
}

impl AudioFrame {
    /// The frame as text.
    pub fn debug_string(&self) -> (text: String)
        ensures
            text@ == self@.debug_text(),
    {
        let mut items: Vec<String> = Vec::new();
        let mut i: usize = 0;
        while i < self.data.len()
            invariant
                i <= self.data.len(),
                items.len() == i,
                forall|j: int|
                    0 <= j < i ==> (#[trigger] items@[j])@ == crate::text::byte_list(
                        self.data@[j]@,
                    ),
            decreases self.data.len() - i,
        {
            items.push(byte_list_text(self.data[i].as_slice()));
            i += 1;
        }
        assert(items@.map_values(|item: String| item@) =~= self@.data.map_values(
            |d: Seq<u8>| crate::text::byte_list(d),
        ));
        let mut text = "AudioFrame { pts: ".to_owned();
        text.append(optional_timestamp_text(self.pts).as_str());
        text.append(", samples: ");
        text.append(decimal_text(self.samples as u64).as_str());
        text.append(", data: ");
        text.append(bracketed_text(&items).as_str());
        text.append(" }");
        text
    }
}

impl Frame {
    /// The presentation timestamp, where there is one.
    pub fn pts(&self) -> (pts: Option<i64>)
        ensures
            pts == self@.pts(),
    {
        match self {
            Frame::Video(video) => video.pts,
            Frame::Audio(audio) => audio.pts,
        }
    }

    /// The frame as text.
    pub fn debug_string(&self) -> (text: String)
        ensures
            text@ == self@.debug_text(),
    {
        match self {
            Frame::Video(video) => {
                let mut text = "Video(".to_owned();
                text.append(video.debug_string().as_str());
                text.append(")");
                text
            },
            Frame::Audio(audio) => {
                let mut text = "Audio(".to_owned();
                text.append(audio.debug_string().as_str());
                text.append(")");
                text
            },
        }
    }
}

} // verus!
