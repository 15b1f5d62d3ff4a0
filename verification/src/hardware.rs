//! Opaque hardware-decoded frames.

use std::any::Any;
use std::sync::Arc;

use vstd::prelude::*;

use crate::error::{Error, ErrorModel};
use crate::frame::{VideoFrame, VideoModel};
use crate::pixel::PixelFormat;
use crate::text::{decimal_text, optional_timestamp_text};

verus! {

/// What a hardware frame is, as a mathematical value.
#[verifier::ext_equal]
pub struct HardwareModel {
    /// Backend identifier.
    pub backend: Seq<char>,
    /// Visible picture width in pixels.
    pub width: u32,
    /// Visible picture height in pixels.
    pub height: u32,
    /// Pixel format of the surface.
    pub pixel_format: PixelFormat,
    /// Presentation timestamp in the stream's time-base units.
    pub pts: Option<i64>,
    /// What reading the surface back may come to. Only the backend decides which
    /// of these it is, and whether it is the same each time.
    pub readbacks: Set<Result<VideoModel, ErrorModel>>,
}

/// The outcome of reading a surface back, as a mathematical value.
pub open spec fn video_outcome(video: Result<VideoFrame, Error>) -> Result<
    VideoModel,
    ErrorModel,
> {
    match video {
        Ok(v) => Ok(v@),
        Err(error) => Err(error@),
    }
}

/// A value of some type. Every type that borrows nothing has it.
pub trait Held {

}

impl<T: 'static> Held for T {

}

/// `value` as a trait object, in a sequence of its own: it tells both the type
/// and the value.
pub open spec fn held_object<T: 'static>(value: T) -> Seq<Box<dyn Held>> {
    seq![Box::new(value)]
}

/// A borrowed `std::any::Any` trait object. `Any` is not a trait that a contract
/// can speak of, so the reference is opaque here.
#[verifier::external_body]
pub struct AnyRef<'a> {
    value: &'a dyn Any,
}

/// The value that is borrowed, as the trait object that it makes.
pub uninterp spec fn any_object(any: AnyRef<'_>) -> Seq<Box<dyn Held>>;

impl<'a> AnyRef<'a> {
    /// The conversion of a reference to `&dyn Any`, which keeps the value and its
    /// type: what is borrowed is still `value`.
    #[verifier::external_body]
    pub fn new<T: 'static>(value: &'a T) -> (any: AnyRef<'a>)
        ensures
            any_object(any) == held_object(*value),
    {
        AnyRef { value: value as &'a dyn Any }
    }

    /// `<dyn Any>::downcast_ref`: a reference to the borrowed value where it is of
    /// the type `T`, and none where it is of another. So what comes back is the
    /// borrowed value, and it comes back whenever that value is a `T`.
    #[verifier::external_body]
    pub fn downcast_ref<T: 'static>(&self) -> (held: Option<&'a T>)
        ensures
            held matches Some(value) ==> any_object(*self) == held_object(*value),
            forall|value: T|
                any_object(*self) == #[trigger] held_object(value) ==> held == Some(&value),
    {
        self.value.downcast_ref::<T>()
    }
}

/// Backend-owned GPU/video storage that can travel through a generic pipeline.
///
/// Implementations normally wrap a refcounted decoder surface lease. The
/// concrete backend handle remains available through [`Self::as_any`] for an
/// application that knows how to import/sample it directly. Generic consumers
/// can instead use [`Self::materialize`] as an explicit CPU fallback.
///
/// The underlying surface remains valid and immutable while this value (or any
/// clone of the enclosing [`HardwareVideoFrame`]) is alive: what the methods
/// report is given by [`Self::model`] and [`Self::handle`], which depend on the
/// value alone.
pub trait HardwareVideoFrameStorage: Send + Sync {
    /// What the frame is. A verified implementation says it here; nothing ever
    /// computes it.
    closed spec fn model(&self) -> HardwareModel {
        arbitrary()
    }

    /// The backend handle that [`Self::as_any`] lends. A verified implementation
    /// says it here; nothing ever computes it.
    closed spec fn handle(&self) -> Seq<Box<dyn Held>> {
        arbitrary()
    }

    /// Stable backend identifier, for example `"vdpau"` or `"vulkan"`.
    fn backend(&self) -> (name: &'static str)
        ensures
            name@ == self.model().backend,
    ;

    /// Visible picture width in pixels.
    fn width(&self) -> (width: u32)
        ensures
            width == self.model().width,
    ;

    /// Visible picture height in pixels.
    fn height(&self) -> (height: u32)
        ensures
            height == self.model().height,
    ;

    /// Pixel format represented by the hardware surface.
    fn pixel_format(&self) -> (format: PixelFormat)
        ensures
            format == self.model().pixel_format,
    ;

    /// Presentation timestamp in the stream's time-base units.
    fn pts(&self) -> (pts: Option<i64>)
        ensures
            pts == self.model().pts,
    ;

    /// Downcasting hook for backend-aware consumers: the storage itself, or a
    /// handle inside it.
    fn as_any(&self) -> (any: AnyRef<'_>)
        ensures
            any_object(any) == self.handle(),
    ;

    /// Copy/read the hardware surface into a CPU [`VideoFrame`].
    ///
    /// This is a compatibility fallback and may be expensive. Consumers that
    /// understand [`Self::backend`] should prefer the opaque surface directly.
    fn materialize(&self) -> (video: Result<VideoFrame, Error>)
        ensures
            self.model().readbacks.contains(video_outcome(video)),
    ;
}

/// Storage of a known type, ready to be made a trait object.
struct Backing<T: HardwareVideoFrameStorage> {
    storage: T,
}

impl<T: HardwareVideoFrameStorage> HardwareVideoFrameStorage for Backing<T> {
    closed spec fn model(&self) -> HardwareModel {
        self.storage.model()
    }

    closed spec fn handle(&self) -> Seq<Box<dyn Held>> {
        self.storage.handle()
    }

    fn backend(&self) -> (name: &'static str) {
        self.storage.backend()
    }

    fn width(&self) -> (width: u32) {
        self.storage.width()
    }

    fn height(&self) -> (height: u32) {
        self.storage.height()
    }

    fn pixel_format(&self) -> (format: PixelFormat) {
        self.storage.pixel_format()
    }

    fn pts(&self) -> (pts: Option<i64>) {
        self.storage.pts()
    }

    fn as_any(&self) -> (any: AnyRef<'_>) {
        self.storage.as_any()
    }

    fn materialize(&self) -> (video: Result<VideoFrame, Error>) {
        self.storage.materialize()
    }
}

/// What the standard formatter prints for a string under `{:?}`: the string in
/// double quotes, with its special characters escaped.
pub uninterp spec fn quoted(text: Seq<char>) -> Seq<char>;

/// `<str as std::fmt::Debug>::fmt`, through `format!`: the text is that of
/// [`quoted`], a function of the string alone.
#[verifier::external_body]
pub(crate) fn quoted_text(text: &str) -> (printed: String)
    ensures
        printed@ == quoted(text@),
{
    format!("{:?}", text)
}

/// Cloneable handle to an opaque hardware-decoded video frame.
pub struct HardwareVideoFrame {
    inner: Arc<Box<dyn HardwareVideoFrameStorage>>,
}

impl View for HardwareVideoFrame {
    type V = HardwareModel;

    closed spec fn view(&self) -> HardwareModel {
        self.inner.model()
    }
}

impl HardwareModel {
    /// The frame as text, with its backend already quoted.
    pub open spec fn debug_text(self, quoted_backend: Seq<char>) -> Seq<char> {
        "HardwareVideoFrame { backend: "@ + quoted_backend + ", width: "@ + crate::text::decimal(
            self.width as nat,
        ) + ", height: "@ + crate::text::decimal(self.height as nat) + ", pixel_format: "@
            + self.pixel_format.spec_name() + ", pts: "@ + crate::text::optional_timestamp(
            self.pts,
        ) + ", .. }"@
    }
}

impl Clone for HardwareVideoFrame {
    fn clone(&self) -> (other: Self)
        ensures
            other == *self,
            other@ == self@,
    {
        HardwareVideoFrame { inner: self.inner.clone() }
    }
}

/// The trait object that a storage is kept as, in a sequence of its own.
pub closed spec fn backing_object<T: HardwareVideoFrameStorage + 'static>(storage: T) -> Seq<
    Box<dyn HardwareVideoFrameStorage>,
> {
    seq![Box::new(Backing { storage })]
}

impl HardwareVideoFrame {
    /// The backend handle that the storage of the frame lends.
    pub closed spec fn handle(&self) -> Seq<Box<dyn Held>> {
        self.inner.handle()
    }

    /// Whether `storage` is the backend storage of the frame.
    pub closed spec fn lends(&self, storage: &Box<dyn HardwareVideoFrameStorage>) -> bool {
        *self.inner == *storage
    }

    /// Whether the backend storage of the frame was made of `storage`.
    pub closed spec fn wraps<T: HardwareVideoFrameStorage + 'static>(&self, storage: T) -> bool {
        seq![*self.inner] == backing_object(storage)
    }

    /// A frame and its clones lend one storage object, and it is the one that was
    /// made of the storage they were created with.
    pub proof fn clones_lend_one_storage<T: HardwareVideoFrameStorage + 'static>(
        self,
        clone: HardwareVideoFrame,
        created_with: T,
        lent: &Box<dyn HardwareVideoFrameStorage>,
        lent_by_clone: &Box<dyn HardwareVideoFrameStorage>,
    )
        requires
            clone == self,
            self.wraps(created_with),
            self.lends(lent),
            clone.lends(lent_by_clone),
        ensures
            *lent == *lent_by_clone,
            clone.wraps(created_with),
            seq![*lent] == backing_object(created_with),
    {
    }

    /// Wrap backend-specific hardware storage in a retainable generic handle.
    pub fn new<T>(storage: T) -> (frame: Self) where T: HardwareVideoFrameStorage + 'static
        ensures
            frame@ == storage.model(),
            frame.handle() == storage.handle(),
            frame.wraps(storage),
    {
        let backing = Backing { storage };
        let ghost model = backing.model();
        let ghost handle = backing.handle();
        let object: Box<dyn HardwareVideoFrameStorage> = Box::new(backing);
        assert(object.model() == model);
        assert(object.handle() == handle);
        let inner = Arc::new(object);
        HardwareVideoFrame { inner }
    }

    /// Backend identifier supplied by the hardware implementation.
    pub fn backend(&self) -> (name: &'static str)
        ensures
            name@ == self@.backend,
    {
        self.inner.backend()
    }

    /// Visible picture width in pixels.
    pub fn width(&self) -> (width: u32)
        ensures
            width == self@.width,
    {
        self.inner.width()
    }

    /// Visible picture height in pixels.
    pub fn height(&self) -> (height: u32)
        ensures
            height == self@.height,
    {
        self.inner.height()
    }

    /// Pixel format represented by the hardware surface.
    pub fn pixel_format(&self) -> (format: PixelFormat)
        ensures
            format == self@.pixel_format,
    {
        self.inner.pixel_format()
    }

    /// Presentation timestamp in stream time-base units.
    pub fn pts(&self) -> (pts: Option<i64>)
        ensures
            pts == self@.pts,
    {
        self.inner.pts()
    }

    /// Borrow the type-erased backend storage.
    pub fn storage(&self) -> (storage: &Box<dyn HardwareVideoFrameStorage>)
        ensures
            self.lends(storage),
            storage.model() == self@,
            storage.handle() == self.handle(),
    {
        &self.inner
    }

    /// Downcast what the backend storage lends to a concrete type. Gives the
    /// backend handle where it is of that type, and nothing where it is of another.
    pub fn downcast_ref<T: 'static>(&self) -> (held: Option<&T>)
        ensures
            held matches Some(value) ==> self.handle() == held_object(*value),
            forall|value: T|
                self.handle() == #[trigger] held_object(value) ==> held == Some(&value),
    {
        self.inner.as_any().downcast_ref::<T>()
    }

    /// Materialize this hardware frame into CPU video planes.
    pub fn materialize(&self) -> (video: Result<VideoFrame, Error>)
        ensures
            self@.readbacks.contains(video_outcome(video)),
    {
        self.inner.materialize()
    }

    /// The frame as text.
    pub fn debug_string(&self) -> (text: String)
        ensures
            text@ == self@.debug_text(quoted(self@.backend)),
    {
        self.debug_string_with(quoted_text(self.backend()).as_str())
    }

    /// The frame as text, with its backend already quoted.
    pub fn debug_string_with(&self, quoted_backend: &str) -> (text: String)
        ensures
            text@ == self@.debug_text(quoted_backend@),
    {
        let mut text = "HardwareVideoFrame { backend: ".to_owned();
        text.append(quoted_backend);
        text.append(", width: ");
        text.append(decimal_text(self.width() as u64).as_str());
        text.append(", height: ");
        text.append(decimal_text(self.height() as u64).as_str());
        text.append(", pixel_format: ");
        text.append(self.pixel_format().name());
        text.append(", pts: ");
        text.append(optional_timestamp_text(self.pts()).as_str());
        text.append(", .. }");
        text
    }
}

} // verus!
