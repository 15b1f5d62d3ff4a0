//! Arenas that can be sent between threads, and the frames that live in them.
//!
//! An [`ArenaPool`] owns a fixed number of buffers. [`ArenaPool::lease`] lends
//! one of them out as an [`Arena`]; a decoder fills it and freezes it into a
//! [`Frame`]. The buffer goes back to its pool when the arena, or the last
//! clone of the frame that took it over, is dropped.

use std::sync::Arc;

use vstd::prelude::*;
use vstd::slice::{slice_subrange, slice_to_vec};

use crate::arena::channel::{Inbox, Outbox};
use crate::error::{Error, ErrorModel};
use crate::frame::SIGNIFICANT_BITS_STRIDE;
use crate::pixel::PixelFormat;
use crate::text::{byte_list_text, decimal_text, optional_timestamp_text};

verus! {

/// The sending half of a channel of the standard library, taken as it is.
#[verifier::external_type_specification]
#[verifier::external_body]
#[verifier::reject_recursive_types(T)]
pub struct ExSender<T>(std::sync::mpsc::Sender<T>);

/// The receiving half of a channel of the standard library, taken as it is.
#[verifier::external_type_specification]
#[verifier::external_body]
#[verifier::reject_recursive_types(T)]
pub struct ExReceiver<T>(std::sync::mpsc::Receiver<T>);

/// `std::sync::mpsc::channel`: the two ends of a new channel for buffers. Claimed
/// is that they are the ends of one channel, and that nothing went through it yet.
#[verifier::external_body]
fn buffer_channel() -> (ends: (Outbox, Inbox))
    ensures
        ends.0.channel() == ends.1.channel(),
        ends.0.sent() == Seq::<Seq<u8>>::empty(),
{
    let (sender, receiver) = std::sync::mpsc::channel();
    (Outbox::unknown(sender), Inbox::unknown(receiver))
}

/// `std::sync::mpsc::Sender::send`: puts a buffer into the channel, or drops it
/// where the receiving end is gone. Claimed is that the call comes back, and that
/// this one buffer went through this end of the channel.
#[verifier::external_body]
fn send_buffer(home: &mut Outbox, buffer: Vec<u8>)
    ensures
        final(home).channel() == old(home).channel(),
        final(home).sent() == old(home).sent().push(buffer@),
    opens_invariants none
    no_unwind
{
    let _ = home.sender().send(buffer);
}

/// `Sender::clone`: another sending end of the same channel, through which nothing
/// went yet.
#[verifier::external_body]
fn clone_sender(home: &Outbox) -> (other: Outbox)
    ensures
        other.channel() == home.channel(),
        other.sent() == Seq::<Seq<u8>>::empty(),
{
    Outbox::unknown(home.sender().clone())
}

/// `std::sync::mpsc::Receiver::try_recv`: the next buffer in the channel, where
/// one is there. Nothing is claimed of it: which buffers are in the channel
/// depends on which arenas and frames have been dropped.
#[verifier::external_body]
fn receive_buffer(free: &Inbox) -> (buffer: Option<Vec<u8>>) {
    free.receiver().try_recv().ok()
}

/// What `receive` answers when it is asked for a free buffer.
fn answer<F: Fn(&Inbox) -> Option<Vec<u8>>>(receive: F, free: &Inbox) -> (buffer: Option<Vec<u8>>)
    requires
        receive.requires((free,)),
    ensures
        receive.ensures((free,), buffer),
{
    receive(free)
}

/// `std::mem::take` on a byte vector: hands its bytes out and leaves it empty.
#[verifier::external_body]
fn take_bytes(bytes: &mut Vec<u8>) -> (taken: Vec<u8>)
    ensures
        taken@ == old(bytes)@,
        final(bytes)@ == Seq::<u8>::empty(),
    opens_invariants none
    no_unwind
{
    std::mem::take(bytes)
}

/// What an [`Arena`] holds, as a mathematical value.
#[verifier::ext_equal]
pub struct ArenaModel {
    /// The whole buffer.
    pub bytes: Seq<u8>,
    /// How many of its bytes have been allocated, from the front.
    pub used: nat,
}

impl ArenaModel {
    /// An arena of `size` zero bytes of which none is allocated.
    pub open spec fn fresh(size: nat) -> ArenaModel {
        ArenaModel { bytes: Seq::new(size, |i: int| 0u8), used: 0 }
    }

    /// Whether the arena has room for `count` more bytes.
    pub open spec fn has_room(self, count: nat) -> bool {
        self.used + count <= self.bytes.len()
    }

    /// Whether the range of `len` bytes at `offset` has been allocated.
    pub open spec fn allocated(self, offset: nat, len: nat) -> bool {
        offset + len <= self.used && offset + len <= self.bytes.len()
    }

    /// The message that refuses `count` more bytes.
    pub open spec fn full_message(self, count: nat) -> Seq<char> {
        "arena has no room for "@ + crate::text::decimal(count) + " more bytes"@
    }
}

/// A bump allocator over one pooled buffer.
pub struct Arena {
    storage: Vec<u8>,
    used: usize,
    home: Outbox,
}

impl View for Arena {
    type V = ArenaModel;

    closed spec fn view(&self) -> ArenaModel {
        ArenaModel { bytes: self.storage@, used: self.used as nat }
    }
}

impl Arena {
    /// The channel that the buffer goes back into.
    pub closed spec fn channel(self) -> int {
        self.home.channel()
    }

    /// What the arena has put into that channel: nothing while it is in use.
    pub closed spec fn given_back(self) -> Seq<Seq<u8>> {
        self.home.sent()
    }

    /// Allocate the next `count` bytes.
    ///
    /// Fails, and leaves the arena as it was, where it has no room for them.
    pub fn allocate(&mut self, count: usize) -> (region: Result<&mut [u8], Error>)
        ensures
            match region {
                Ok(bytes) => {
                    let start = old(self)@.used as int;
                    let end = old(self)@.used + count;
                    &&& old(self)@.has_room(count as nat)
                    &&& bytes@ == old(self)@.bytes.subrange(start, end)
                    &&& final(self)@.used == end
                    &&& final(self)@.bytes == old(self)@.bytes.subrange(0, start) + final(bytes)@
                        + old(self)@.bytes.subrange(end, old(self)@.bytes.len() as int)
                },
                Err(error) => {
                    &&& !old(self)@.has_room(count as nat)
                    &&& error@ == ErrorModel::ResourceExhausted(
                        old(self)@.full_message(count as nat),
                    )
                    &&& final(self)@ == old(self)@
                },
            },
            region is Ok <==> old(self)@.used + count <= old(self)@.bytes.len(),
            final(self).channel() == old(self).channel(),
            final(self).given_back() == old(self).given_back(),
    {
        let start = self.used;
        let size = self.storage.len();
        if start > size || count > size - start {
            let mut message = "arena has no room for ".to_owned();
            message.append(decimal_text(count as u64).as_str());
            message.append(" more bytes");
            return Err(Error::exhausted(message));
        }
        self.used = start + count;
        let (_, rest) = self.storage.as_mut_slice().split_at_mut(start);
        let (region, _) = rest.split_at_mut(count);
        Ok(region)
    }

    /// Whether the range of `len` bytes at `offset` has been allocated.
    fn is_allocated(&self, offset: usize, len: usize) -> (yes: bool)
        ensures
            yes == self@.allocated(offset as nat, len as nat),
    {
        let size = self.storage.len();
        let end = if self.used <= size {
            self.used
        } else {
            size
        };
        offset <= end && len <= end - offset
    }
}

impl Drop for Arena {
    /// Give the buffer back to its pool, once, whatever was allocated of it.
    fn drop(&mut self)
        ensures
            final(self).channel() == old(self).channel(),
            final(self).given_back() == old(self).given_back().push(old(self)@.bytes),
        opens_invariants none
        no_unwind
    {
        let buffer = take_bytes(&mut self.storage);
        send_buffer(&mut self.home, buffer);
    }
}

/// A fixed number of equal buffers that are lent out as arenas.
pub struct ArenaPool {
    max_arenas: usize,
    arena_size: usize,
    free: Inbox,
    home: Outbox,
}

impl ArenaPool {
    /// How many arenas the pool lends out at most at one time.
    pub closed spec fn max_arenas(self) -> nat {
        self.max_arenas as nat
    }

    /// How many bytes each arena has.
    pub closed spec fn arena_size(self) -> nat {
        self.arena_size as nat
    }

    /// The channel that the free buffers of the pool are in.
    pub closed spec fn channel(self) -> int {
        self.free.channel()
    }

    /// The buffers that were put into the channel when the pool was made.
    pub closed spec fn stock(self) -> Seq<Seq<u8>> {
        self.home.sent()
    }

    /// A buffer of an arena fits in the address space, and buffers go back into
    /// the channel that they are taken from.
    #[verifier::type_invariant]
    spec fn inv(self) -> bool {
        &&& self.arena_size <= usize::MAX / 2
        &&& self.home.channel() == self.free.channel()
    }

    /// Whether the channel may have a buffer to give when it is asked for one.
    pub closed spec fn may_have_a_buffer(self) -> bool {
        exists|buffer: Vec<u8>| call_ensures(receive_buffer, (&self.free,), Some(buffer))
    }

    /// Whether no buffer may come when the channel is asked for one.
    pub closed spec fn may_be_empty(self) -> bool {
        call_ensures(receive_buffer, (&self.free,), None::<Vec<u8>>)
    }

    /// The message that refuses a lease.
    pub open spec fn exhausted_message(self) -> Seq<char> {
        "all "@ + crate::text::decimal(self.max_arenas()) + " arenas of the pool are in use"@
    }

    /// A pool of `max_arenas` buffers of `arena_size` bytes each. A buffer takes
    /// up memory from its first lease on. No allocation can be larger than half
    /// the address space.
    pub fn new(max_arenas: usize, arena_size: usize) -> (pool: Self)
        requires
            arena_size <= usize::MAX / 2,
        ensures
            pool.max_arenas() == max_arenas,
            pool.arena_size() == arena_size,
            pool.stock().len() == max_arenas,
    {
        let (mut home, free) = buffer_channel();
        let mut i: usize = 0;
        while i < max_arenas
            invariant
                i <= max_arenas,
                home.channel() == free.channel(),
                home.sent().len() == i,
            decreases max_arenas - i,
        {
            send_buffer(&mut home, Vec::new());
            i += 1;
        }
        ArenaPool { max_arenas, arena_size, free, home }
    }

    /// Borrow a buffer of the pool as an arena, filled with zeros.
    ///
    /// Fails where no buffer is free, which depends on how many arenas and frames
    /// of this pool are still alive.
    pub fn lease(&self) -> (arena: Result<Arena, Error>)
        ensures
            match arena {
                Ok(fresh) => fresh@ == ArenaModel::fresh(self.arena_size()),
                Err(error) => error@ == ErrorModel::ResourceExhausted(self.exhausted_message()),
            },
            match arena {
                Ok(fresh) => {
                    &&& fresh@.bytes.len() == self.arena_size()
                    &&& forall|i: int| 0 <= i < self.arena_size() ==> fresh@.bytes[i] == 0
                    &&& fresh@.used == 0
                    &&& fresh.channel() == self.channel()
                    &&& fresh.given_back().len() == 0
                    &&& self.may_have_a_buffer()
                },
                Err(error) => error is ResourceExhausted && self.may_be_empty(),
            },
    {
        let received = answer(receive_buffer, &self.free);
        assert(received matches Some(buffer) ==> call_ensures(
            receive_buffer,
            (&self.free,),
            Some(buffer),
        ));
        self.prepare(received)
    }

    /// Whether the channel may have a buffer is a matter of what it can answer.
    proof fn channel_decides_on_leases(self)
        ensures
            self.may_be_empty() <==> call_ensures(
                receive_buffer,
                (&self.free,),
                None::<Vec<u8>>,
            ),
            self.may_have_a_buffer() <==> exists|buffer: Vec<u8>|
                call_ensures(receive_buffer, (&self.free,), Some(buffer)),
    {
    }

    /// The arena made of a free buffer, or the refusal where none is free.
    fn prepare(&self, free: Option<Vec<u8>>) -> (arena: Result<Arena, Error>)
        ensures
            arena is Ok <==> free is Some,
            match arena {
                Ok(fresh) => {
                    &&& fresh@ == ArenaModel::fresh(self.arena_size())
                    &&& fresh.channel() == self.channel()
                    &&& fresh.given_back().len() == 0
                },
                Err(error) => error@ == ErrorModel::ResourceExhausted(self.exhausted_message()),
            },
    {
        proof {
            use_type_invariant(self);
        }
        match free {
            Some(buffer) => {
                let mut storage = buffer;
                storage.clear();
                storage.resize(self.arena_size, 0);
                let arena = Arena { storage, used: 0, home: clone_sender(&self.home) };
                assert(arena@ =~= ArenaModel::fresh(self.arena_size()));
                Ok(arena)
            },
            None => {
                let mut message = "all ".to_owned();
                message.append(decimal_text(self.max_arenas as u64).as_str());
                message.append(" arenas of the pool are in use");
                Err(Error::exhausted(message))
            },
        }
    }
}

/// The largest number of components that a pixel has.
pub const MAX_COMPONENTS: usize = 4;

/// What a [`FrameHeader`] says, as a mathematical value.
#[verifier::ext_equal]
pub struct HeaderModel {
    pub width: u32,
    pub height: u32,
    pub pixel_format: PixelFormat,
    pub presentation_timestamp: Option<i64>,
    pub significant_bits: Option<Seq<u8>>,
}

/// The picture parameters of an arena frame.
#[derive(Debug)]
pub struct FrameHeader {
    /// Visible picture width in pixels.
    pub width: u32,
    /// Visible picture height in pixels.
    pub height: u32,
    /// Pixel format of the planes.
    pub pixel_format: PixelFormat,
    /// Presentation timestamp in the stream's time-base units.
    pub presentation_timestamp: Option<i64>,
    /// The significant bits of each component, where they are known;
    /// [`FrameHeader::with_significant_bits`] checks them.
    pub significant_bits: Option<Vec<u8>>,
}

impl View for FrameHeader {
    type V = HeaderModel;

    open spec fn view(&self) -> HeaderModel {
        HeaderModel {
            width: self.width,
            height: self.height,
            pixel_format: self.pixel_format,
            presentation_timestamp: self.presentation_timestamp,
            significant_bits: match self.significant_bits {
                Some(bits) => Some(bits@),
                None => None,
            },
        }
    }
}

impl HeaderModel {
    /// The header as text.
    pub open spec fn debug_text(self) -> Seq<char> {
        "FrameHeader { width: "@ + crate::text::decimal(self.width as nat) + ", height: "@
            + crate::text::decimal(self.height as nat) + ", pixel_format: "@
            + self.pixel_format.spec_name() + ", presentation_timestamp: "@
            + crate::text::optional_timestamp(self.presentation_timestamp)
            + ", significant_bits: "@ + match self.significant_bits {
            Some(bits) => "Some("@ + crate::text::byte_list(bits) + ")"@,
            None => "None"@,
        } + " }"@
    }
}

/// Whether `bits` can be the significant bits of the components of a pixel: one
/// to four entries, none of which is zero.
pub open spec fn valid_significant_bits(bits: Seq<u8>) -> bool {
    &&& 1 <= bits.len() <= MAX_COMPONENTS
    &&& forall|i: int| 0 <= i < bits.len() ==> bits[i] != 0
}

impl FrameHeader {
    /// A header without significant bits.
    pub fn new(
        width: u32,
        height: u32,
        pixel_format: PixelFormat,
        presentation_timestamp: Option<i64>,
    ) -> (header: Self)
        ensures
            header@ == (HeaderModel {
                width,
                height,
                pixel_format,
                presentation_timestamp,
                significant_bits: None,
            }),
    {
        FrameHeader {
            width,
            height,
            pixel_format,
            presentation_timestamp,
            significant_bits: None,
        }
    }

    /// The header with `bits` as the significant bits of its components.
    ///
    /// Fails where there are none or more than four of them, or where one is zero.
    pub fn with_significant_bits(self, bits: &[u8]) -> (header: Result<Self, Error>)
        ensures
            header is Ok <==> valid_significant_bits(bits@),
            header is Ok <==> 1 <= bits@.len() <= 4 && forall|i: int|
                0 <= i < bits@.len() ==> bits@[i] != 0,
            match header {
                Ok(h) => h@ == (HeaderModel { significant_bits: Some(bits@), ..self@ }),
                Err(error) => error@ == ErrorModel::InvalidData(
                    "significant bits are one to four numbers other than zero"@,
                ),
            },
    {
        let mut valid = 1 <= bits.len() && bits.len() <= MAX_COMPONENTS;
        let mut i: usize = 0;
        while i < bits.len()
            invariant
                i <= bits.len(),
                valid <==> 1 <= bits.len() <= MAX_COMPONENTS && forall|j: int|
                    0 <= j < i ==> bits@[j] != 0,
            decreases bits.len() - i,
        {
            if bits[i] == 0 {
                valid = false;
            }
            i += 1;
        }
        if valid {
            Ok(
                FrameHeader {
                    width: self.width,
                    height: self.height,
                    pixel_format: self.pixel_format,
                    presentation_timestamp: self.presentation_timestamp,
                    significant_bits: Some(slice_to_vec(bits)),
                },
            )
        } else {
            Err(
                Error::invalid(
                    "significant bits are one to four numbers other than zero".to_owned(),
                ),
            )
        }
    }

    /// The significant bits of the components, where they are known.
    pub fn significant_bits(&self) -> (bits: Option<&[u8]>)
        ensures
            match bits {
                Some(b) => self@.significant_bits == Some(b@),
                None => self@.significant_bits is None,
            },
    {
        match &self.significant_bits {
            Some(bits) => Some(bits.as_slice()),
            None => None,
        }
    }

    /// The header as text.
    pub fn debug_string(&self) -> (text: String)
        ensures
            text@ == self@.debug_text(),
    {
        let mut text = "FrameHeader { width: ".to_owned();
        text.append(decimal_text(self.width as u64).as_str());
        text.append(", height: ");
        text.append(decimal_text(self.height as u64).as_str());
        text.append(", pixel_format: ");
        text.append(self.pixel_format.name());
        text.append(", presentation_timestamp: ");
        text.append(optional_timestamp_text(self.presentation_timestamp).as_str());
        text.append(", significant_bits: ");
        match &self.significant_bits {
            Some(bits) => {
                let mut list = "Some(".to_owned();
                list.append(byte_list_text(bits.as_slice()).as_str());
                list.append(")");
                text.append(list.as_str());
            },
            None => {
                text.append("None");
            },
        }
        text.append(" }");
        text
    }
}

/// What one plane of an arena frame holds, as a mathematical value.
#[verifier::ext_equal]
pub struct ArenaPlaneModel {
    /// The bytes of the plane, where they lie in the arena.
    pub data: Option<Seq<u8>>,
    /// The stride that was declared for the plane, where one was.
    pub stride: Option<usize>,
}

/// What an arena frame holds, as a mathematical value.
#[verifier::ext_equal]
pub struct ArenaFrameModel {
    pub header: HeaderModel,
    pub planes: Seq<ArenaPlaneModel>,
}

impl ArenaFrameModel {
    /// What every frame that was built from an arena satisfies: each plane has
    /// its bytes, and none has the stride that marks significant bits.
    pub open spec fn wf(self) -> bool {
        forall|i: int|
            0 <= i < self.planes.len() ==> {
                &&& (#[trigger] self.planes[i]).data is Some
                &&& self.planes[i].stride != Some(SIGNIFICANT_BITS_STRIDE)
            }
    }

    /// The bytes of the plane at `index`.
    pub open spec fn plane(self, index: int) -> Option<Seq<u8>> {
        if 0 <= index < self.planes.len() {
            self.planes[index].data
        } else {
            None
        }
    }

    /// The declared stride of the plane at `index`.
    pub open spec fn plane_stride(self, index: int) -> Option<usize> {
        if 0 <= index < self.planes.len() {
            self.planes[index].stride
        } else {
            None
        }
    }
}

/// Where a plane lies in its arena.
struct PlaneSlot {
    offset: usize,
    len: usize,
    stride: Option<usize>,
}

/// A picture in a pooled buffer that no longer changes.
pub struct FrameInner {
    arena: Arena,
    planes: Vec<PlaneSlot>,
    header: FrameHeader,
}

/// A shared picture in a pooled buffer. The buffer goes back to its pool when the
/// last clone is dropped.
pub type Frame = Arc<FrameInner>;

/// The plane that `len` bytes at `offset` make up.
pub open spec fn arena_plane(
    arena: ArenaModel,
    offset: usize,
    len: usize,
    stride: Option<usize>,
) -> ArenaPlaneModel {
    ArenaPlaneModel {
        data: if arena.allocated(offset as nat, len as nat) {
            Some(arena.bytes.subrange(offset as int, offset + len))
        } else {
            None
        },
        stride,
    }
}

/// Whether a plane can be part of a frame.
pub open spec fn plane_fits(plane: ArenaPlaneModel) -> bool {
    plane.data is Some && plane.stride != Some(SIGNIFICANT_BITS_STRIDE)
}

/// Whether the plane at `index` is the first that cannot be part of a frame.
pub open spec fn first_misfit(planes: Seq<ArenaPlaneModel>, index: int) -> bool {
    &&& 0 <= index < planes.len()
    &&& !plane_fits(planes[index])
    &&& forall|j: int| 0 <= j < index ==> plane_fits(#[trigger] planes[j])
}

/// The message that refuses the plane at `index`.
pub open spec fn misfit_message(index: nat) -> Seq<char> {
    "plane "@ + crate::text::decimal(index) + " does not fit its arena"@
}

/// What building a frame out of `planes` comes to: the frame where every plane
/// fits, else the refusal of the first that does not.
pub open spec fn built_frame(
    header: HeaderModel,
    planes: Seq<ArenaPlaneModel>,
    outcome: Result<ArenaFrameModel, ErrorModel>,
) -> bool {
    match outcome {
        Ok(frame) => {
            &&& frame == (ArenaFrameModel { header, planes })
            &&& frame.wf()
        },
        Err(error) => exists|i: int| #[trigger]
            first_misfit(planes, i) && error == ErrorModel::InvalidData(misfit_message(i as nat)),
    }
}

/// The planes that `slots` describe.
spec fn slot_planes(arena: ArenaModel, slots: Seq<PlaneSlot>) -> Seq<ArenaPlaneModel> {
    slots.map_values(
        |slot: PlaneSlot| arena_plane(arena, slot.offset, slot.len, slot.stride),
    )
}

/// The outcome of building a frame, as a mathematical value.
pub open spec fn build_outcome(frame: Result<Frame, Error>) -> Result<
    ArenaFrameModel,
    ErrorModel,
> {
    match frame {
        Ok(f) => Ok(f@),
        Err(error) => Err(error@),
    }
}

impl View for FrameInner {
    type V = ArenaFrameModel;

    closed spec fn view(&self) -> ArenaFrameModel {
        ArenaFrameModel {
            header: self.header@,
            planes: self.planes@.map_values(
                |slot: PlaneSlot| arena_plane(self.arena@, slot.offset, slot.len, slot.stride),
            ),
        }
    }
}

impl FrameInner {
    /// The arena that the planes lie in, which the frame keeps as it got it.
    pub closed spec fn arena(self) -> Arena {
        self.arena
    }

    /// Every frame is well-formed.
    #[verifier::type_invariant]
    spec fn inv(self) -> bool {
        self@.wf()
    }

    /// Freeze `arena` into a frame whose planes are the ranges `planes`, each an
    /// offset and a length. No stride is declared.
    ///
    /// Fails where a plane does not lie in what was allocated of the arena.
    pub fn new(arena: Arena, planes: &[(usize, usize)], header: FrameHeader) -> (frame: Result<
        Frame,
        Error,
    >)
        ensures
            built_frame(
                header@,
                planes@.map_values(|p: (usize, usize)| arena_plane(arena@, p.0, p.1, None)),
                build_outcome(frame),
            ),
            frame is Ok <==> forall|i: int|
                #![trigger planes@[i]]
                0 <= i < planes@.len() ==> planes@[i].0 + planes@[i].1 <= arena@.used
                    && planes@[i].0 + planes@[i].1 <= arena@.bytes.len(),
            frame matches Ok(f) ==> {
                &&& f.arena() == arena
                &&& f@.header == header@
                &&& f@.planes.len() == planes@.len()
                &&& forall|i: int|
                    0 <= i < planes@.len() ==> {
                        &&& (#[trigger] f@.planes[i]).data == Some(
                            arena@.bytes.subrange(
                                planes@[i].0 as int,
                                planes@[i].0 + planes@[i].1,
                            ),
                        )
                        &&& f@.planes[i].stride is None
                    }
            },
            frame matches Err(error) ==> exists|i: int|
                #![trigger planes@[i]]
                {
                    &&& 0 <= i < planes@.len()
                    &&& planes@[i].0 + planes@[i].1 > arena@.used || planes@[i].0 + planes@[i].1
                        > arena@.bytes.len()
                    &&& forall|j: int|
                        #![trigger planes@[j]]
                        0 <= j < i ==> planes@[j].0 + planes@[j].1 <= arena@.used
                            && planes@[j].0 + planes@[j].1 <= arena@.bytes.len()
                    &&& error@ == ErrorModel::InvalidData(
                        "plane "@ + crate::text::decimal(i as nat) + " does not fit its arena"@,
                    )
                },
    {
        let mut slots: Vec<PlaneSlot> = Vec::with_capacity(planes.len());
        let mut i: usize = 0;
        while i < planes.len()
            invariant
                i <= planes.len(),
                slots.len() == i,
                forall|j: int|
                    0 <= j < i ==> (#[trigger] slots@[j]) == (PlaneSlot {
                        offset: planes@[j].0,
                        len: planes@[j].1,
                        stride: None,
                    }),
            decreases planes.len() - i,
        {
            let (offset, len) = planes[i];
            slots.push(PlaneSlot { offset, len, stride: None });
            i += 1;
        }
        let ghost expected = planes@.map_values(
            |p: (usize, usize)| arena_plane(arena@, p.0, p.1, None),
        );
        assert(slot_planes(arena@, slots@) =~= expected);
        let frame = FrameInner::from_slots(arena, slots, header);
        proof {
            if frame is Ok {
                assert forall|i: int| #![trigger planes@[i]] 0 <= i < planes@.len() implies
                    planes@[i].0 + planes@[i].1 <= arena@.used
                    && planes@[i].0 + planes@[i].1 <= arena@.bytes.len() by {
                    assert(expected[i].data is Some);
                }
            } else {
                let i = choose|i: int| #[trigger]
                    first_misfit(expected, i) && frame->Err_0@ == ErrorModel::InvalidData(
                        misfit_message(i as nat),
                    );
                assert(planes@[i].0 + planes@[i].1 > arena@.used || planes@[i].0 + planes@[i].1
                    > arena@.bytes.len());
                assert forall|j: int| #![trigger planes@[j]] 0 <= j < i implies
                    planes@[j].0 + planes@[j].1 <= arena@.used
                    && planes@[j].0 + planes@[j].1 <= arena@.bytes.len() by {
                    assert(plane_fits(expected[j]));
                }
            }
        }
        frame
    }

    /// Freeze `arena` into a frame whose planes are the ranges `planes`, each an
    /// offset and a length, with the stride of each.
    ///
    /// Fails where the number of strides is not that of the planes, where a plane
    /// does not lie in what was allocated of the arena, and where a stride is the
    /// one that marks significant bits.
    pub fn new_with_strides(
        arena: Arena,
        planes: &[(usize, usize)],
        strides: &[usize],
        header: FrameHeader,
    ) -> (frame: Result<Frame, Error>)
        ensures
            if planes@.len() == strides@.len() {
                built_frame(
                    header@,
                    Seq::new(
                        planes@.len(),
                        |i: int|
                            arena_plane(arena@, planes@[i].0, planes@[i].1, Some(strides@[i])),
                    ),
                    build_outcome(frame),
                )
            } else {
                build_outcome(frame) == Err::<ArenaFrameModel, ErrorModel>(
                    ErrorModel::InvalidData("a frame has one stride for each plane"@),
                )
            },
            frame is Ok <==> planes@.len() == strides@.len() && forall|i: int|
                #![trigger planes@[i]]
                0 <= i < planes@.len() ==> planes@[i].0 + planes@[i].1 <= arena@.used
                    && planes@[i].0 + planes@[i].1 <= arena@.bytes.len() && strides@[i]
                    != usize::MAX,
            frame matches Ok(f) ==> {
                &&& f.arena() == arena
                &&& f@.header == header@
                &&& f@.planes.len() == planes@.len()
                &&& forall|i: int|
                    0 <= i < planes@.len() ==> {
                        &&& (#[trigger] f@.planes[i]).data == Some(
                            arena@.bytes.subrange(
                                planes@[i].0 as int,
                                planes@[i].0 + planes@[i].1,
                            ),
                        )
                        &&& f@.planes[i].stride == Some(strides@[i])
                    }
            },
            planes@.len() == strides@.len() ==> (frame matches Err(error) ==> exists|i: int|
                #![trigger planes@[i]]
                {
                    &&& 0 <= i < planes@.len()
                    &&& planes@[i].0 + planes@[i].1 > arena@.used || planes@[i].0 + planes@[i].1
                        > arena@.bytes.len() || strides@[i] == usize::MAX
                    &&& forall|j: int|
                        #![trigger planes@[j]]
                        0 <= j < i ==> planes@[j].0 + planes@[j].1 <= arena@.used
                            && planes@[j].0 + planes@[j].1 <= arena@.bytes.len() && strides@[j]
                            != usize::MAX
                    &&& error@ == ErrorModel::InvalidData(
                        "plane "@ + crate::text::decimal(i as nat) + " does not fit its arena"@,
                    )
                }),
    {
        if planes.len() != strides.len() {
            return Err(Error::invalid("a frame has one stride for each plane".to_owned()));
        }
        let mut slots: Vec<PlaneSlot> = Vec::with_capacity(planes.len());
        let mut i: usize = 0;
        while i < planes.len()
            invariant
                i <= planes.len(),
                planes.len() == strides.len(),
                slots.len() == i,
                forall|j: int|
                    0 <= j < i ==> (#[trigger] slots@[j]) == (PlaneSlot {
                        offset: planes@[j].0,
                        len: planes@[j].1,
                        stride: Some(strides@[j]),
                    }),
            decreases planes.len() - i,
        {
            let (offset, len) = planes[i];
            slots.push(PlaneSlot { offset, len, stride: Some(strides[i]) });
            i += 1;
        }
        let ghost expected = Seq::new(
            planes@.len(),
            |i: int| arena_plane(arena@, planes@[i].0, planes@[i].1, Some(strides@[i])),
        );
        assert(slot_planes(arena@, slots@) =~= expected);
        let frame = FrameInner::from_slots(arena, slots, header);
        proof {
            if frame is Ok {
                assert forall|i: int| #![trigger planes@[i]] 0 <= i < planes@.len() implies
                    planes@[i].0 + planes@[i].1 <= arena@.used
                    && planes@[i].0 + planes@[i].1 <= arena@.bytes.len() && strides@[i]
                    != usize::MAX by {
                    assert(expected[i].data is Some);
                }
            } else {
                let i = choose|i: int| #[trigger]
                    first_misfit(expected, i) && frame->Err_0@ == ErrorModel::InvalidData(
                        misfit_message(i as nat),
                    );
                assert(planes@[i].0 + planes@[i].1 > arena@.used || planes@[i].0 + planes@[i].1
                    > arena@.bytes.len() || strides@[i] == usize::MAX);
                assert forall|j: int| #![trigger planes@[j]] 0 <= j < i implies
                    planes@[j].0 + planes@[j].1 <= arena@.used
                    && planes@[j].0 + planes@[j].1 <= arena@.bytes.len() && strides@[j]
                    != usize::MAX by {
                    assert(plane_fits(expected[j]));
                }
            }
        }
        frame
    }

    fn from_slots(arena: Arena, planes: Vec<PlaneSlot>, header: FrameHeader) -> (frame: Result<
        Frame,
        Error,
    >)
        ensures
            built_frame(header@, slot_planes(arena@, planes@), build_outcome(frame)),
            frame matches Ok(f) ==> f.arena() == arena,
    {
        let ghost model = slot_planes(arena@, planes@);
        let mut i: usize = 0;
        while i < planes.len()
            invariant
                i <= planes.len(),
                model == slot_planes(arena@, planes@),
                forall|j: int| 0 <= j < i ==> plane_fits(#[trigger] model[j]),
            decreases planes.len() - i,
        {
            let slot = &planes[i];
            let marked = match slot.stride {
                Some(stride) => stride == SIGNIFICANT_BITS_STRIDE,
                None => false,
            };
            if marked || !arena.is_allocated(slot.offset, slot.len) {
                assert(!plane_fits(model[i as int]));
                assert(first_misfit(model, i as int));
                let mut message = "plane ".to_owned();
                message.append(decimal_text(i as u64).as_str());
                message.append(" does not fit its arena");
                return Err(Error::invalid(message));
            }
            assert(plane_fits(model[i as int]));
            i += 1;
        }
        let inner = FrameInner { arena, planes, header };
        assert(inner@ =~= (ArenaFrameModel { header: header@, planes: model }));
        Ok(Arc::new(inner))
    }

    /// The picture parameters.
    pub fn header(&self) -> (header: &FrameHeader)
        ensures
            header@ == self@.header,
            self@.wf(),
    {
        proof {
            use_type_invariant(self);
        }
        &self.header
    }

    /// How many planes the picture has.
    pub fn plane_count(&self) -> (count: usize)
        ensures
            count == self@.planes.len(),
    {
        self.planes.len()
    }

    /// The bytes of the plane at `index`, where there is such a plane.
    pub fn plane(&self, index: usize) -> (data: Option<&[u8]>)
        ensures
            match data {
                Some(bytes) => self@.plane(index as int) == Some(bytes@),
                None => self@.plane(index as int) is None,
            },
            data is Some <==> index < self@.planes.len(),
            data matches Some(bytes) ==> self@.planes[index as int].data == Some(bytes@),
    {
        proof {
            use_type_invariant(self);
        }
        if index < self.planes.len() {
            let slot = &self.planes[index];
            if self.arena.is_allocated(slot.offset, slot.len) {
                return Some(
                    slice_subrange(
                        self.arena.storage.as_slice(),
                        slot.offset,
                        slot.offset + slot.len,
                    ),
                );
            }
        }
        None
    }

    /// The stride that was declared for the plane at `index`, where one was.
    pub fn plane_stride(&self, index: usize) -> (stride: Option<usize>)
        ensures
            stride == self@.plane_stride(index as int),
            stride == if index < self@.planes.len() {
                self@.planes[index as int].stride
            } else {
                None
            },
    {
        if index < self.planes.len() {
            self.planes[index].stride
        } else {
            None
        }
    }
}

} // verus!
