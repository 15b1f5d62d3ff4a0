//! What holds of arenas and of the frames that live in them.

use vstd::prelude::*;

use crate::arena::sync::{
    arena_plane,
    ArenaFrameModel,
    ArenaModel,
    ArenaPool,
    Frame,
    FrameHeader,
    HeaderModel,
};
use crate::error::{Error, ErrorModel};

verus! {

/// A fresh arena has the size asked for, holds zeros only, and has nothing
/// allocated.
pub proof fn fresh_arena_is_zeroed_and_unused(size: nat)
    ensures
        ArenaModel::fresh(size).bytes.len() == size,
        forall|i: int| 0 <= i < size ==> #[trigger] ArenaModel::fresh(size).bytes[i] == 0,
        ArenaModel::fresh(size).used == 0,
{
}

/// An arena has room for as many bytes as its size exceeds what is allocated.
pub proof fn arena_has_room_up_to_its_size(arena: ArenaModel, count: nat)
    ensures
        arena.has_room(count) <==> arena.used + count <= arena.bytes.len(),
        arena.full_message(count) == "arena has no room for "@ + crate::text::decimal(count)
            + " more bytes"@,
{
}

/// A range is allocated where it ends within what was allocated of the arena.
pub proof fn allocated_ranges_end_in_what_is_used(arena: ArenaModel, offset: nat, len: nat)
    ensures
        arena.allocated(offset, len) <==> offset + len <= arena.used && offset + len
            <= arena.bytes.len(),
{
}

/// The plane at an allocated range holds the bytes of that range: its byte at any
/// position is the byte of the arena that far behind the offset.
pub proof fn plane_is_its_range_of_the_arena(
    arena: ArenaModel,
    offset: usize,
    len: usize,
    stride: Option<usize>,
)
    ensures
        ({
            let plane = arena_plane(arena, offset, len, stride);
            &&& plane.stride == stride
            &&& plane.data is Some <==> offset + len <= arena.used && offset + len
                <= arena.bytes.len()
            &&& plane.data matches Some(bytes) ==> {
                &&& bytes == arena.bytes.subrange(offset as int, offset + len)
                &&& bytes.len() == len
                &&& forall|k: int|
                    0 <= k < len ==> #[trigger] bytes[k] == arena.bytes[offset + k]
            }
        }),
{
}

/// A frame gives out the planes it has, each with its bytes and its stride, and
/// none besides.
pub proof fn frame_gives_out_its_planes(frame: ArenaFrameModel, index: int)
    ensures
        0 <= index < frame.planes.len() ==> {
            &&& frame.plane(index) == frame.planes[index].data
            &&& frame.plane_stride(index) == frame.planes[index].stride
        },
        !(0 <= index < frame.planes.len()) ==> {
            &&& frame.plane(index) is None
            &&& frame.plane_stride(index) is None
        },
{
}

/// A frame is well-formed where each plane has its bytes and none has the largest
/// stride there is.
pub proof fn frame_is_well_formed_by_its_planes(frame: ArenaFrameModel)
    ensures
        frame.wf() <==> forall|i: int|
            0 <= i < frame.planes.len() ==> {
                &&& (#[trigger] frame.planes[i]).data is Some
                &&& frame.planes[i].stride != Some(usize::MAX)
            },
{
}

/// An outcome of building a frame is that of the result.
pub proof fn build_outcome_is_that_of_the_result(frame: Result<Frame, Error>)
    ensures
        match frame {
            Ok(f) => crate::arena::sync::build_outcome(frame) == Ok::<ArenaFrameModel, ErrorModel>(
                f@,
            ),
            Err(error) => crate::arena::sync::build_outcome(frame) == Err::<
                ArenaFrameModel,
                ErrorModel,
            >(error@),
        },
{
}

/// A pool refuses a lease with the number of its arenas.
pub proof fn refused_lease_names_the_number_of_arenas(pool: ArenaPool)
    ensures
        pool.exhausted_message() == "all "@ + crate::text::decimal(pool.max_arenas())
            + " arenas of the pool are in use"@,
{
}

/// The model of a header has each of its fields.
pub proof fn header_model_is_the_header(header: FrameHeader)
    ensures
        header@.width == header.width,
        header@.height == header.height,
        header@.pixel_format == header.pixel_format,
        header@.presentation_timestamp == header.presentation_timestamp,
        match header.significant_bits {
            Some(bits) => header@.significant_bits == Some(bits@),
            None => header@.significant_bits is None,
        },
{
}

/// Significant bits are one to four numbers, none of them zero.
pub proof fn significant_bits_are_one_to_four_numbers(bits: Seq<u8>)
    ensures
        crate::arena::sync::valid_significant_bits(bits) <==> 1 <= bits.len() <= 4 && forall|
            i: int,
        |
            0 <= i < bits.len() ==> bits[i] != 0,
{
}

/// The text of a header shows each of its fields.
pub proof fn header_text_shows_the_header(header: HeaderModel)
    ensures
        header.debug_text() == "FrameHeader { width: "@ + crate::text::decimal(
            header.width as nat,
        ) + ", height: "@ + crate::text::decimal(header.height as nat) + ", pixel_format: "@
            + header.pixel_format.spec_name() + ", presentation_timestamp: "@
            + crate::text::optional_timestamp(header.presentation_timestamp)
            + ", significant_bits: "@ + match header.significant_bits {
            Some(bits) => "Some("@ + crate::text::byte_list(bits) + ")"@,
            None => "None"@,
        } + " }"@,
{
}

} // verus!
