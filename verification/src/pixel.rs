//! Pixel formats and the row sizes that follow from them.

use vstd::prelude::*;

verus! {

/// How the samples of a picture are laid out in its planes.
#[derive(Clone, Copy, Debug, PartialEq, Eq, Structural)]
pub enum PixelFormat {
    /// One plane of 8-bit luma.
    Gray8,
    /// One plane of 16-bit little-endian luma.
    Gray16Le,
    /// One plane of packed 8-bit red, green and blue.
    Rgb24,
    /// One plane of packed 8-bit red, green, blue and alpha.
    Rgba,
    /// Luma and two chroma planes, chroma halved in both directions.
    Yuv420P,
    /// Luma and two chroma planes, chroma halved horizontally.
    Yuv422P,
    /// Luma and two chroma planes of full size.
    Yuv444P,
    /// Luma and one plane of interleaved chroma, chroma halved in both directions.
    Nv12,
}

/// How one row of a plane is built: the row is split into groups of `columns`
/// picture columns, the last of which may be incomplete, and each group takes
/// `bytes` bytes.
pub struct RowLayout {
    pub columns: nat,
    pub bytes: nat,
}

impl PixelFormat {
    /// The row layout of the plane at `index`, where the format has such a plane.
    pub open spec fn row_layout(self, index: nat) -> Option<RowLayout> {
        match self {
            PixelFormat::Gray8 => if index == 0 {
                Some(RowLayout { columns: 1, bytes: 1 })
            } else {
                None
            },
            PixelFormat::Gray16Le => if index == 0 {
                Some(RowLayout { columns: 1, bytes: 2 })
            } else {
                None
            },
            PixelFormat::Rgb24 => if index == 0 {
                Some(RowLayout { columns: 1, bytes: 3 })
            } else {
                None
            },
            PixelFormat::Rgba => if index == 0 {
                Some(RowLayout { columns: 1, bytes: 4 })
            } else {
                None
            },
            PixelFormat::Yuv420P | PixelFormat::Yuv422P => if index == 0 {
                Some(RowLayout { columns: 1, bytes: 1 })
            } else if index <= 2 {
                Some(RowLayout { columns: 2, bytes: 1 })
            } else {
                None
            },
            PixelFormat::Yuv444P => if index <= 2 {
                Some(RowLayout { columns: 1, bytes: 1 })
            } else {
                None
            },
            PixelFormat::Nv12 => if index == 0 {
                Some(RowLayout { columns: 1, bytes: 1 })
            } else if index == 1 {
                Some(RowLayout { columns: 2, bytes: 2 })
            } else {
                None
            },
        }
    }

    /// The bytes of one tightly packed row of the plane at `index`. There is no
    /// such number where the format has no such plane, nor where a row would
    /// exceed half the address space, which no allocation can hold.
    pub open spec fn row_bytes(self, index: nat, width: u32) -> Option<nat> {
        match self.row_layout(index) {
            Some(layout) => {
                let groups = (width as nat + layout.columns - 1) as nat / layout.columns;
                let bytes = groups * layout.bytes;
                if bytes <= usize::MAX / 2 {
                    Some(bytes)
                } else {
                    None
                }
            },
            None => None,
        }
    }

    /// The name of the format.
    pub open spec fn spec_name(self) -> Seq<char> {
        match self {
            PixelFormat::Gray8 => "Gray8"@,
            PixelFormat::Gray16Le => "Gray16Le"@,
            PixelFormat::Rgb24 => "Rgb24"@,
            PixelFormat::Rgba => "Rgba"@,
            PixelFormat::Yuv420P => "Yuv420P"@,
            PixelFormat::Yuv422P => "Yuv422P"@,
            PixelFormat::Yuv444P => "Yuv444P"@,
            PixelFormat::Nv12 => "Nv12"@,
        }
    }

    /// The bytes of one tightly packed row of the plane at `index`, where the
    /// format has such a plane and its row can be held in memory.
    pub fn plane_row_bytes(self, index: usize, width: u32) -> (bytes: Option<usize>)
        ensures
            match bytes {
                Some(n) => self.row_bytes(index as nat, width) == Some(n as nat),
                None => self.row_bytes(index as nat, width) is None,
            },
    {
        let full: u64 = width as u64;
        let half: u64 = (full + 1) / 2;
        let bytes: u64 = match self {
            PixelFormat::Gray8 => if index == 0 {
                full
            } else {
                return None;
            },
            PixelFormat::Gray16Le => if index == 0 {
                full * 2
            } else {
                return None;
            },
            PixelFormat::Rgb24 => if index == 0 {
                full * 3
            } else {
                return None;
            },
            PixelFormat::Rgba => if index == 0 {
                full * 4
            } else {
                return None;
            },
            PixelFormat::Yuv420P | PixelFormat::Yuv422P => if index == 0 {
                full
            } else if index <= 2 {
                half
            } else {
                return None;
            },
            PixelFormat::Yuv444P => if index <= 2 {
                full
            } else {
                return None;
            },
            PixelFormat::Nv12 => if index == 0 {
                full
            } else if index == 1 {
                half * 2
            } else {
                return None;
            },
        };
        proof {
            let layout = self.row_layout(index as nat)->0;
            let groups = (width as nat + layout.columns - 1) as nat / layout.columns;
            if layout.columns == 1 {
                assert(groups == full) by (nonlinear_arith)
                    requires
                        layout.columns == 1,
                        groups == (full + layout.columns - 1) as nat / layout.columns,
                ;
            } else {
                assert(groups == half) by (nonlinear_arith)
                    requires
                        layout.columns == 2,
                        groups == (full + layout.columns - 1) as nat / layout.columns,
                        half == (full + 1) / 2,
                ;
            }
            assert(groups * layout.bytes == bytes) by (nonlinear_arith)
                requires
                    1 <= layout.bytes <= 4,
                    layout.bytes == 1 ==> bytes == groups,
                    layout.bytes == 2 ==> bytes == groups * 2,
                    layout.bytes == 3 ==> bytes == groups * 3,
                    layout.bytes == 4 ==> bytes == groups * 4,
            ;
        }
        if bytes <= (usize::MAX / 2) as u64 {
            Some(bytes as usize)
        } else {
            None
        }
    }

    /// The name of the format.
    pub fn name(self) -> (name: &'static str)
        ensures
            name@ == self.spec_name(),
    {
        match self {
            PixelFormat::Gray8 => "Gray8",
            PixelFormat::Gray16Le => "Gray16Le",
            PixelFormat::Rgb24 => "Rgb24",
            PixelFormat::Rgba => "Rgba",
            PixelFormat::Yuv420P => "Yuv420P",
            PixelFormat::Yuv422P => "Yuv422P",
            PixelFormat::Yuv444P => "Yuv444P",
            PixelFormat::Nv12 => "Nv12",
        }
    }
}

} // verus!
