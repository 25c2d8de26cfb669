//! Buffer adapter: the byte geometry of a decoded frame, in the shape the OCR
//! call takes it.
//!
//! The decoder owns the pixels. The adapter only says how many bytes the
//! frame spans and hands out a view of exactly those bytes, without copying.

use vstd::prelude::*;
use vstd::slice::slice_subrange;

verus! {

/// What the decoder reports of a frame, unchecked.
#[derive(Clone, Copy, Debug, PartialEq, Eq, Structural)]
pub struct FrameGeometry {
    /// Width in pixels.
    pub width: i32,
    /// Height in pixels, which is the number of rows.
    pub height: i32,
    /// Bits per pixel of the frame's pixel format.
    pub bits_per_pixel: i32,
    /// Bytes from the start of one row to the start of the next; padding
    /// may make it larger than a row's pixels.
    pub row_stride: i32,
}

/// What is wrong with a frame's geometry.
#[derive(Clone, Copy, Debug, PartialEq, Eq, Structural)]
pub enum GeometryError {
    /// The width or the height is not positive.
    EmptyFrame,
    /// A pixel takes less than one byte.
    UnsupportedPixelFormat,
    /// A row of the stride given cannot hold the pixels of one row.
    RowTooShort,
    /// The buffer would span more bytes than the OCR call can be told.
    TooLarge,
}

/// The checked geometry of a frame's buffer.
#[derive(Clone, Copy, Debug, PartialEq, Eq)]
pub struct BufferLayout {
    length: usize,
    width: i32,
    height: i32,
    bytes_per_pixel: i32,
    row_stride: i32,
}

impl FrameGeometry {
    /// Bytes per pixel: the bits of a pixel, divided by 8.
    pub open spec fn bytes_per_pixel(self) -> int {
        self.bits_per_pixel as int / 8
    }

    /// Bytes that the buffer spans: one stride for each row.
    pub open spec fn buffer_length(self) -> int {
        self.row_stride * self.height
    }

    /// The first thing that is wrong with the geometry, if anything is.
    pub open spec fn defect(self) -> Option<GeometryError> {
        if self.width <= 0 || self.height <= 0 {
            Some(GeometryError::EmptyFrame)
        } else if self.bits_per_pixel < 8 {
            Some(GeometryError::UnsupportedPixelFormat)
        } else if self.row_stride < self.width * self.bytes_per_pixel() {
            Some(GeometryError::RowTooShort)
        } else if self.buffer_length() > i32::MAX {
            Some(GeometryError::TooLarge)
        } else {
            None
        }
    }

    /// Checks the geometry and computes the layout of the frame's buffer.
    pub fn layout(&self) -> (r: Result<BufferLayout, GeometryError>)
        ensures
            match r {
                Ok(layout) => {
                    &&& self.defect() is None
                    &&& layout.sound()
                    &&& layout.length() == self.buffer_length()
                    &&& layout.width() == self.width
                    &&& layout.height() == self.height
                    &&& layout.bytes_per_pixel() == self.bytes_per_pixel()
                    &&& layout.row_stride() == self.row_stride
                },
                Err(error) => self.defect() == Some(error),
            },
    {
        if self.width <= 0 || self.height <= 0 {
            return Err(GeometryError::EmptyFrame);
        }
        if self.bits_per_pixel < 8 {
            return Err(GeometryError::UnsupportedPixelFormat);
        }
        let bytes_per_pixel: i32 = self.bits_per_pixel / 8;
        assert(0 < self.width * bytes_per_pixel <= 0x7fff_ffff * 0x1000_0000) by (nonlinear_arith)
            requires
                0 < self.width <= 0x7fff_ffff,
                0 < bytes_per_pixel <= 0x1000_0000,
        ;
        let row_bytes: i64 = self.width as i64 * bytes_per_pixel as i64;
        if (self.row_stride as i64) < row_bytes {
            return Err(GeometryError::RowTooShort);
        }
        assert(0 < self.row_stride * self.height <= 0x7fff_ffff * 0x7fff_ffff) by (nonlinear_arith)
            requires
                0 < self.row_stride <= 0x7fff_ffff,
                0 < self.height <= 0x7fff_ffff,
        ;
        let length: i64 = self.row_stride as i64 * self.height as i64;
        if length > i32::MAX as i64 {
            return Err(GeometryError::TooLarge);
        }
        Ok(
            BufferLayout {
                length: length as usize,
                width: self.width,
                height: self.height,
                bytes_per_pixel,
                row_stride: self.row_stride,
            },
        )
    }
}

impl BufferLayout {
    #[verifier::type_invariant]
    spec fn consistent(self) -> bool {
        &&& self.width > 0
        &&& self.height > 0
        &&& self.bytes_per_pixel > 0
        &&& self.width * self.bytes_per_pixel <= self.row_stride
        &&& self.length == self.row_stride * self.height
        &&& self.length <= i32::MAX
    }

    /// Bytes that the buffer spans.
    pub closed spec fn length(self) -> int {
        self.length as int
    }

    /// Width in pixels.
    pub closed spec fn width(self) -> int {
        self.width as int
    }

    /// Height in pixels.
    pub closed spec fn height(self) -> int {
        self.height as int
    }

    /// Bytes that one pixel takes.
    pub closed spec fn bytes_per_pixel(self) -> int {
        self.bytes_per_pixel as int
    }

    /// Bytes from one row to the next.
    pub closed spec fn row_stride(self) -> int {
        self.row_stride as int
    }

    /// What every layout satisfies: the frame is not empty, a row holds its
    /// pixels, the buffer spans one stride for each row, and each of these
    /// numbers fits the 32-bit signed integers of the OCR call.
    pub open spec fn sound(self) -> bool {
        &&& self.width() > 0
        &&& self.height() > 0
        &&& self.bytes_per_pixel() > 0
        &&& self.width() * self.bytes_per_pixel() <= self.row_stride()
        &&& self.length() == self.row_stride() * self.height()
        &&& self.length() <= i32::MAX
    }

    /// Bytes that the buffer spans: `row_stride * height`.
    pub fn buffer_length(&self) -> (length: usize)
        ensures
            length == self.length(),
            self.sound(),
    {
        proof {
            use_type_invariant(self);
        }
        self.length
    }

    /// Width in pixels.
    pub fn frame_width(&self) -> (width: i32)
        ensures
            width == self.width(),
            self.sound(),
    {
        proof {
            use_type_invariant(self);
        }
        self.width
    }

    /// Height in pixels.
    pub fn frame_height(&self) -> (height: i32)
        ensures
            height == self.height(),
            self.sound(),
    {
        proof {
            use_type_invariant(self);
        }
        self.height
    }

    /// Bytes that one pixel takes.
    pub fn pixel_bytes(&self) -> (bytes: i32)
        ensures
            bytes == self.bytes_per_pixel(),
            self.sound(),
    {
        proof {
            use_type_invariant(self);
        }
        self.bytes_per_pixel
    }

    /// Bytes from one row to the next.
    pub fn stride(&self) -> (stride: i32)
        ensures
            stride == self.row_stride(),
            self.sound(),
    {
        proof {
            use_type_invariant(self);
        }
        self.row_stride
    }

    /// The bytes of the frame within `data`, the decoder's buffer: its first
    /// `length()` bytes, borrowed for as long as `data` is. There is no view
    /// where the buffer is shorter than the frame.
    pub fn view<'a>(&self, data: &'a [u8]) -> (r: Option<&'a [u8]>)
        ensures
            r is Some <==> self.length() <= data@.len(),
            r matches Some(bytes) ==> bytes@ == data@.subrange(0, self.length()),
    {
        if self.length <= data.len() {
            Some(slice_subrange(data, 0, self.length))
        } else {
            None
        }
    }
}

} // verus!
