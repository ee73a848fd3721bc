//! Decisions shared by the Wayland capture backends: how a pixel of a `wl_shm`
//! buffer is read, and how large a buffer must be to hold a frame.

use vstd::prelude::*;
use vstd::string::*;

use crate::domain::error::{outcome, AppError, AppErrorView};
use crate::domain::text::{decimal, decimal_text};

verus! {

// ── pixel formats ──────────────────────────────────────────────────────────

/// A `wl_shm` pixel format.
#[derive(Debug, Clone, Copy, PartialEq, Eq, Structural)]
pub enum Format {
    Argb8888,
    Xrgb8888,
    Xbgr8888,
    Abgr8888,
    Rgb888,
    Bgr888,
    /// Any other format of the protocol, by its code on the wire.
    Other(u32),
}

/// A `wl_shm` format as a compositor announces it.
#[derive(Debug, Clone, Copy, PartialEq, Eq, Structural)]
pub enum WEnum {
    /// A format that the protocol defines.
    Value(Format),
    /// A code that the protocol does not define.
    Unknown(u32),
}

/// The format with the wire code `code`.
pub open spec fn format_of(code: u32) -> Format {
    if code == 0 {
        Format::Argb8888
    } else if code == 1 {
        Format::Xrgb8888
    } else if code == 0x34324258 {
        Format::Xbgr8888
    } else if code == 0x34324241 {
        Format::Abgr8888
    } else if code == 0x34324752 {
        Format::Rgb888
    } else if code == 0x34324742 {
        Format::Bgr888
    } else {
        Format::Other(code)
    }
}

/// The text that the Wayland protocol crate prints for the format with wire code
/// `code`.
pub uninterp spec fn shm_format_debug(code: u32) -> Seq<char>;

/// The `Debug` text of `wayland_client`'s `wl_shm::Format` with wire code `code`,
/// as its conversion from `u32` finds it; for a code without a format, the text
/// of the code. The contract claims that the text depends on the code alone, and
/// leaves open which text it is.
#[verifier::external_body]
fn debug_format(code: u32) -> (text: String)
    ensures
        text@ == shm_format_debug(code),
{
    match wayland_client::WEnum::<wayland_client::protocol::wl_shm::Format>::from(code) {
        wayland_client::WEnum::Value(format) => format!("{format:?}"),
        wayland_client::WEnum::Unknown(code) => format!("{code:?}"),
    }
}

/// The name of a format in messages.
pub open spec fn format_name(format: Format) -> Seq<char> {
    match format {
        Format::Argb8888 => "Argb8888"@,
        Format::Xrgb8888 => "Xrgb8888"@,
        Format::Xbgr8888 => "Xbgr8888"@,
        Format::Abgr8888 => "Abgr8888"@,
        Format::Rgb888 => "Rgb888"@,
        Format::Bgr888 => "Bgr888"@,
        Format::Other(code) => shm_format_debug(code),
    }
}

impl Format {
    /// The format with the wire code `code`.
    pub fn from_code(code: u32) -> (format: Format)
        ensures
            format == format_of(code),
    {
        match code {
            0 => Format::Argb8888,
            1 => Format::Xrgb8888,
            0x34324258 => Format::Xbgr8888,
            0x34324241 => Format::Abgr8888,
            0x34324752 => Format::Rgb888,
            0x34324742 => Format::Bgr888,
            _ => Format::Other(code),
        }
    }

    /// The name of the format in messages.
    pub fn name(self) -> (name: String)
        ensures
            name@ == format_name(self),
    {
        match self {
            Format::Argb8888 => "Argb8888".to_owned(),
            Format::Xrgb8888 => "Xrgb8888".to_owned(),
            Format::Xbgr8888 => "Xbgr8888".to_owned(),
            Format::Abgr8888 => "Abgr8888".to_owned(),
            Format::Rgb888 => "Rgb888".to_owned(),
            Format::Bgr888 => "Bgr888".to_owned(),
            Format::Other(code) => debug_format(code),
        }
    }
}

// ── reading pixels ─────────────────────────────────────────────────────────

/// The bytes that one pixel takes; zero for a format that cannot be read.
pub open spec fn pixel_size(format: WEnum) -> nat {
    match format {
        WEnum::Value(Format::Argb8888) => 4,
        WEnum::Value(Format::Xrgb8888) => 4,
        WEnum::Value(Format::Abgr8888) => 4,
        WEnum::Value(Format::Xbgr8888) => 4,
        WEnum::Value(Format::Rgb888) => 3,
        WEnum::Value(Format::Bgr888) => 3,
        _ => 0,
    }
}

/// Return the number of bytes occupied by one pixel in a wl_shm format.
pub fn bytes_per_pixel(format: WEnum) -> (size: usize)
    ensures
        size == pixel_size(format),
{
    match format {
        WEnum::Value(
            Format::Argb8888 | Format::Xrgb8888 | Format::Abgr8888 | Format::Xbgr8888,
        ) => 4,
        WEnum::Value(Format::Rgb888 | Format::Bgr888) => 3,
        _ => 0,
    }
}

/// A pixel as red, green, blue and alpha.
#[derive(Debug, Clone, Copy, PartialEq, Eq)]
pub struct Rgba(pub [u8; 4]);

impl View for Rgba {
    type V = Seq<u8>;

    open spec fn view(&self) -> Seq<u8> {
        self.0@
    }
}

/// Why no pixel stands at an offset.
#[derive(Debug, Clone, Copy, PartialEq, Eq, Structural)]
pub enum PixelError {
    /// The end of the pixel is beyond any address.
    OffsetOverflow,
    /// The pixel does not lie in the buffer, or its format cannot be read.
    OutOfBounds,
}

/// Red, green, blue and alpha of the pixel whose bytes are `bytes`.
///
/// The byte orders are those of a little-endian `wl_shm` buffer. A format without
/// an alpha channel is opaque.
pub open spec fn channels(bytes: Seq<u8>, format: Format) -> Seq<u8> {
    match format {
        Format::Argb8888 => seq![bytes[2], bytes[1], bytes[0], bytes[3]],
        Format::Xrgb8888 => seq![bytes[2], bytes[1], bytes[0], 255],
        Format::Abgr8888 => seq![bytes[0], bytes[1], bytes[2], bytes[3]],
        Format::Xbgr8888 => seq![bytes[0], bytes[1], bytes[2], 255],
        Format::Rgb888 => seq![bytes[0], bytes[1], bytes[2], 255],
        Format::Bgr888 => seq![bytes[2], bytes[1], bytes[0], 255],
        Format::Other(_) => transparent_black(),
    }
}

/// The pixel that stands for one that cannot be read.
pub open spec fn transparent_black() -> Seq<u8> {
    seq![0, 0, 0, 0]
}

/// What is found at byte `offset` of `data`: the channels of the pixel there, or
/// why there is none.
pub open spec fn pixel_at(data: Seq<u8>, offset: nat, format: WEnum) -> Result<
    Seq<u8>,
    PixelError,
> {
    let end = offset + pixel_size(format);
    if end > usize::MAX {
        Err(PixelError::OffsetOverflow)
    } else {
        match format {
            WEnum::Value(known) if pixel_size(format) > 0 && end <= data.len() => Ok(
                channels(data.subrange(offset as int, end as int), known),
            ),
            _ => Err(PixelError::OutOfBounds),
        }
    }
}

/// The pixel that is shown for byte `offset` of `data`.
pub open spec fn rgba_at(data: Seq<u8>, offset: nat, format: WEnum) -> Seq<u8> {
    match pixel_at(data, offset, format) {
        Ok(pixel) => pixel,
        Err(_) => transparent_black(),
    }
}

/// Convert a pixel at byte `offset` in `data` to RGBA, or say why there is none.
pub fn decode_pixel(data: &[u8], offset: usize, format: WEnum) -> (pixel: Result<Rgba, PixelError>)
    ensures
        match pixel {
            Ok(rgba) => pixel_at(data@, offset as nat, format) == Ok::<Seq<u8>, PixelError>(rgba@),
            Err(error) => pixel_at(data@, offset as nat, format) == Err::<Seq<u8>, PixelError>(
                error,
            ),
        },
{
    let size: usize = bytes_per_pixel(format);
    let end: usize = match offset.checked_add(size) {
        Some(end) => end,
        None => {
            return Err(PixelError::OffsetOverflow);
        },
    };
    if size == 0 || end > data.len() {
        return Err(PixelError::OutOfBounds);
    }
    let ghost bytes = data@.subrange(offset as int, end as int);
    let b0: u8 = data[offset];
    let b1: u8 = data[offset + 1];
    let b2: u8 = data[offset + 2];
    let rgba = match format {
        WEnum::Value(Format::Argb8888) => Rgba([b2, b1, b0, data[offset + 3]]),
        WEnum::Value(Format::Xrgb8888) => Rgba([b2, b1, b0, 255]),
        WEnum::Value(Format::Abgr8888) => Rgba([b0, b1, b2, data[offset + 3]]),
        WEnum::Value(Format::Xbgr8888) => Rgba([b0, b1, b2, 255]),
        WEnum::Value(Format::Rgb888) => Rgba([b0, b1, b2, 255]),
        WEnum::Value(Format::Bgr888) => Rgba([b2, b1, b0, 255]),
        _ => Rgba([0, 0, 0, 0]),
    };
    proof {
        if let WEnum::Value(known) = format {
            assert(rgba@ =~= channels(bytes, known));
        }
    }
    Ok(rgba)
}

/// Convert a pixel at byte `offset` in `data` to RGBA based on the wl_shm format.
///
/// Wayland shm format memory layout (little-endian):
/// - ARGB8888: bytes = [Blue, Green, Red, Alpha]  → real alpha
/// - XRGB8888: bytes = [Blue, Green, Red, X]      → alpha forced to 255
/// - ABGR8888: bytes = [Red, Green, Blue, Alpha]  → real alpha
/// - XBGR8888: bytes = [Red, Green, Blue, X]      → alpha forced to 255
/// - RGB888: bytes = [Red, Green, Blue]            → alpha forced to 255
/// - BGR888: bytes = [Blue, Green, Red]            → alpha forced to 255
///
/// A pixel that cannot be read is transparent black; [`decode_pixel`] says why.
pub fn read_pixel_rgba(data: &[u8], offset: usize, format: WEnum) -> (rgba: Rgba)
    ensures
        rgba@ == rgba_at(data@, offset as nat, format),
        rgba@ == match pixel_at(data@, offset as nat, format) {
            Ok(pixel) => pixel,
            Err(_) => transparent_black(),
        },
{
    match decode_pixel(data, offset, format) {
        Ok(rgba) => rgba,
        Err(_) => {
            let rgba = Rgba([0, 0, 0, 0]);
            assert(rgba@ =~= transparent_black());
            rgba
        },
    }
}

// ── laying out a buffer ────────────────────────────────────────────────────

/// The numbers that a frame's shared-memory buffer is made with.
#[derive(Debug, Clone, Copy, PartialEq, Eq, Structural)]
pub struct ShmLayout {
    /// Length of the memory file and of its mapping.
    pub size: usize,
    /// Size given to `wl_shm.create_pool`.
    pub pool_size: i32,
    /// Width given to `wl_shm_pool.create_buffer`.
    pub width: i32,
    /// Height given to `wl_shm_pool.create_buffer`.
    pub height: i32,
    /// Stride given to `wl_shm_pool.create_buffer`.
    pub stride: i32,
}

/// `x` as a signed 32-bit number with the same bits.
pub open spec fn wrapped(x: u32) -> int {
    if x <= i32::MAX {
        x as int
    } else {
        x - 0x1_0000_0000
    }
}

/// The error of a format that no buffer can be laid out for, by the format's name.
pub open spec fn unsupported(name: Seq<char>) -> AppErrorView {
    AppErrorView::Wayland("unsupported wl_shm format for buffer allocation: "@ + name)
}

/// The layout of a buffer of `height` rows of `stride` bytes, each of which holds
/// `width` pixels, or what stands in its way.
pub open spec fn layout_of(width: u32, height: u32, stride: u32, format: Format) -> Result<
    ShmLayout,
    AppErrorView,
> {
    let pixel = pixel_size(WEnum::Value(format));
    let row = width * pixel;
    let size = stride * height;
    if pixel == 0 {
        Err(unsupported(format_name(format)))
    } else if row > usize::MAX {
        Err(
            AppErrorView::Wayland(
                "invalid buffer dimensions: width "@ + decimal(width as nat) + " * "@ + decimal(
                    pixel,
                ) + " overflows usize"@,
            ),
        )
    } else if stride < row {
        Err(
            AppErrorView::Wayland(
                "invalid stride: stride="@ + decimal(stride as nat) + " width="@ + decimal(
                    width as nat,
                ) + " (expected ≥"@ + decimal(row as nat) + ")"@,
            ),
        )
    } else if size > usize::MAX {
        Err(
            AppErrorView::Wayland(
                "buffer size overflow: stride="@ + decimal(stride as nat) + " * height="@
                    + decimal(height as nat),
            ),
        )
    } else if size > i32::MAX {
        Err(
            AppErrorView::Wayland(
                "shm pool size too large: "@ + decimal(size as nat) + " bytes (max "@ + decimal(
                    i32::MAX as nat,
                ) + ")"@,
            ),
        )
    } else {
        Ok(
            ShmLayout {
                size: size as usize,
                pool_size: size as i32,
                width: wrapped(width) as i32,
                height: wrapped(height) as i32,
                stride: wrapped(stride) as i32,
            },
        )
    }
}

/// `x` as a signed 32-bit number with the same bits.
fn wrap_i32(x: u32) -> (y: i32)
    ensures
        y == wrapped(x),
{
    assert(x <= 0x7fff_ffffu32 ==> (x as i32) == x) by (bit_vector);
    assert(x > 0x7fff_ffffu32 ==> (x as i32) == x - 0x1_0000_0000) by (bit_vector);
    #[verifier::truncate]
    (x as i32)
}

/// The error of a format that no buffer can be laid out for, by the format's name.
pub fn unsupported_format(name: &str) -> (error: AppError)
    ensures
        error@ == unsupported(name@),
{
    let mut text = "unsupported wl_shm format for buffer allocation: ".to_owned();
    text.append(name);
    AppError::Wayland(text)
}

/// Lay out a shared-memory buffer for a screencopy or toplevel-export frame.
///
/// Validates the stride, then computes the size of the memory.
pub fn shm_layout(width: u32, height: u32, stride: u32, format: Format) -> (layout: Result<
    ShmLayout,
    AppError,
>)
    ensures
        outcome(layout) == layout_of(width, height, stride, format),
{
    let stride_usize: usize = stride as usize;
    let width_usize: usize = width as usize;
    let height_usize: usize = height as usize;

    let size_of_pixel: usize = bytes_per_pixel(WEnum::Value(format));
    if size_of_pixel == 0 {
        return Err(unsupported_format(format.name().as_str()));
    }
    let bytes_per_row: usize = match width_usize.checked_mul(size_of_pixel) {
        Some(bytes) => bytes,
        None => {
            let mut text = "invalid buffer dimensions: width ".to_owned();
            text.append(decimal_text(width as u64).as_str());
            text.append(" * ");
            text.append(decimal_text(size_of_pixel as u64).as_str());
            text.append(" overflows usize");
            return Err(AppError::Wayland(text));
        },
    };
    if stride_usize < bytes_per_row {
        let mut text = "invalid stride: stride=".to_owned();
        text.append(decimal_text(stride as u64).as_str());
        text.append(" width=");
        text.append(decimal_text(width as u64).as_str());
        text.append(" (expected ≥");
        text.append(decimal_text(bytes_per_row as u64).as_str());
        text.append(")");
        return Err(AppError::Wayland(text));
    }
    let size: usize = match stride_usize.checked_mul(height_usize) {
        Some(size) => size,
        None => {
            let mut text = "buffer size overflow: stride=".to_owned();
            text.append(decimal_text(stride as u64).as_str());
            text.append(" * height=");
            text.append(decimal_text(height as u64).as_str());
            return Err(AppError::Wayland(text));
        },
    };
    if size > i32::MAX as usize {
        let mut text = "shm pool size too large: ".to_owned();
        text.append(decimal_text(size as u64).as_str());
        text.append(" bytes (max ");
        text.append(decimal_text(i32::MAX as u64).as_str());
        text.append(")");
        return Err(AppError::Wayland(text));
    }
    Ok(
        ShmLayout {
            size,
            pool_size: size as i32,
            width: wrap_i32(width),
            height: wrap_i32(height),
            stride: wrap_i32(stride),
        },
    )
}

/// What is done to obtain the memory of a laid-out buffer.
#[derive(Debug, Clone, Copy, PartialEq, Eq, Structural)]
pub enum ShmStage {
    /// Create the memory file.
    Creating,
    /// Give it the size of the buffer.
    Resizing,
    /// Map it.
    Mapping,
}

/// How messages name a stage.
pub open spec fn stage_name(stage: ShmStage) -> Seq<char> {
    match stage {
        ShmStage::Creating => "memfd_create"@,
        ShmStage::Resizing => "ftruncate"@,
        ShmStage::Mapping => "mmap"@,
    }
}

/// The error of a stage that failed with the text `error`.
pub open spec fn stage_error(stage: ShmStage, error: Seq<char>) -> AppErrorView {
    AppErrorView::Wayland(stage_name(stage) + " failed: "@ + error)
}

/// The error of a stage that failed with the text `error`.
pub fn shm_failure(stage: ShmStage, error: &str) -> (failure: AppError)
    ensures
        failure@ == stage_error(stage, error@),
        failure@ == AppErrorView::Wayland(stage_name(stage) + " failed: "@ + error@),
{
    let mut text = match stage {
        ShmStage::Creating => "memfd_create".to_owned(),
        ShmStage::Resizing => "ftruncate".to_owned(),
        ShmStage::Mapping => "mmap".to_owned(),
    };
    text.append(" failed: ");
    text.append(error);
    AppError::Wayland(text)
}

// ── laws ───────────────────────────────────────────────────────────────────

/// A read looks at the bytes of its own pixel and at no others: two buffers that
/// agree on them give the same pixel.
pub proof fn reads_only_its_own_bytes(a: Seq<u8>, b: Seq<u8>, offset: nat, format: WEnum)
    requires
        offset + pixel_size(format) <= a.len(),
        offset + pixel_size(format) <= b.len(),
        a.subrange(offset as int, (offset + pixel_size(format)) as int) == b.subrange(
            offset as int,
            (offset + pixel_size(format)) as int,
        ),
    ensures
        pixel_at(a, offset, format) == pixel_at(b, offset, format),
{
}

/// A pixel of a format without an alpha channel is opaque.
pub proof fn pixels_without_alpha_are_opaque(data: Seq<u8>, offset: nat, format: Format)
    requires
        format != Format::Argb8888,
        format != Format::Abgr8888,
    ensures
        pixel_at(data, offset, WEnum::Value(format)) matches Ok(pixel) ==> pixel.len() == 4
            && pixel[3] == 255,
{
}

/// A format and the one with red and blue exchanged read the same pixel out of
/// bytes in which the first and the third are exchanged.
pub proof fn exchanged_formats_mirror_each_other(bytes: Seq<u8>)
    requires
        bytes.len() >= 4,
    ensures
        ({
            let mirrored = bytes.update(0, bytes[2]).update(2, bytes[0]);
            &&& channels(mirrored, Format::Abgr8888) == channels(bytes, Format::Argb8888)
            &&& channels(mirrored, Format::Xbgr8888) == channels(bytes, Format::Xrgb8888)
            &&& channels(mirrored, Format::Rgb888) == channels(bytes, Format::Bgr888)
        }),
{
}

/// A format that cannot be read is never laid out either, and one that can be
/// read never fails for its format.
pub proof fn formats_are_readable_or_refused(
    width: u32,
    height: u32,
    stride: u32,
    format: Format,
    data: Seq<u8>,
    offset: nat,
)
    ensures
        pixel_size(WEnum::Value(format)) == 0 ==> layout_of(width, height, stride, format) is Err
            && pixel_at(data, offset, WEnum::Value(format)) is Err,
        pixel_size(WEnum::Value(format)) > 0 && offset + pixel_size(WEnum::Value(format))
            <= data.len() && data.len() <= usize::MAX ==> pixel_at(
            data,
            offset,
            WEnum::Value(format),
        ) is Ok,
{
}

/// Where the pixel in column `x` of row `y` starts.
pub open spec fn pixel_offset(x: nat, y: nat, stride: u32, format: Format) -> nat {
    y * (stride as nat) + x * pixel_size(WEnum::Value(format))
}

/// The pixel in column `x` of row `y` of a laid-out frame ends inside the frame.
proof fn pixel_ends_inside(x: nat, y: nat, width: u32, height: u32, stride: u32, format: Format)
    requires
        layout_of(width, height, stride, format) is Ok,
        x < width,
        y < height,
    ensures
        x * pixel_size(WEnum::Value(format)) + pixel_size(WEnum::Value(format)) <= stride,
        pixel_offset(x, y, stride, format) + pixel_size(WEnum::Value(format)) <= stride * height,
{
    let pixel = pixel_size(WEnum::Value(format));
    assert(x * pixel + pixel <= width * pixel) by (nonlinear_arith)
        requires
            x + 1 <= width,
    ;
    assert(y * stride + stride <= stride * height) by (nonlinear_arith)
        requires
            y + 1 <= height,
    ;
}

/// Every pixel of a frame that was laid out can be read out of the frame's
/// memory.
pub proof fn laid_out_pixels_are_readable(
    width: u32,
    height: u32,
    stride: u32,
    format: Format,
    data: Seq<u8>,
    x: nat,
    y: nat,
)
    requires
        layout_of(width, height, stride, format) matches Ok(layout) && data.len() == layout.size,
        x < width,
        y < height,
    ensures
        pixel_at(data, pixel_offset(x, y, stride, format), WEnum::Value(format)) is Ok,
{
    pixel_ends_inside(x, y, width, height, stride, format);
}

/// Two different pixels of a frame that was laid out share no byte.
pub proof fn laid_out_pixels_are_disjoint(
    width: u32,
    height: u32,
    stride: u32,
    format: Format,
    x1: nat,
    y1: nat,
    x2: nat,
    y2: nat,
)
    requires
        layout_of(width, height, stride, format) is Ok,
        x1 < width,
        x2 < width,
        y1 < height,
        y2 < height,
        x1 != x2 || y1 != y2,
    ensures
        ({
            let pixel = pixel_size(WEnum::Value(format));
            let first = pixel_offset(x1, y1, stride, format);
            let second = pixel_offset(x2, y2, stride, format);
            first + pixel <= second || second + pixel <= first
        }),
{
    let pixel = pixel_size(WEnum::Value(format));
    pixel_ends_inside(x1, y1, width, height, stride, format);
    pixel_ends_inside(x2, y2, width, height, stride, format);
    if y1 < y2 {
        assert(y1 * stride + stride <= y2 * stride) by (nonlinear_arith)
            requires
                y1 + 1 <= y2,
        ;
    } else if y2 < y1 {
        assert(y2 * stride + stride <= y1 * stride) by (nonlinear_arith)
            requires
                y2 + 1 <= y1,
        ;
    } else if x1 < x2 {
        assert(x1 * pixel + pixel <= x2 * pixel) by (nonlinear_arith)
            requires
                x1 + 1 <= x2,
        ;
    } else {
        assert(x2 * pixel + pixel <= x1 * pixel) by (nonlinear_arith)
            requires
                x2 + 1 <= x1,
        ;
    }
}

/// The numbers handed to the compositor for a frame that holds a pixel are the
/// frame's own, none of them wrapped, and the pool holds the rows exactly.
pub proof fn layout_of_a_frame_is_faithful(width: u32, height: u32, stride: u32, format: Format)
    requires
        layout_of(width, height, stride, format) is Ok,
        width > 0,
        height > 0,
    ensures
        layout_of(width, height, stride, format) matches Ok(layout) && layout.size == stride
            * height && layout.pool_size == layout.size && layout.width == width && layout.height
            == height && layout.stride == stride,
{
    let pixel = pixel_size(WEnum::Value(format));
    assert(width * pixel >= width) by (nonlinear_arith)
        requires
            pixel >= 1,
    ;
    assert(stride * height >= stride && stride * height >= height) by (nonlinear_arith)
        requires
            stride >= 1,
            height >= 1,
    ;
}

/// The channels of a pixel that is read are the very bytes of the buffer, in the
/// order of its format; where the format has no alpha channel, alpha is full.
pub proof fn pixels_are_the_bytes_of_the_buffer(data: Seq<u8>, offset: usize, format: Format)
    requires
        format !is Other,
        offset + (if format == Format::Rgb888 || format == Format::Bgr888 {
            3int
        } else {
            4int
        }) <= data.len() <= usize::MAX,
    ensures
        pixel_at(data, offset as nat, WEnum::Value(format)) matches Ok(pixel) && {
            &&& pixel.len() == 4
            &&& rgba_at(data, offset as nat, WEnum::Value(format)) == pixel
            &&& pixel[1] == data[offset + 1]
            &&& format == Format::Argb8888 || format == Format::Xrgb8888 || format
                == Format::Bgr888 ==> pixel[0] == data[offset + 2] && pixel[2] == data[offset
                as int]
            &&& format == Format::Abgr8888 || format == Format::Xbgr8888 || format
                == Format::Rgb888 ==> pixel[0] == data[offset as int] && pixel[2] == data[offset
                + 2]
            &&& format == Format::Argb8888 || format == Format::Abgr8888 ==> pixel[3]
                == data[offset + 3]
            &&& format != Format::Argb8888 && format != Format::Abgr8888 ==> pixel[3] == 255
        },
{
}

/// A pixel is read exactly where its format can be read and all of its bytes lie in
/// the buffer; where its end is beyond any address that is the reason, and in every
/// other case that it is out of bounds.
pub proof fn pixels_are_read_where_they_lie(data: Seq<u8>, offset: nat, format: WEnum)
    requires
        offset <= usize::MAX,
        data.len() <= usize::MAX,
    ensures
        ({
            let size: int = match format {
                WEnum::Value(Format::Rgb888) | WEnum::Value(Format::Bgr888) => 3,
                WEnum::Value(Format::Other(_)) | WEnum::Unknown(_) => 0,
                _ => 4,
            };
            &&& pixel_size(format) == size
            &&& pixel_at(data, offset, format) is Ok <==> size > 0 && offset + size <= data.len()
            &&& pixel_at(data, offset, format) == Err::<Seq<u8>, PixelError>(
                PixelError::OffsetOverflow,
            ) <==> offset + size > usize::MAX
            &&& pixel_at(data, offset, format) == Err::<Seq<u8>, PixelError>(
                PixelError::OutOfBounds,
            ) <==> offset + size <= usize::MAX && (size == 0 || offset + size > data.len())
        }),
{
}

/// Whatever cannot be read is shown as four zero bytes.
pub proof fn unreadable_pixels_are_all_zero(data: Seq<u8>, offset: nat, format: WEnum, i: int)
    requires
        pixel_at(data, offset, format) is Err,
        0 <= i < 4,
    ensures
        rgba_at(data, offset, format).len() == 4,
        rgba_at(data, offset, format)[i] == 0,
{
}

/// The view of a pixel is its four bytes.
pub proof fn pixel_views_keep_everything(pixel: Rgba, i: int)
    requires
        0 <= i < 4,
    ensures
        pixel@.len() == 4,
        pixel@[i] == pixel.0[i],
{
}

/// The code that the four characters `a` to `d` make, the first in the lowest byte.
pub open spec fn four_characters(a: char, b: char, c: char, d: char) -> int {
    a as int + 0x100 * (b as int) + 0x1_0000 * (c as int) + 0x100_0000 * (d as int)
}

/// Codes are those of the protocol: two small numbers, and else the format's four
/// characters; a code that stands for no readable format keeps itself.
pub proof fn codes_are_four_characters(code: u32)
    ensures
        format_of(code) == Format::Argb8888 <==> code == 0,
        format_of(code) == Format::Xrgb8888 <==> code == 1,
        format_of(code) == Format::Xbgr8888 <==> code == four_characters('X', 'B', '2', '4'),
        format_of(code) == Format::Abgr8888 <==> code == four_characters('A', 'B', '2', '4'),
        format_of(code) == Format::Rgb888 <==> code == four_characters('R', 'G', '2', '4'),
        format_of(code) == Format::Bgr888 <==> code == four_characters('B', 'G', '2', '4'),
        format_of(code) matches Format::Other(kept) ==> kept == code,
{
}

/// Formats are called by their names in the protocol.
pub proof fn formats_are_called_by_their_names(code: u32)
    ensures
        format_name(Format::Argb8888) == "Argb8888"@,
        format_name(Format::Xrgb8888) == "Xrgb8888"@,
        format_name(Format::Xbgr8888) == "Xbgr8888"@,
        format_name(Format::Abgr8888) == "Abgr8888"@,
        format_name(Format::Rgb888) == "Rgb888"@,
        format_name(Format::Bgr888) == "Bgr888"@,
        format_name(Format::Other(code)) == shm_format_debug(code),
{
}

/// Every frame that fits is laid out, and no other: its format can be read, a row
/// holds its pixels, and its rows fill no more than a pool can.
pub proof fn frames_that_fit_are_laid_out(width: u32, height: u32, stride: u32, format: Format)
    ensures
        layout_of(width, height, stride, format) is Ok <==> format !is Other && stride >= width * (
        if format == Format::Rgb888 || format == Format::Bgr888 {
            3int
        } else {
            4int
        }) && stride * height <= 0x7fff_ffff,
{
    pixels_are_read_where_they_lie(Seq::empty(), 0, WEnum::Value(format));
}

/// The memory of a laid-out frame is its rows, one after the other, and the numbers
/// handed to the compositor have the bits of the frame's own.
pub proof fn layouts_hold_the_frame(width: u32, height: u32, stride: u32, format: Format)
    ensures
        layout_of(width, height, stride, format) matches Ok(layout) ==> {
            &&& layout.size == stride * height
            &&& layout.pool_size == stride * height
            &&& (layout.width - width) % 0x1_0000_0000 == 0
            &&& (layout.height - height) % 0x1_0000_0000 == 0
            &&& (layout.stride - stride) % 0x1_0000_0000 == 0
        },
{
}

/// A frame that is not laid out is refused in words, with its own numbers, for the
/// first of the reasons that holds.
pub proof fn refused_frames_say_why(
    width: u32,
    height: u32,
    stride: u32,
    format: Format,
    bytes: nat,
)
    requires
        bytes == if format == Format::Rgb888 || format == Format::Bgr888 {
            3nat
        } else {
            4nat
        },
    ensures
        format matches Format::Other(code) ==> layout_of(width, height, stride, format) == Err::<
            ShmLayout,
            AppErrorView,
        >(
            AppErrorView::Wayland(
                "unsupported wl_shm format for buffer allocation: "@ + shm_format_debug(code),
            ),
        ),
        format !is Other && width * bytes > usize::MAX ==> layout_of(width, height, stride, format)
            == Err::<ShmLayout, AppErrorView>(
            AppErrorView::Wayland(
                "invalid buffer dimensions: width "@ + decimal(width as nat) + " * "@ + decimal(
                    bytes,
                ) + " overflows usize"@,
            ),
        ),
        format !is Other && width * bytes <= usize::MAX && stride < width * bytes ==> layout_of(
            width,
            height,
            stride,
            format,
        ) == Err::<ShmLayout, AppErrorView>(
            AppErrorView::Wayland(
                "invalid stride: stride="@ + decimal(stride as nat) + " width="@ + decimal(
                    width as nat,
                ) + " (expected ≥"@ + decimal((width * bytes) as nat) + ")"@,
            ),
        ),
        format !is Other && width * bytes <= stride && stride * height > usize::MAX ==> layout_of(
            width,
            height,
            stride,
            format,
        ) == Err::<ShmLayout, AppErrorView>(
            AppErrorView::Wayland(
                "buffer size overflow: stride="@ + decimal(stride as nat) + " * height="@
                    + decimal(height as nat),
            ),
        ),
        format !is Other && width * bytes <= stride && 0x7fff_ffff < stride * height <= usize::MAX
            ==> layout_of(width, height, stride, format) == Err::<ShmLayout, AppErrorView>(
            AppErrorView::Wayland(
                "shm pool size too large: "@ + decimal((stride * height) as nat)
                    + " bytes (max "@ + decimal(0x7fff_ffff) + ")"@,
            ),
        ),
{
    pixels_are_read_where_they_lie(Seq::empty(), 0, WEnum::Value(format));
}

/// An error names the call that failed and ends with the text of its cause, and a
/// format that is refused is named.
pub proof fn failures_name_the_call(name: Seq<char>, error: Seq<char>)
    ensures
        stage_error(ShmStage::Creating, error) == AppErrorView::Wayland(
            "memfd_create"@ + " failed: "@ + error,
        ),
        stage_error(ShmStage::Resizing, error) == AppErrorView::Wayland(
            "ftruncate"@ + " failed: "@ + error,
        ),
        stage_error(ShmStage::Mapping, error) == AppErrorView::Wayland(
            "mmap"@ + " failed: "@ + error,
        ),
        unsupported(name) == AppErrorView::Wayland(
            "unsupported wl_shm format for buffer allocation: "@ + name,
        ),
{
}

} // verus!
