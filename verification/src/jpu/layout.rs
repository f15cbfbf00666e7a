//! Pure, checked layout rules for planar frames produced by the JPU.
use super::regs::{FORMAT_224, FORMAT_400, FORMAT_420, FORMAT_422, FORMAT_444};
use vstd::prelude::*;

verus! {

const PLANE_ALIGNMENT: usize = 8;

const SCALED_STRIDE_ALIGNMENT: u32 = 16;

const MIN_SCALED_CODED_EXTENT: u32 = 128;

/// `v` rounded up to the next multiple of `a`.
pub open spec fn round_up(v: int, a: int) -> int {
    (v + a - 1) / a * a
}

/// `v / d`, rounded towards positive infinity.
pub open spec fn ceil_div(v: int, d: int) -> int {
    v / d + if v % d == 0 {
        0int
    } else {
        1int
    }
}

/// Isotropic downscale mode implemented by the SG2002 JPU.
#[derive(Clone, Copy, Debug, PartialEq, Eq, Structural)]
pub enum JpuScale {
    /// Decode at the JPEG's full coded resolution.
    Full,
    /// Decode at one half of the coded width and height.
    Half,
    /// Decode at one quarter of the coded width and height.
    Quarter,
    /// Decode at one eighth of the coded width and height.
    Eighth,
}

/// The two-bit mode of a scale, as written to each axis of `MJPEG_SCL_INFO`.
pub open spec fn scale_mode(scale: JpuScale) -> u32 {
    match scale {
        JpuScale::Full => 0,
        JpuScale::Half => 1,
        JpuScale::Quarter => 2,
        JpuScale::Eighth => 3,
    }
}

/// The linear denominator of a scale.
pub open spec fn scale_factor(scale: JpuScale) -> u32 {
    match scale {
        JpuScale::Full => 1,
        JpuScale::Half => 2,
        JpuScale::Quarter => 4,
        JpuScale::Eighth => 8,
    }
}

impl JpuScale {
    /// Linear scale denominator.
    pub fn factor(self) -> (f: u32)
        ensures
            f == scale_factor(self),
            f == 1u32 << scale_mode(self),
    {
        let mode = self.register_mode();
        assert(1u32 << 0u32 == 1 && 1u32 << 1u32 == 2 && 1u32 << 2u32 == 4 && 1u32 << 3u32 == 8)
            by (bit_vector);
        1u32 << mode
    }

    /// Two-bit mode written to each axis in `MJPEG_SCL_INFO`.
    pub fn register_mode(self) -> (m: u32)
        ensures
            m == scale_mode(self),
    {
        match self {
            JpuScale::Full => 0,
            JpuScale::Half => 1,
            JpuScale::Quarter => 2,
            JpuScale::Eighth => 3,
        }
    }

    /// Whether the decode is downscaled at all.
    pub fn is_scaled(self) -> (b: bool)
        ensures
            b == (self != JpuScale::Full),
    {
        !matches!(self, JpuScale::Full)
    }
}

/// Planar pixel format produced by the JPU.
#[non_exhaustive]
#[derive(Clone, Copy, Debug, PartialEq, Eq, Structural)]
pub enum JpuPixelFormat {
    /// 4:2:0: chroma is subsampled in both axes.
    Yuv420,
    /// 4:2:2: chroma is subsampled horizontally.
    Yuv422Horizontal,
    /// 4:2:2: chroma is subsampled vertically (vendor name `FORMAT_224`).
    Yuv422Vertical,
    /// 4:4:4: luma and chroma have equal resolution.
    Yuv444,
    /// Luma only.
    Grayscale,
}

/// Width and height of one MCU of a format.
pub open spec fn mcu_width(format: JpuPixelFormat) -> u32 {
    match format {
        JpuPixelFormat::Yuv420 | JpuPixelFormat::Yuv422Horizontal => 16,
        _ => 8,
    }
}

pub open spec fn mcu_height(format: JpuPixelFormat) -> u32 {
    match format {
        JpuPixelFormat::Yuv420 | JpuPixelFormat::Yuv422Vertical => 16,
        _ => 8,
    }
}

/// The format that a raw sampling value of the JPEG header names.
pub open spec fn format_from_raw(raw: u32) -> Option<JpuPixelFormat> {
    if raw == FORMAT_420 {
        Some(JpuPixelFormat::Yuv420)
    } else if raw == FORMAT_422 {
        Some(JpuPixelFormat::Yuv422Horizontal)
    } else if raw == FORMAT_224 {
        Some(JpuPixelFormat::Yuv422Vertical)
    } else if raw == FORMAT_444 {
        Some(JpuPixelFormat::Yuv444)
    } else if raw == FORMAT_400 {
        Some(JpuPixelFormat::Grayscale)
    } else {
        None
    }
}

impl JpuPixelFormat {
    /// The format of a raw sampling value (`FORMAT_*`).
    pub fn from_raw(raw: u32) -> (r: Result<Self, FrameLayoutError>)
        ensures
            match format_from_raw(raw) {
                Some(f) => r == Ok::<Self, FrameLayoutError>(f),
                None => r == Err::<Self, FrameLayoutError>(FrameLayoutError::UnsupportedPixelFormat),
            },
    {
        if raw == FORMAT_420 {
            Ok(JpuPixelFormat::Yuv420)
        } else if raw == FORMAT_422 {
            Ok(JpuPixelFormat::Yuv422Horizontal)
        } else if raw == FORMAT_224 {
            Ok(JpuPixelFormat::Yuv422Vertical)
        } else if raw == FORMAT_444 {
            Ok(JpuPixelFormat::Yuv444)
        } else if raw == FORMAT_400 {
            Ok(JpuPixelFormat::Grayscale)
        } else {
            Err(FrameLayoutError::UnsupportedPixelFormat)
        }
    }

    /// Extent of one MCU in pixels.
    pub fn mcu_extent(self) -> (e: Extent)
        ensures
            e.width == mcu_width(self),
            e.height == mcu_height(self),
    {
        match self {
            JpuPixelFormat::Yuv420 => Extent::new(16, 16),
            JpuPixelFormat::Yuv422Horizontal => Extent::new(16, 8),
            JpuPixelFormat::Yuv422Vertical => Extent::new(8, 16),
            JpuPixelFormat::Yuv444 | JpuPixelFormat::Grayscale => Extent::new(8, 8),
        }
    }
}

/// Two-dimensional extent in pixels.
#[non_exhaustive]
#[derive(Clone, Copy, Debug, PartialEq, Eq)]
pub struct Extent {
    /// Width in pixels.
    pub width: u32,
    /// Height in pixels.
    pub height: u32,
}

impl Extent {
    fn new(width: u32, height: u32) -> (e: Self)
        ensures
            e.width == width,
            e.height == height,
    {
        Extent { width, height }
    }
}

/// Byte layout of one planar component.
#[non_exhaustive]
#[derive(Clone, Copy, Debug, PartialEq, Eq)]
pub struct PlaneLayout {
    /// Offset from the start of the frame buffer.
    pub offset: usize,
    /// Component bytes including row-stride padding, but excluding the aligned
    /// gap before the next plane.
    pub len: usize,
    /// Distance in bytes between consecutive rows.
    pub stride: u32,
    /// Stored component dimensions in samples.
    pub storage: Extent,
}

/// Checked description of a planar JPU output buffer.
#[non_exhaustive]
#[derive(Clone, Copy, Debug, PartialEq, Eq)]
pub struct FrameLayout {
    /// Sampling format.
    pub format: JpuPixelFormat,
    /// Selected hardware scale.
    pub scale: JpuScale,
    /// Dimensions from the JPEG SOF marker.
    pub source: Extent,
    /// Meaningful output dimensions; downstream processing should crop to this.
    pub visible: Extent,
    /// Source dimensions rounded up to whole JPEG MCU blocks.
    pub source_aligned: Extent,
    /// Dimensions of the hardware output buffer, including coded padding.
    pub coded: Extent,
    /// Stored dimensions after the scaler's even-size requirement.
    pub storage: Extent,
    /// Luma plane.
    pub y: PlaneLayout,
    /// Blue-difference chroma plane, absent for grayscale.
    pub cb: Option<PlaneLayout>,
    /// Red-difference chroma plane, absent for grayscale.
    pub cr: Option<PlaneLayout>,
    /// Total frame allocation, including inter-plane and trailing alignment.
    pub total_len: usize,
}

/// Error returned while deriving a hardware frame layout.
#[non_exhaustive]
#[derive(Clone, Copy, Debug, PartialEq, Eq, Structural)]
pub enum FrameLayoutError {
    /// A JPEG dimension is zero.
    ZeroDimension,
    /// Rounding a source dimension would overflow `u32`.
    DimensionOverflow,
    /// A scaled decode was requested for a coded extent below 128 pixels.
    UnsupportedScaledDimensions,
    /// The JPEG sampling value is unknown to this driver.
    UnsupportedPixelFormat,
    /// A plane length, offset, or total allocation overflowed `usize`.
    BufferSizeOverflow,
}

impl FrameLayoutError {
    /// Human-readable description of the error.
    pub fn message(self) -> (m: &'static str)
        ensures
            self == FrameLayoutError::ZeroDimension ==> m@ == "JPEG dimensions must be non-zero"@,
            self == FrameLayoutError::DimensionOverflow ==> m@ == "aligned JPEG dimensions overflow"@,
            self == FrameLayoutError::UnsupportedScaledDimensions ==> m@
                == "JPU scaling requires both aligned dimensions to be at least 128"@,
            self == FrameLayoutError::UnsupportedPixelFormat ==> m@
                == "unsupported JPU pixel format"@,
            self == FrameLayoutError::BufferSizeOverflow ==> m@ == "JPU frame layout size overflow"@,
    {
        match self {
            FrameLayoutError::ZeroDimension => "JPEG dimensions must be non-zero",
            FrameLayoutError::DimensionOverflow => "aligned JPEG dimensions overflow",
            FrameLayoutError::UnsupportedScaledDimensions => {
                "JPU scaling requires both aligned dimensions to be at least 128"
            },
            FrameLayoutError::UnsupportedPixelFormat => "unsupported JPU pixel format",
            FrameLayoutError::BufferSizeOverflow => "JPU frame layout size overflow",
        }
    }
}

/// Stored chroma extent of a colour format whose luma is stored as `sw` x `sh`.
pub open spec fn chroma_storage(format: JpuPixelFormat, sw: int, sh: int) -> (int, int) {
    match format {
        JpuPixelFormat::Yuv420 => (sw / 2, sh / 2),
        JpuPixelFormat::Yuv422Horizontal => (sw / 2, sh),
        JpuPixelFormat::Yuv422Vertical => (sw, sh / 2),
        _ => (sw, sh),
    }
}

/// Chroma row stride of a colour format.
pub open spec fn chroma_stride(format: JpuPixelFormat, sw: int, stride_y: int) -> int {
    match format {
        JpuPixelFormat::Yuv420 => sw / 2,
        JpuPixelFormat::Yuv422Horizontal => stride_y / 2,
        _ => stride_y,
    }
}

pub open spec fn ext(w: int, h: int) -> Extent {
    Extent { width: w as u32, height: h as u32 }
}

/// The planes of a frame whose luma is stored as `storage` with rows `stride_y`
/// bytes apart, or `BufferSizeOverflow` when the frame does not fit `usize`.
pub open spec fn planes_spec(
    format: JpuPixelFormat,
    scale: JpuScale,
    source: Extent,
    visible: Extent,
    source_aligned: Extent,
    coded: Extent,
    storage: Extent,
    stride_y: u32,
) -> Result<FrameLayout, FrameLayoutError> {
    let sw = storage.width as int;
    let sh = storage.height as int;
    let y_len = stride_y * sh;
    let y = PlaneLayout { offset: 0, len: y_len as usize, stride: stride_y, storage };
    if format == JpuPixelFormat::Grayscale {
        if y_len + 7 > usize::MAX {
            Err(FrameLayoutError::BufferSizeOverflow)
        } else {
            Ok(
                FrameLayout {
                    format,
                    scale,
                    source,
                    visible,
                    source_aligned,
                    coded,
                    storage,
                    y,
                    cb: None,
                    cr: None,
                    total_len: round_up(y_len, 8) as usize,
                },
            )
        }
    } else {
        let (csw, csh) = chroma_storage(format, sw, sh);
        let stride_c = chroma_stride(format, sw, stride_y as int);
        let c_len = stride_c * csh;
        let cb_offset = round_up(y_len, 8);
        let cr_offset = round_up(cb_offset + c_len, 8);
        if cr_offset + c_len + 7 > usize::MAX {
            Err(FrameLayoutError::BufferSizeOverflow)
        } else {
            Ok(
                FrameLayout {
                    format,
                    scale,
                    source,
                    visible,
                    source_aligned,
                    coded,
                    storage,
                    y,
                    cb: Some(
                        PlaneLayout {
                            offset: cb_offset as usize,
                            len: c_len as usize,
                            stride: stride_c as u32,
                            storage: ext(csw, csh),
                        },
                    ),
                    cr: Some(
                        PlaneLayout {
                            offset: cr_offset as usize,
                            len: c_len as usize,
                            stride: stride_c as u32,
                            storage: ext(csw, csh),
                        },
                    ),
                    total_len: round_up(cr_offset + c_len, 8) as usize,
                },
            )
        }
    }
}

/// The layout the JPU produces for a `w` x `h` JPEG of `format` decoded at `scale`,
/// or the reason there is none.
pub open spec fn frame_layout_spec(w: u32, h: u32, format: JpuPixelFormat, scale: JpuScale) -> Result<
    FrameLayout,
    FrameLayoutError,
> {
    if w == 0 || h == 0 {
        Err(FrameLayoutError::ZeroDimension)
    } else {
        let aw = round_up(w as int, mcu_width(format) as int);
        let ah = round_up(h as int, mcu_height(format) as int);
        let scaled = scale != JpuScale::Full;
        if aw > 0xFFFF || ah > 0xFFFF {
            Err(FrameLayoutError::DimensionOverflow)
        } else if scaled && (aw < 128 || ah < 128) {
            Err(FrameLayoutError::UnsupportedScaledDimensions)
        } else {
            let f = scale_factor(scale) as int;
            let cw = aw / f;
            let chh = ah / f;
            let sw = if scaled {
                round_up(cw, 2)
            } else {
                cw
            };
            let sh = if scaled {
                round_up(chh, 2)
            } else {
                chh
            };
            let stride_y = if scaled {
                round_up(sw, 16)
            } else {
                sw
            };
            planes_spec(
                format,
                scale,
                ext(w as int, h as int),
                ext(ceil_div(w as int, f), ceil_div(h as int, f)),
                ext(aw, ah),
                ext(cw, chh),
                ext(sw, sh),
                stride_y as u32,
            )
        }
    }
}

proof fn lemma_round_up(v: int, a: int)
    requires
        v >= 0,
        a > 0,
    ensures
        v <= round_up(v, a) <= v + a - 1,
        round_up(v, a) % a == 0,
{
    assert(v <= round_up(v, a) <= v + a - 1) by (nonlinear_arith)
        requires
            v >= 0,
            a > 0,
    {
        let q = (v + a - 1) / a;
        let r = (v + a - 1) % a;
        vstd::arithmetic::div_mod::lemma_fundamental_div_mod(v + a - 1, a);
    }
    vstd::arithmetic::div_mod::lemma_mod_multiples_basic((v + a - 1) / a, a);
    assert((v + a - 1) / a * a == a * ((v + a - 1) / a)) by (nonlinear_arith);
}

fn align_u32(value: u32, alignment: u32) -> (r: Result<u32, FrameLayoutError>)
    requires
        alignment > 0,
    ensures
        match r {
            Ok(v) => v == round_up(value as int, alignment as int),
            Err(e) => e == FrameLayoutError::DimensionOverflow && value + alignment - 1 > u32::MAX,
        },
{
    match value.checked_add(alignment - 1) {
        Some(rounded) => {
            proof {
                lemma_round_up(value as int, alignment as int);
            }
            Ok(rounded / alignment * alignment)
        },
        None => Err(FrameLayoutError::DimensionOverflow),
    }
}

fn align_usize(value: usize, alignment: usize) -> (r: Result<usize, FrameLayoutError>)
    requires
        alignment > 0,
    ensures
        match r {
            Ok(v) => v == round_up(value as int, alignment as int),
            Err(e) => e == FrameLayoutError::BufferSizeOverflow && value + alignment - 1
                > usize::MAX,
        },
{
    match value.checked_add(alignment - 1) {
        Some(rounded) => {
            proof {
                lemma_round_up(value as int, alignment as int);
            }
            Ok(rounded / alignment * alignment)
        },
        None => Err(FrameLayoutError::BufferSizeOverflow),
    }
}

fn ceil_div_u32(value: u32, divisor: u32) -> (q: u32)
    requires
        divisor > 0,
    ensures
        q == ceil_div(value as int, divisor as int),
{
    proof {
        if divisor == 1 {
            assert(value % 1 == 0);
        } else {
            assert(value / divisor < u32::MAX) by (nonlinear_arith)
                requires
                    divisor >= 2,
            ;
        }
    }
    value / divisor + if value % divisor == 0 {
        0
    } else {
        1
    }
}

fn plane_len(stride: u32, rows: u32) -> (r: Result<usize, FrameLayoutError>)
    ensures
        match r {
            Ok(len) => len == stride * rows,
            Err(e) => e == FrameLayoutError::BufferSizeOverflow && stride * rows > usize::MAX,
        },
{
    let stride = stride as usize;
    let rows = rows as usize;
    match stride.checked_mul(rows) {
        Some(len) => Ok(len),
        None => Err(FrameLayoutError::BufferSizeOverflow),
    }
}

proof fn lemma_shift_is_div(x: u32, mode: u32)
    requires
        mode <= 3,
    ensures
        x >> mode == x / (1u32 << mode),
{
    if mode == 0 {
        assert(x >> 0u32 == x / (1u32 << 0u32)) by (bit_vector);
    } else if mode == 1 {
        assert(x >> 1u32 == x / (1u32 << 1u32)) by (bit_vector);
    } else if mode == 2 {
        assert(x >> 2u32 == x / (1u32 << 2u32)) by (bit_vector);
    } else {
        assert(x >> 3u32 == x / (1u32 << 3u32)) by (bit_vector);
    }
}

impl FrameLayout {
    /// Calculate the exact JPU output layout without touching hardware.
    #[verifier::rlimit(60)]
    pub fn new(source_width: u32, source_height: u32, format: JpuPixelFormat, scale: JpuScale) -> (r:
        Result<Self, FrameLayoutError>)
        ensures
            r == frame_layout_spec(source_width, source_height, format, scale),
    {
        if source_width == 0 || source_height == 0 {
            return Err(FrameLayoutError::ZeroDimension);
        }
        let source = Extent::new(source_width, source_height);
        let mcu = format.mcu_extent();
        let aw = match align_u32(source.width, mcu.width) {
            Ok(v) => v,
            Err(e) => {
                proof {
                    lemma_round_up(source_width as int, mcu.width as int);
                }
                return Err(e);
            },
        };
        let ah = match align_u32(source.height, mcu.height) {
            Ok(v) => v,
            Err(e) => {
                proof {
                    lemma_round_up(source_width as int, mcu.width as int);
                    lemma_round_up(source_height as int, mcu.height as int);
                }
                return Err(e);
            },
        };
        let source_aligned = Extent::new(aw, ah);
        if source_aligned.width > 0xFFFF || source_aligned.height > 0xFFFF {
            return Err(FrameLayoutError::DimensionOverflow);
        }
        if scale.is_scaled() && (source_aligned.width < MIN_SCALED_CODED_EXTENT
            || source_aligned.height < MIN_SCALED_CODED_EXTENT) {
            return Err(FrameLayoutError::UnsupportedScaledDimensions);
        }
        let factor = scale.factor();
        let visible = Extent::new(
            ceil_div_u32(source.width, factor),
            ceil_div_u32(source.height, factor),
        );
        let mode = scale.register_mode();
        proof {
            lemma_shift_is_div(aw, mode);
            lemma_shift_is_div(ah, mode);
        }
        let coded = Extent::new(source_aligned.width >> mode, source_aligned.height >> mode);
        assert(coded.width <= 0xFFFF && coded.height <= 0xFFFF) by (nonlinear_arith)
            requires
                coded.width == aw / factor,
                coded.height == ah / factor,
                factor >= 1,
                aw <= 0xFFFF,
                ah <= 0xFFFF,
        ;
        let scaled = scale.is_scaled();
        let storage = if scaled {
            let sw = match align_u32(coded.width, 2) {
                Ok(v) => v,
                Err(e) => return Err(e),
            };
            let sh = match align_u32(coded.height, 2) {
                Ok(v) => v,
                Err(e) => return Err(e),
            };
            Extent::new(sw, sh)
        } else {
            coded
        };
        proof {
            lemma_round_up(coded.width as int, 2);
            lemma_round_up(coded.height as int, 2);
        }
        let stride_y = if scaled {
            match align_u32(storage.width, SCALED_STRIDE_ALIGNMENT) {
                Ok(v) => v,
                Err(e) => return Err(e),
            }
        } else {
            storage.width
        };
        proof {
            lemma_round_up(storage.width as int, 16);
        }
        assert(stride_y <= 0xFFFF + 15 && storage.height <= 0xFFFF + 1);
        Self::planes(format, scale, source, visible, source_aligned, coded, storage, stride_y)
    }

    #[verifier::rlimit(40)]
    fn planes(
        format: JpuPixelFormat,
        scale: JpuScale,
        source: Extent,
        visible: Extent,
        source_aligned: Extent,
        coded: Extent,
        storage: Extent,
        stride_y: u32,
    ) -> (r: Result<Self, FrameLayoutError>)
        requires
            storage.width <= stride_y,
        ensures
            r == planes_spec(format, scale, source, visible, source_aligned, coded, storage, stride_y),
    {
        let y_len = match plane_len(stride_y, storage.height) {
            Ok(v) => v,
            Err(e) => {
                proof {
                    lemma_round_up(stride_y * storage.height, 8);
                    if format != JpuPixelFormat::Grayscale {
                        let (csw, csh) = chroma_storage(
                            format,
                            storage.width as int,
                            storage.height as int,
                        );
                        let sc = chroma_stride(format, storage.width as int, stride_y as int);
                        assert(sc * csh >= 0) by (nonlinear_arith)
                            requires
                                sc >= 0,
                                csh >= 0,
                        ;
                        lemma_round_up(round_up(stride_y * storage.height, 8) + sc * csh, 8);
                    }
                }
                return Err(e);
            },
        };
        let y = PlaneLayout { offset: 0, len: y_len, stride: stride_y, storage };
        if matches!(format, JpuPixelFormat::Grayscale) {
            let total_len = match align_usize(y.len, PLANE_ALIGNMENT) {
                Ok(v) => v,
                Err(e) => return Err(e),
            };
            return Ok(
                FrameLayout {
                    format,
                    scale,
                    source,
                    visible,
                    source_aligned,
                    coded,
                    storage,
                    y,
                    cb: None,
                    cr: None,
                    total_len,
                },
            );
        }
        let chroma_storage_ext = match format {
            JpuPixelFormat::Yuv420 => Extent::new(storage.width / 2, storage.height / 2),
            JpuPixelFormat::Yuv422Horizontal => Extent::new(storage.width / 2, storage.height),
            JpuPixelFormat::Yuv422Vertical => Extent::new(storage.width, storage.height / 2),
            _ => storage,
        };
        let stride_c = match format {
            JpuPixelFormat::Yuv420 => storage.width / 2,
            JpuPixelFormat::Yuv422Horizontal => stride_y / 2,
            _ => stride_y,
        };
        let ghost c_len_spec: int = stride_c * chroma_storage_ext.height;
        assert(c_len_spec <= y_len && c_len_spec >= 0) by (nonlinear_arith)
            requires
                c_len_spec == stride_c * chroma_storage_ext.height,
                stride_c <= stride_y,
                chroma_storage_ext.height <= storage.height,
                y_len == stride_y * storage.height,
        ;
        let chroma_len = match plane_len(stride_c, chroma_storage_ext.height) {
            Ok(v) => v,
            Err(e) => return Err(e),
        };
        proof {
            lemma_round_up(y_len as int, 8);
        }
        let cb_offset = match align_usize(y.len, PLANE_ALIGNMENT) {
            Ok(v) => v,
            Err(e) => {
                proof {
                    lemma_round_up(round_up(y_len as int, 8) + chroma_len, 8);
                }
                return Err(e);
            },
        };
        proof {
            lemma_round_up(cb_offset + chroma_len, 8);
        }
        let cb_end = match cb_offset.checked_add(chroma_len) {
            Some(v) => v,
            None => return Err(FrameLayoutError::BufferSizeOverflow),
        };
        let cr_offset = match align_usize(cb_end, PLANE_ALIGNMENT) {
            Ok(v) => v,
            Err(e) => return Err(e),
        };
        let cr_end = match cr_offset.checked_add(chroma_len) {
            Some(v) => v,
            None => return Err(FrameLayoutError::BufferSizeOverflow),
        };
        let total_len = match align_usize(cr_end, PLANE_ALIGNMENT) {
            Ok(v) => v,
            Err(e) => return Err(e),
        };
        let cb = PlaneLayout {
            offset: cb_offset,
            len: chroma_len,
            stride: stride_c,
            storage: chroma_storage_ext,
        };
        let cr = PlaneLayout {
            offset: cr_offset,
            len: chroma_len,
            stride: stride_c,
            storage: chroma_storage_ext,
        };
        Ok(
            FrameLayout {
                format,
                scale,
                source,
                visible,
                source_aligned,
                coded,
                storage,
                y,
                cb: Some(cb),
                cr: Some(cr),
                total_len,
            },
        )
    }
}

} // verus!
