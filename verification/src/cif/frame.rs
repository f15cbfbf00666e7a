//! Frame capture on top of a camera interface link: the capture
//! configuration, the frame buffers handed to it, and the rotation through
//! them as frames are taken.
use super::{CifDev, CsiStatus};
use vstd::prelude::*;

verus! {

/// Pixel formats of a captured frame.
#[derive(Debug, Clone, Copy, PartialEq, Eq, Structural)]
#[allow(non_camel_case_types)]
pub enum PixelFormat {
    Raw8,
    Raw10,
    Raw12,
    Yuv422_8,
    Yuv422_10,
    Nv12,
    Nv21,
}

/// A frame buffer: where it is, how large, and the image it holds.
#[derive(Debug, Clone, Copy, PartialEq, Eq, Structural)]
pub struct FrameBuffer {
    pub phy_addr: usize,
    /// The address at which the buffer is mapped, if it is.
    pub vir_addr: Option<usize>,
    pub size: usize,
    pub width: u32,
    pub height: u32,
    /// Bytes per line.
    pub stride: u32,
    pub format: PixelFormat,
}

/// State of a capture.
#[derive(Debug, Clone, Copy, PartialEq, Eq, Structural)]
pub enum CaptureState {
    Idle,
    Capturing,
    FrameReady,
    Error,
}

/// Why a capture operation failed.
#[derive(Debug, Clone, Copy, PartialEq, Eq, Structural)]
pub enum CaptureError {
    NotInitialized,
    BufferTooSmall,
    Timeout,
    FifoOverflow,
    CrcError,
    EccError,
    InvalidConfig,
}

/// Capture parameters.
#[derive(Debug, Clone, Copy, PartialEq, Eq, Structural)]
pub struct CaptureConfig {
    pub width: u32,
    pub height: u32,
    pub format: PixelFormat,
    /// Number of frame buffers, 1 to 4.
    pub buffer_count: u8,
}

/// Bytes per pixel of a frame buffer's first plane in `format`.
pub open spec fn capture_bytes_per_pixel(format: PixelFormat) -> u32 {
    match format {
        PixelFormat::Raw8 | PixelFormat::Yuv422_8 | PixelFormat::Nv12 | PixelFormat::Nv21 => 1,
        PixelFormat::Raw10 | PixelFormat::Yuv422_10 | PixelFormat::Raw12 => 2,
    }
}

/// Bytes per line of a frame of `config`.
pub open spec fn stride_of(config: CaptureConfig) -> int {
    config.width * capture_bytes_per_pixel(config.format)
}

/// Bytes a frame buffer of `config` must hold.
pub open spec fn required_size(config: CaptureConfig) -> int {
    stride_of(config) * config.height
}

/// The frame buffer at `addr` of `size` bytes for frames of `config`.
pub open spec fn frame_buffer_for(config: CaptureConfig, addr: usize, size: usize) -> FrameBuffer {
    FrameBuffer {
        phy_addr: addr,
        vir_addr: None,
        size,
        width: config.width,
        height: config.height,
        stride: stride_of(config) as u32,
        format: config.format,
    }
}

/// Whether `config`'s line and frame sizes fit in 32 bits.
pub open spec fn sizes_fit(config: CaptureConfig) -> bool {
    stride_of(config) <= u32::MAX && required_size(config) <= u32::MAX
}

/// A frame capture on link `devno` of a camera interface.
pub struct FrameCapture {
    devno: u32,
    cif_dev: Option<CifDev>,
    state: CaptureState,
    buffers: Vec<Option<FrameBuffer>>,
    current_buffer: usize,
    config: Option<CaptureConfig>,
}

impl FrameCapture {
    /// Link number.
    pub closed spec fn link_no(&self) -> u32 {
        self.devno
    }

    /// The camera interface, once given.
    pub closed spec fn cif(&self) -> Option<CifDev> {
        self.cif_dev
    }

    /// State of the capture.
    pub closed spec fn capture_state(&self) -> CaptureState {
        self.state
    }

    /// The four buffer slots.
    pub closed spec fn slots(&self) -> Seq<Option<FrameBuffer>> {
        self.buffers@
    }

    /// The slot the next frame comes from.
    pub closed spec fn cur(&self) -> usize {
        self.current_buffer
    }

    /// The configuration, once set.
    pub closed spec fn cfg(&self) -> Option<CaptureConfig> {
        self.config
    }

    /// Four slots, the current one among them, and a configured buffer
    /// count of 1 to 4.
    pub closed spec fn wf(&self) -> bool {
        &&& self.buffers@.len() == 4
        &&& self.current_buffer < 4
        &&& (self.config matches Some(c) ==> 1 <= c.buffer_count <= 4)
    }

    /// A capture of link `devno`: idle, with no interface, configuration or
    /// buffer.
    pub fn new(devno: u32) -> (f: Self)
        ensures
            f.wf(),
            f.link_no() == devno,
            f.cif() is None,
            f.capture_state() == CaptureState::Idle,
            f.slots() == seq![None::<FrameBuffer>, None, None, None],
            f.cur() == 0,
            f.cfg() is None,
    {
        let buffers: Vec<Option<FrameBuffer>> = vec![None, None, None, None];
        FrameCapture { devno, cif_dev: None, state: CaptureState::Idle, buffers, current_buffer: 0, config: None }
    }

    /// Gives the capture its camera interface.
    pub fn init(&mut self, cif_dev: CifDev)
        requires
            old(self).wf(),
        ensures
            final(self).wf(),
            final(self).cif() == Some(cif_dev),
            final(self).link_no() == old(self).link_no(),
            final(self).capture_state() == old(self).capture_state(),
            final(self).slots() == old(self).slots(),
            final(self).cur() == old(self).cur(),
            final(self).cfg() == old(self).cfg(),
    {
        self.cif_dev = Some(cif_dev);
    }

    /// Sets the capture parameters: refused before the interface is given,
    /// and for a buffer count outside 1 to 4.
    pub fn configure(&mut self, config: &CaptureConfig) -> (r: Result<(), CaptureError>)
        requires
            old(self).wf(),
        ensures
            final(self).wf(),
            final(self).cif() == old(self).cif(),
            final(self).link_no() == old(self).link_no(),
            final(self).capture_state() == old(self).capture_state(),
            final(self).slots() == old(self).slots(),
            final(self).cur() == old(self).cur(),
            old(self).cif() is None ==> r == Err::<(), CaptureError>(CaptureError::NotInitialized)
                && final(self).cfg() == old(self).cfg(),
            old(self).cif() is Some && (config.buffer_count == 0 || config.buffer_count > 4)
                ==> r == Err::<(), CaptureError>(CaptureError::InvalidConfig) && final(self).cfg() == old(self).cfg(),
            old(self).cif() is Some && 1 <= config.buffer_count <= 4 ==> r is Ok && final(self).cfg() == Some(*config),
    {
        if self.cif_dev.is_none() {
            return Err(CaptureError::NotInitialized);
        }
        if config.buffer_count == 0 || config.buffer_count > 4 {
            return Err(CaptureError::InvalidConfig);
        }
        self.config = Some(*config);
        Ok(())
    }

    /// Hands the capture its frame buffers: the first `buffer_count` of
    /// `phy_addrs`, of the sizes in `sizes`. Refused before configuration,
    /// and when fewer addresses are given; a buffer smaller than a frame
    /// stops the loop with an error, the earlier slots already filled.
    pub fn allocate_buffers(&mut self, phy_addrs: &[usize], sizes: &[usize]) -> (r: Result<(), CaptureError>)
        requires
            old(self).wf(),
            old(self).cfg() matches Some(c) ==> sizes_fit(c),
            old(self).cfg() matches Some(c) ==> (phy_addrs@.len() >= c.buffer_count && sizes@.len() < c.buffer_count
                ==> exists|j: int| 0 <= j < sizes@.len() && sizes@[j] < required_size(c)),
        ensures
            final(self).wf(),
            final(self).cif() == old(self).cif(),
            final(self).link_no() == old(self).link_no(),
            final(self).capture_state() == old(self).capture_state(),
            final(self).cur() == old(self).cur(),
            final(self).cfg() == old(self).cfg(),
            old(self).cfg() is None ==> r == Err::<(), CaptureError>(CaptureError::NotInitialized)
                && final(self).slots() == old(self).slots(),
            old(self).cfg() matches Some(c) ==> {
                let n = c.buffer_count as int;
                if phy_addrs@.len() < n {
                    r == Err::<(), CaptureError>(CaptureError::BufferTooSmall) && final(self).slots() == old(self).slots()
                } else if forall|j: int| 0 <= j < n ==> sizes@[j] >= required_size(c) {
                    &&& r is Ok
                    &&& forall|j: int| 0 <= j < n ==> #[trigger] final(self).slots()[j]
                        == Some(frame_buffer_for(c, phy_addrs@[j], sizes@[j]))
                    &&& forall|j: int| n <= j < 4 ==> #[trigger] final(self).slots()[j] == old(self).slots()[j]
                } else {
                    &&& r == Err::<(), CaptureError>(CaptureError::BufferTooSmall)
                    &&& exists|k: int| 0 <= k < n && sizes@[k] < required_size(c)
                        && (forall|j: int| 0 <= j < k ==> sizes@[j] >= required_size(c))
                        && (forall|j: int| 0 <= j < k ==> #[trigger] final(self).slots()[j]
                            == Some(frame_buffer_for(c, phy_addrs@[j], sizes@[j])))
                        && (forall|j: int| k <= j < 4 ==> #[trigger] final(self).slots()[j] == old(self).slots()[j])
                }
            },
    {
        let config = match self.config {
            Some(c) => c,
            None => {
                return Err(CaptureError::NotInitialized);
            },
        };
        let n = config.buffer_count as usize;
        if phy_addrs.len() < n {
            return Err(CaptureError::BufferTooSmall);
        }
        let bytes_per_pixel: u32 = match config.format {
            PixelFormat::Raw8 | PixelFormat::Yuv422_8 => 1,
            PixelFormat::Raw10 | PixelFormat::Yuv422_10 => 2,
            PixelFormat::Raw12 => 2,
            PixelFormat::Nv12 | PixelFormat::Nv21 => 1,
        };
        let stride = config.width * bytes_per_pixel;
        let required = (stride * config.height) as usize;
        let ghost old_slots = self.buffers@;
        let mut i: usize = 0;
        while i < n
            invariant
                self.wf(),
                self.cif() == old(self).cif(),
                self.link_no() == old(self).link_no(),
                self.capture_state() == old(self).capture_state(),
                self.cur() == old(self).cur(),
                self.cfg() == Some(config),
                old(self).cfg() == Some(config),
                old_slots == old(self).slots(),
                n == config.buffer_count,
                1 <= n <= 4,
                i <= n,
                phy_addrs@.len() >= n,
                stride == stride_of(config),
                required == required_size(config),
                sizes_fit(config),
                sizes@.len() < n ==> exists|j: int| 0 <= j < sizes@.len() && sizes@[j] < required_size(config),
                forall|j: int| 0 <= j < i ==> sizes@[j] >= required_size(config),
                forall|j: int| 0 <= j < i ==> #[trigger] self.buffers@[j]
                    == Some(frame_buffer_for(config, phy_addrs@[j], sizes@[j])),
                forall|j: int| i <= j < 4 ==> #[trigger] self.buffers@[j] == old_slots[j],
            decreases n - i,
        {
            if i >= sizes.len() {
                assert(false);
            }
            if sizes[i] < required {
                return Err(CaptureError::BufferTooSmall);
            }
            let fb = FrameBuffer {
                phy_addr: phy_addrs[i],
                vir_addr: None,
                size: sizes[i],
                width: config.width,
                height: config.height,
                stride,
                format: config.format,
            };
            self.buffers.set(i, Some(fb));
            i = i + 1;
        }
        Ok(())
    }

    /// Starts capturing from the first buffer; refused before the interface
    /// is given or the capture configured.
    pub fn start(&mut self) -> (r: Result<(), CaptureError>)
        requires
            old(self).wf(),
        ensures
            final(self).wf(),
            final(self).cif() == old(self).cif(),
            final(self).link_no() == old(self).link_no(),
            final(self).slots() == old(self).slots(),
            final(self).cfg() == old(self).cfg(),
            (old(self).cif() is None || old(self).cfg() is None) ==> r == Err::<(), CaptureError>(CaptureError::NotInitialized)
                && final(self).capture_state() == old(self).capture_state() && final(self).cur() == old(self).cur(),
            (old(self).cif() is Some && old(self).cfg() is Some) ==> r is Ok
                && final(self).capture_state() == CaptureState::Capturing && final(self).cur() == 0,
    {
        if self.cif_dev.is_none() || self.config.is_none() {
            return Err(CaptureError::NotInitialized);
        }
        self.state = CaptureState::Capturing;
        self.current_buffer = 0;
        Ok(())
    }

    /// Stops capturing.
    pub fn stop(&mut self) -> (r: Result<(), CaptureError>)
        requires
            old(self).wf(),
        ensures
            r is Ok,
            final(self).wf(),
            final(self).capture_state() == CaptureState::Idle,
            final(self).cif() == old(self).cif(),
            final(self).link_no() == old(self).link_no(),
            final(self).slots() == old(self).slots(),
            final(self).cur() == old(self).cur(),
            final(self).cfg() == old(self).cfg(),
    {
        self.state = CaptureState::Idle;
        Ok(())
    }

    /// The next frame: refused unless capturing, on a missing link, and
    /// when the link has counted CRC, ECC or FIFO errors (in that order);
    /// otherwise the current buffer, if it was handed over, and the
    /// capture moves on to the next one.
    pub fn get_frame(&mut self, timeout_ms: u32) -> (r: Result<FrameBuffer, CaptureError>)
        requires
            old(self).wf(),
        ensures
            final(self).wf(),
            final(self).cif() == old(self).cif(),
            final(self).link_no() == old(self).link_no(),
            final(self).capture_state() == old(self).capture_state(),
            final(self).slots() == old(self).slots(),
            final(self).cfg() == old(self).cfg(),
            r == frame_result(*old(self)),
            final(self).cur() == (if r is Ok {
                ((old(self).cur() + 1) % (old(self).cfg()->0.buffer_count as int)) as usize
            } else {
                old(self).cur()
            }),
    {
        if self.state != CaptureState::Capturing {
            return Err(CaptureError::NotInitialized);
        }
        match &self.cif_dev {
            Some(dev) => {
                match dev.link(self.devno as usize) {
                    None => {
                        return Err(CaptureError::NotInitialized);
                    },
                    Some(link) => {
                        if link.sts_csi.errcnt_crc > 0 {
                            return Err(CaptureError::CrcError);
                        }
                        if link.sts_csi.errcnt_ecc > 0 {
                            return Err(CaptureError::EccError);
                        }
                        if link.sts_csi.fifo_full > 0 {
                            return Err(CaptureError::FifoOverflow);
                        }
                    },
                }
            },
            None => {},
        }
        let buffer = match self.buffers[self.current_buffer] {
            Some(b) => b,
            None => {
                return Err(CaptureError::NotInitialized);
            },
        };
        let config = match self.config {
            Some(c) => c,
            None => {
                return Err(CaptureError::NotInitialized);
            },
        };
        self.current_buffer = (self.current_buffer + 1) % (config.buffer_count as usize);
        Ok(buffer)
    }

    /// Gives a frame back; nothing to do.
    pub fn release_frame(&mut self, frame: &FrameBuffer) -> (r: Result<(), CaptureError>)
        ensures
            r is Ok,
            *final(self) == *old(self),
    {
        Ok(())
    }

    /// State of the capture.
    pub fn state(&self) -> (s: CaptureState)
        ensures
            s == self.capture_state(),
    {
        self.state
    }

    /// Whether a frame is ready.
    pub fn is_frame_ready(&self) -> (b: bool)
        ensures
            b == (self.capture_state() == CaptureState::FrameReady),
    {
        self.state == CaptureState::FrameReady
    }

    /// The CSI error counters of the capture's link, if there is an
    /// interface and the link exists.
    pub fn get_error_stats(&self) -> (s: Option<CsiStatus>)
        ensures
            s == (match self.cif() {
                Some(d) => if self.link_no() < 3 {
                    Some(d.links@[self.link_no() as int].sts_csi)
                } else {
                    None
                },
                None => None,
            }),
    {
        match &self.cif_dev {
            Some(dev) => match dev.link(self.devno as usize) {
                Some(link) => Some(link.sts_csi),
                None => None,
            },
            None => None,
        }
    }
}

/// What [`FrameCapture::get_frame`] returns on capture `f`.
pub open spec fn frame_result(f: FrameCapture) -> Result<FrameBuffer, CaptureError> {
    if f.capture_state() != CaptureState::Capturing {
        Err(CaptureError::NotInitialized)
    } else if f.cif() is Some && f.link_no() >= 3 {
        Err(CaptureError::NotInitialized)
    } else if f.cif() is Some && f.cif()->0.links@[f.link_no() as int].sts_csi.errcnt_crc > 0 {
        Err(CaptureError::CrcError)
    } else if f.cif() is Some && f.cif()->0.links@[f.link_no() as int].sts_csi.errcnt_ecc > 0 {
        Err(CaptureError::EccError)
    } else if f.cif() is Some && f.cif()->0.links@[f.link_no() as int].sts_csi.fifo_full > 0 {
        Err(CaptureError::FifoOverflow)
    } else if f.slots()[f.cur() as int] is None || f.cfg() is None {
        Err(CaptureError::NotInitialized)
    } else {
        Ok(f.slots()[f.cur() as int]->0)
    }
}

/// Bytes per pixel of a raw frame in `format`.
pub open spec fn raw_bytes_per_pixel(format: PixelFormat) -> int {
    match format {
        PixelFormat::Raw8 => 1,
        _ => 2,
    }
}

/// Size in bytes of a raw frame.
pub open spec fn raw_buffer_size(width: u32, height: u32, format: PixelFormat) -> int {
    width * height * raw_bytes_per_pixel(format)
}

/// Size in bytes of a YUV frame.
pub open spec fn yuv_buffer_size(width: u32, height: u32, format: PixelFormat) -> int {
    match format {
        PixelFormat::Yuv422_10 => width * height * 4,
        PixelFormat::Nv12 | PixelFormat::Nv21 => width * height * 3 / 2,
        _ => width * height * 2,
    }
}

/// The buffer size of a raw frame of `width` by `height` pixels.
pub fn calc_raw_buffer_size(width: u32, height: u32, format: PixelFormat) -> (s: usize)
    requires
        raw_buffer_size(width, height, format) <= u32::MAX,
    ensures
        s == raw_buffer_size(width, height, format),
{
    let bytes_per_pixel: u32 = match format {
        PixelFormat::Raw8 => 1,
        _ => 2,
    };
    assert(width * height <= width * height * bytes_per_pixel) by (nonlinear_arith)
        requires
            bytes_per_pixel >= 1,
    ;
    (width * height * bytes_per_pixel) as usize
}

/// The buffer size of a YUV frame of `width` by `height` pixels (a
/// 4:2:0 frame takes one and a half bytes per pixel).
pub fn calc_yuv_buffer_size(width: u32, height: u32, format: PixelFormat) -> (s: usize)
    requires
        (match format {
            PixelFormat::Nv12 | PixelFormat::Nv21 => width * height * 3,
            _ => yuv_buffer_size(width, height, format),
        }) <= u32::MAX,
    ensures
        s == yuv_buffer_size(width, height, format),
{
    assert(width * height <= width * height * 2) by (nonlinear_arith);
    assert(width * height <= width * height * 3) by (nonlinear_arith);
    assert(width * height <= width * height * 4) by (nonlinear_arith);
    match format {
        PixelFormat::Yuv422_8 => (width * height * 2) as usize,
        PixelFormat::Yuv422_10 => (width * height * 4) as usize,
        PixelFormat::Nv12 | PixelFormat::Nv21 => (width * height * 3 / 2) as usize,
        _ => (width * height * 2) as usize,
    }
}

} // verus!
