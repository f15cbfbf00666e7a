//! JPEG header parsing (SOF / DHT / DQT / DRI / SOS) for the JPU.
//!
//! The parser scans markers up to the start of scan.  Its behaviour is stated
//! by [`parse_at`], which reads the header the way the hardware programming
//! needs it, including what happens on truncated or unusual streams.
use super::regs::{FORMAT_224, FORMAT_400, FORMAT_420, FORMAT_422, FORMAT_444};
use vstd::prelude::*;

verus! {

/// One Huffman table as uploaded to the JPU.
pub struct HuffTable {
    pub bits: [u8; 16],
    pub values: [u8; 256],
    pub num_values: usize,
    pub min_codes: [u32; 16],
    pub max_codes: [u32; 16],
    pub ptrs: [u8; 16],
}

/// One quantisation table.
pub struct QuantTable {
    pub values: [u16; 64],
}

/// What the parser extracts from a JPEG header.
pub struct JpegHeaderInfo {
    pub width: u32,
    pub height: u32,
    pub num_components: u32,
    pub format: u32,
    pub ecs_offset: usize,
    pub restart_interval: u32,
    pub dc_huff_tbl: [usize; 3],
    pub ac_huff_tbl: [usize; 3],
    pub quant_tbl: [usize; 3],
    pub huff_tables: [HuffTable; 4],
    pub quant_tables: [QuantTable; 4],
    pub huff_table_count: usize,
    pub quant_table_count: usize,
}

/// Mathematical content of a [`HuffTable`].
#[verifier::ext_equal]
pub struct HuffModel {
    pub bits: Seq<u8>,
    pub values: Seq<u8>,
    pub num_values: usize,
    pub min_codes: Seq<u32>,
    pub max_codes: Seq<u32>,
    pub ptrs: Seq<u8>,
}

/// Mathematical content of a [`JpegHeaderInfo`].
#[verifier::ext_equal]
pub struct HeaderModel {
    pub width: u32,
    pub height: u32,
    pub num_components: u32,
    pub format: u32,
    pub ecs_offset: usize,
    pub restart_interval: u32,
    pub dc: Seq<usize>,
    pub ac: Seq<usize>,
    pub qt: Seq<usize>,
    pub huff: Seq<HuffModel>,
    pub quant: Seq<Seq<u16>>,
    pub huff_count: usize,
    pub quant_count: usize,
}

/// Why a header could not be parsed.
#[derive(Clone, Copy, Debug, PartialEq, Eq, Structural)]
pub enum HeaderError {
    /// The SOF segment ends before its component count.
    SofTooShort,
    /// No start-of-scan marker before the end of the data or an EOI marker.
    SosNotFound,
}

/// Result of the parse of a header, as a specification.
pub enum HeaderOutcome {
    Parsed(HeaderModel),
    Failed(HeaderError),
    /// The input drives the parser to an out-of-range table index.
    Panics,
}

// ---------------------------------------------------------------------------
// Canonical Huffman code generation
// ---------------------------------------------------------------------------
/// Some code length below `i` is used.
pub open spec fn codes_started(bits: Seq<u8>, i: nat) -> bool
    decreases i,
{
    if i == 0 {
        false
    } else {
        codes_started(bits, (i - 1) as nat) || bits[i - 1] != 0
    }
}

/// The first code of length `i + 1` in the canonical code of `bits`.
pub open spec fn first_code(bits: Seq<u8>, i: nat) -> int
    decreases i,
{
    if i == 0 {
        0
    } else {
        let prev = first_code(bits, (i - 1) as nat);
        if codes_started(bits, i) {
            (prev + bits[i - 1]) * 2
        } else {
            0
        }
    }
}

/// Number of values with a code shorter than `i + 1` bits.
pub open spec fn codes_before(bits: Seq<u8>, i: nat) -> int
    decreases i,
{
    if i == 0 {
        0
    } else {
        codes_before(bits, (i - 1) as nat) + bits[i - 1]
    }
}

/// Bound on the first codes: `cap(i) = 2 * (cap(i - 1) + 255)`.
pub open spec fn code_cap(i: nat) -> int
    decreases i,
{
    if i == 0 {
        0
    } else {
        2 * (code_cap((i - 1) as nat) + 255)
    }
}

proof fn lemma_first_code_bound(bits: Seq<u8>, i: nat)
    requires
        i <= 16,
        bits.len() == 16,
    ensures
        0 <= first_code(bits, i) <= code_cap(i),
        code_cap(i) <= code_cap(16),
        code_cap(16) < 0x4000000,
        0 <= codes_before(bits, i) <= 255 * i,
    decreases i,
{
    reveal_with_fuel(code_cap, 17);
    if i > 0 {
        lemma_first_code_bound(bits, (i - 1) as nat);
        lemma_code_cap_mono((i - 1) as nat);
    }
    lemma_code_cap_mono_to16(i);
}

proof fn lemma_code_cap_mono(i: nat)
    ensures
        code_cap(i) <= code_cap(i + 1),
        code_cap(i) >= 0,
    decreases i,
{
    if i > 0 {
        lemma_code_cap_mono((i - 1) as nat);
    }
}

proof fn lemma_code_cap_mono_to16(i: nat)
    requires
        i <= 16,
    ensures
        code_cap(i) <= code_cap(16),
    decreases 16 - i,
{
    if i < 16 {
        lemma_code_cap_mono(i);
        lemma_code_cap_mono_to16(i + 1);
    }
}

/// The table `t` with its code ranges and value pointers generated from `t.bits`.
pub open spec fn generated(t: HuffModel) -> HuffModel {
    HuffModel {
        min_codes: Seq::new(
            16,
            |i: int|
                if t.bits[i] != 0 {
                    first_code(t.bits, i as nat) as u32
                } else {
                    0xFFFFu32
                },
        ),
        max_codes: Seq::new(
            16,
            |i: int|
                if t.bits[i] != 0 {
                    (first_code(t.bits, i as nat) + t.bits[i] - 1) as u32
                } else {
                    0xFFFFu32
                },
        ),
        ptrs: Seq::new(
            16,
            |i: int|
                if t.bits[i] != 0 {
                    (codes_before(t.bits, i as nat) % 256) as u8
                } else {
                    0xFFu8
                },
        ),
        ..t
    }
}

impl HuffTable {
    pub open spec fn view(&self) -> HuffModel {
        HuffModel {
            bits: self.bits@,
            values: self.values@,
            num_values: self.num_values,
            min_codes: self.min_codes@,
            max_codes: self.max_codes@,
            ptrs: self.ptrs@,
        }
    }

    /// An empty table: no code lengths, every range marked unused.
    pub fn new() -> (t: Self)
        ensures
            t@.bits == Seq::new(16, |i: int| 0u8),
            t@.values == Seq::new(256, |i: int| 0u8),
            t@.num_values == 0,
            t@.min_codes == Seq::new(16, |i: int| 0xFFFFu32),
            t@.max_codes == Seq::new(16, |i: int| 0xFFFFu32),
            t@.ptrs == Seq::new(16, |i: int| 0xFFu8),
    {
        let t = HuffTable {
            bits: [0; 16],
            values: [0; 256],
            num_values: 0,
            min_codes: [0xFFFF; 16],
            max_codes: [0xFFFF; 16],
            ptrs: [0xFF; 16],
        };
        assert(t@.bits =~= Seq::new(16, |i: int| 0u8));
        assert(t@.values =~= Seq::new(256, |i: int| 0u8));
        assert(t@.min_codes =~= Seq::new(16, |i: int| 0xFFFFu32));
        assert(t@.max_codes =~= Seq::new(16, |i: int| 0xFFFFu32));
        assert(t@.ptrs =~= Seq::new(16, |i: int| 0xFFu8));
        t
    }

    /// `0xFFFF` when bit 15 of `huff_data` is set, else 0.
    pub fn sign_extend_16(huff_data: u32) -> (r: u32)
        ensures
            r == if huff_data & 0x8000 != 0 {
                0xFFFFu32
            } else {
                0u32
            },
    {
        if huff_data & 0x8000 != 0 {
            0xFFFF
        } else {
            0
        }
    }

    /// `0xFFFFFF` when bit 7 of `huff_data` is set, else 0.
    pub fn sign_extend_8(huff_data: u32) -> (r: u32)
        ensures
            r == if huff_data & 0x80 != 0 {
                0xFFFFFFu32
            } else {
                0u32
            },
    {
        if huff_data & 0x80 != 0 {
            0xFFFFFF
        } else {
            0
        }
    }

    /// Derives the canonical code ranges and value pointers from `bits`.
    pub fn generate(&mut self)
        ensures
            final(self)@ == generated(old(self)@),
    {
        let ghost b = self.bits@;
        let ghost g = generated(old(self)@);
        let mut ptr_cnt: usize = 0;
        let mut huff_code: u32 = 0;
        let mut data_flag = false;
        let mut i: usize = 0;
        while i < 16
            invariant
                0 <= i <= 16,
                self.bits@ == b,
                b == old(self)@.bits,
                b.len() == 16,
                g == generated(old(self)@),
                self.values@ == old(self).values@,
                self.num_values == old(self).num_values,
                data_flag == codes_started(b, i as nat),
                huff_code == first_code(b, i as nat),
                ptr_cnt == codes_before(b, i as nat),
                forall|k: int| 0 <= k < i ==> #[trigger] self.min_codes@[k] == g.min_codes[k],
                forall|k: int| 0 <= k < i ==> #[trigger] self.max_codes@[k] == g.max_codes[k],
                forall|k: int| 0 <= k < i ==> #[trigger] self.ptrs@[k] == g.ptrs[k],
            decreases 16 - i,
        {
            proof {
                lemma_first_code_bound(b, i as nat);
                lemma_first_code_bound(b, (i + 1) as nat);
            }
            let nbits = self.bits[i];
            if nbits != 0 {
                self.ptrs[i] = (ptr_cnt % 256) as u8;
                ptr_cnt = ptr_cnt + nbits as usize;
                self.min_codes[i] = huff_code;
                self.max_codes[i] = huff_code + (nbits as u32 - 1);
                data_flag = true;
            } else {
                self.ptrs[i] = 0xFF;
                self.min_codes[i] = 0xFFFF;
                self.max_codes[i] = 0xFFFF;
            }
            assert(self.min_codes@[i as int] == g.min_codes[i as int]);
            assert(self.max_codes@[i as int] == g.max_codes[i as int]);
            assert(self.ptrs@[i as int] == g.ptrs[i as int]);
            if data_flag {
                if nbits == 0 {
                    huff_code = huff_code * 2;
                } else {
                    huff_code = (self.max_codes[i] + 1) * 2;
                }
            }
            i = i + 1;
        }
        assert(self.min_codes@ =~= g.min_codes);
        assert(self.max_codes@ =~= g.max_codes);
        assert(self.ptrs@ =~= g.ptrs);
        assert(self@ =~~= generated(old(self)@));
    }
}

impl QuantTable {
    pub open spec fn view(&self) -> Seq<u16> {
        self.values@
    }

    /// A table of zeros.
    pub fn new() -> (t: Self)
        ensures
            t@ == Seq::new(64, |i: int| 0u16),
    {
        let t = QuantTable { values: [0; 64] };
        assert(t@ =~= Seq::new(64, |i: int| 0u16));
        t
    }
}

impl JpegHeaderInfo {
    pub open spec fn view(&self) -> HeaderModel {
        HeaderModel {
            width: self.width,
            height: self.height,
            num_components: self.num_components,
            format: self.format,
            ecs_offset: self.ecs_offset,
            restart_interval: self.restart_interval,
            dc: self.dc_huff_tbl@,
            ac: self.ac_huff_tbl@,
            qt: self.quant_tbl@,
            huff: Seq::new(4, |k: int| self.huff_tables@[k]@),
            quant: Seq::new(4, |k: int| self.quant_tables@[k]@),
            huff_count: self.huff_table_count,
            quant_count: self.quant_table_count,
        }
    }

    /// Header with nothing read yet (format 4:2:0, empty tables).
    pub fn new() -> (h: Self)
        ensures
            h@ == initial_header(),
    {
        let h = JpegHeaderInfo {
            width: 0,
            height: 0,
            num_components: 0,
            format: FORMAT_420,
            ecs_offset: 0,
            restart_interval: 0,
            dc_huff_tbl: [0; 3],
            ac_huff_tbl: [0; 3],
            quant_tbl: [0; 3],
            huff_tables: [HuffTable::new(), HuffTable::new(), HuffTable::new(), HuffTable::new()],
            quant_tables: [QuantTable::new(), QuantTable::new(), QuantTable::new(), QuantTable::new()],
            huff_table_count: 0,
            quant_table_count: 0,
        };
        assert(h@.dc =~= Seq::new(3, |i: int| 0usize));
        assert(h@.ac =~= Seq::new(3, |i: int| 0usize));
        assert(h@.qt =~= Seq::new(3, |i: int| 0usize));
        assert(h@ =~~= initial_header());
        h
    }
}

/// The content of an empty Huffman table.
pub open spec fn empty_huff() -> HuffModel {
    HuffModel {
        bits: Seq::new(16, |i: int| 0u8),
        values: Seq::new(256, |i: int| 0u8),
        num_values: 0,
        min_codes: Seq::new(16, |i: int| 0xFFFFu32),
        max_codes: Seq::new(16, |i: int| 0xFFFFu32),
        ptrs: Seq::new(16, |i: int| 0xFFu8),
    }
}

/// The header before any marker is read.
pub open spec fn initial_header() -> HeaderModel {
    HeaderModel {
        width: 0,
        height: 0,
        num_components: 0,
        format: FORMAT_420,
        ecs_offset: 0,
        restart_interval: 0,
        dc: Seq::new(3, |i: int| 0usize),
        ac: Seq::new(3, |i: int| 0usize),
        qt: Seq::new(3, |i: int| 0usize),
        huff: Seq::new(4, |k: int| empty_huff()),
        quant: Seq::new(4, |k: int| Seq::new(64, |i: int| 0u16)),
        huff_count: 0,
        quant_count: 0,
    }
}

// ---------------------------------------------------------------------------
// Segment semantics
// ---------------------------------------------------------------------------
/// Big-endian 16-bit value at `k`.
pub open spec fn be16(data: Seq<u8>, k: int) -> int {
    data[k] * 256 + data[k + 1]
}

/// Sampling format named by the first two components' factors.
pub open spec fn sampling_format(h1: u8, v1: u8, h2: u8, v2: u8) -> u32 {
    if h1 == 2 && v1 == 2 && h2 == 1 && v2 == 1 {
        FORMAT_420
    } else if h1 == 2 && v1 == 1 {
        FORMAT_422
    } else if h1 == 1 && v1 == 2 {
        FORMAT_224
    } else {
        FORMAT_444
    }
}

/// Effect of an SOF segment at `i` (which has at least 11 bytes).
pub open spec fn sof_spec(data: Seq<u8>, i: int, h: HeaderModel) -> HeaderModel {
    let nc = data[i + 9] as u32;
    let cs = i + 10;
    let h1 = HeaderModel {
        height: be16(data, i + 5) as u32,
        width: be16(data, i + 7) as u32,
        num_components: nc,
        ..h
    };
    if nc == 3 {
        if cs + 9 <= data.len() {
            HeaderModel {
                qt: seq![data[cs + 2] as usize, data[cs + 5] as usize, data[cs + 8] as usize],
                format: sampling_format(
                    (data[cs + 1] >> 4u8) & 0x0F,
                    data[cs + 1] & 0x0F,
                    (data[cs + 4] >> 4u8) & 0x0F,
                    data[cs + 4] & 0x0F,
                ),
                ..h1
            }
        } else {
            h1
        }
    } else {
        HeaderModel { format: FORMAT_400, ..h1 }
    }
}

/// Number of scan components whose table selectors an SOS at `i` can set.
pub open spec fn sos_count(data: Seq<u8>, i: int) -> int {
    if i + 5 < data.len() {
        if data[i + 4] < 3 {
            data[i + 4] as int
        } else {
            3
        }
    } else {
        0
    }
}

/// Whether the selector byte of scan component `k` of an SOS at `i` is present.
pub open spec fn sos_present(data: Seq<u8>, i: int, k: int) -> bool {
    0 <= k < sos_count(data, i) && i + 5 + 2 * k + 2 <= data.len()
}

/// Effect of an SOS segment at `i` (with its length bytes present).
pub open spec fn sos_spec(data: Seq<u8>, i: int, h: HeaderModel) -> HeaderModel {
    HeaderModel {
        dc: Seq::new(
            3,
            |k: int|
                if sos_present(data, i, k) {
                    ((data[i + 6 + 2 * k] >> 4u8) & 0x0F) as usize
                } else {
                    h.dc[k]
                },
        ),
        ac: Seq::new(
            3,
            |k: int|
                if sos_present(data, i, k) {
                    (data[i + 6 + 2 * k] & 0x0F) as usize
                } else {
                    h.ac[k]
                },
        ),
        ecs_offset: (i + 2 + be16(data, i + 2)) as usize,
        ..h
    }
}

/// Sum of the code counts of a DHT table at `start`, counting only bytes present.
pub open spec fn present_sum(data: Seq<u8>, start: int, n: nat) -> int
    decreases n,
{
    if n == 0 {
        0
    } else {
        present_sum(data, start, (n - 1) as nat) + if start + n - 1 < data.len() {
            data[start + n - 1] as int
        } else {
            0
        }
    }
}

pub proof fn lemma_present_sum_bound(data: Seq<u8>, start: int, n: nat)
    ensures
        0 <= present_sum(data, start, n) <= 255 * n,
    decreases n,
{
    if n > 0 {
        lemma_present_sum_bound(data, start, (n - 1) as nat);
    }
}

/// Table slot selected by a DHT class/id byte.
pub open spec fn dht_slot(tc_th: u8) -> int {
    (((tc_th & 0x0F) & 1) * 2 + (((tc_th >> 4u8) & 0x0F) & 1)) as int
}

/// Effect of the DHT tables from `offset` up to `end`; `None` when a table
/// holds more than 256 values that are present in the data.
pub open spec fn dht_spec(data: Seq<u8>, offset: int, end: int, h: HeaderModel) -> Option<HeaderModel>
    decreases if end > offset {
        end - offset
    } else {
        0
    },
{
    if !(offset < end && offset + 1 < data.len()) || offset < 0 {
        Some(h)
    } else {
        let idx = dht_slot(data[offset]);
        let old = h.huff[idx];
        let nv = present_sum(data, offset + 1, 16);
        if nv > 256 && offset + 17 + 256 < data.len() {
            None
        } else {
            let t = HuffModel {
                bits: Seq::new(
                    16,
                    |j: int|
                        if offset + 1 + j < data.len() {
                            data[offset + 1 + j]
                        } else {
                            old.bits[j]
                        },
                ),
                values: Seq::new(
                    256,
                    |j: int|
                        if j < nv && offset + 17 + j < data.len() {
                            data[offset + 17 + j]
                        } else {
                            old.values[j]
                        },
                ),
                num_values: nv as usize,
                ..old
            };
            let h2 = HeaderModel {
                huff: h.huff.update(idx, generated(t)),
                huff_count: if idx >= h.huff_count {
                    (idx + 1) as usize
                } else {
                    h.huff_count
                },
                ..h
            };
            proof {
                lemma_present_sum_bound(data, offset + 1, 16);
            }
            dht_spec(data, offset + 17 + nv, end, h2)
        }
    }
}

/// Effect of the DQT tables from `offset` up to `end`; `None` when a table id
/// beyond 3 would be written.
pub open spec fn dqt_spec(data: Seq<u8>, offset: int, end: int, h: HeaderModel) -> Option<HeaderModel>
    decreases if end > offset {
        end - offset
    } else {
        0
    },
{
    if !(offset < end && offset + 1 < data.len()) || offset < 0 {
        Some(h)
    } else {
        let pq_tq = data[offset];
        let tq = (pq_tq & 0x0F) as int;
        let count = if tq >= h.quant_count {
            (tq + 1) as usize
        } else {
            h.quant_count
        };
        if pq_tq >> 4u8 == 0 {
            if tq >= 4 {
                None
            } else {
                let vals = Seq::new(
                    64,
                    |j: int|
                        if offset + 1 + j < data.len() {
                            data[offset + 1 + j] as u16
                        } else {
                            h.quant[tq][j]
                        },
                );
                dqt_spec(
                    data,
                    offset + 65,
                    end,
                    HeaderModel { quant: h.quant.update(tq, vals), quant_count: count, ..h },
                )
            }
        } else {
            if tq >= 4 {
                if offset + 2 < data.len() {
                    None
                } else {
                    dqt_spec(data, offset + 129, end, HeaderModel { quant_count: count, ..h })
                }
            } else {
                let vals = Seq::new(
                    64,
                    |j: int|
                        if offset + 2 + 2 * j < data.len() {
                            (data[offset + 1 + 2 * j] * 256 + data[offset + 2 + 2 * j]) as u16
                        } else {
                            h.quant[tq][j]
                        },
                );
                dqt_spec(
                    data,
                    offset + 129,
                    end,
                    HeaderModel { quant: h.quant.update(tq, vals), quant_count: count, ..h },
                )
            }
        }
    }
}

/// The marker scan from position `i` with the header read so far `h`.
pub open spec fn parse_at(data: Seq<u8>, i: int, h: HeaderModel) -> HeaderOutcome
    decreases if data.len() > i {
        data.len() - i
    } else {
        0
    },
{
    if i < 0 || i + 1 >= data.len() {
        HeaderOutcome::Failed(HeaderError::SosNotFound)
    } else if data[i] != 0xFF {
        parse_at(data, i + 1, h)
    } else {
        let m = data[i + 1];
        let seg_end = i + 2 + be16(data, i + 2);
        let has_len = i + 3 < data.len();
        if m == 0xFF {
            parse_at(data, i + 1, h)
        } else if m == 0x00 {
            parse_at(data, i + 2, h)
        } else if m == 0xC0 || m == 0xC2 {
            if i + 10 >= data.len() {
                HeaderOutcome::Failed(HeaderError::SofTooShort)
            } else {
                parse_at(data, seg_end, sof_spec(data, i, h))
            }
        } else if m == 0xC4 {
            if has_len {
                match dht_spec(data, i + 4, seg_end, h) {
                    Some(h2) => parse_at(data, seg_end, h2),
                    None => HeaderOutcome::Panics,
                }
            } else {
                parse_at(data, i + 1, h)
            }
        } else if m == 0xDA {
            if has_len {
                HeaderOutcome::Parsed(sos_spec(data, i, h))
            } else {
                parse_at(data, i + 1, h)
            }
        } else if m == 0xDB {
            if has_len {
                match dqt_spec(data, i + 4, seg_end, h) {
                    Some(h2) => parse_at(data, seg_end, h2),
                    None => HeaderOutcome::Panics,
                }
            } else {
                parse_at(data, i + 1, h)
            }
        } else if m == 0xDD {
            let h2 = if i + 6 <= data.len() {
                HeaderModel { restart_interval: be16(data, i + 4) as u32, ..h }
            } else {
                h
            };
            if has_len {
                parse_at(data, seg_end, h2)
            } else {
                parse_at(data, i + 1, h2)
            }
        } else if m == 0xD8 {
            parse_at(data, i + 2, h)
        } else if m == 0xD9 {
            HeaderOutcome::Failed(HeaderError::SosNotFound)
        } else if m >= 0xC0 && has_len {
            parse_at(data, seg_end, h)
        } else {
            parse_at(data, i + 2, h)
        }
    }
}

/// What [`parse_jpeg_header`] makes of `data`.
pub open spec fn header_spec(data: Seq<u8>) -> HeaderOutcome {
    parse_at(data, 0, initial_header())
}


// ---------------------------------------------------------------------------
// Parser
// ---------------------------------------------------------------------------
proof fn lemma_be16(a: u8, b: u8)
    ensures
        (((a as u32) << 8u32) | (b as u32)) == (a as u32) * 256 + (b as u32),
        (((a as usize) << 8usize) | (b as usize)) == (a as usize) * 256 + (b as usize),
        (((a as u16) << 8u16) | (b as u16)) == (a as u16) * 256 + (b as u16),
{
    assert((((a as u32) << 8u32) | (b as u32)) == (a as u32) * 256 + (b as u32)) by (bit_vector);
    assert((((a as usize) << 8usize) | (b as usize)) == (a as usize) * 256 + (b as usize))
        by (bit_vector);
    assert((((a as u16) << 8u16) | (b as u16)) == (a as u16) * 256 + (b as u16)) by (bit_vector);
}

proof fn lemma_slot(tc_th: u8)
    ensures
        ((((tc_th & 0x0F) & 1) << 1u8) | (((tc_th >> 4u8) & 0x0F) & 1)) as int == dht_slot(tc_th),
        0 <= dht_slot(tc_th) < 4,
{
    assert(((((tc_th & 0x0F) & 1) << 1u8) | (((tc_th >> 4u8) & 0x0F) & 1)) == ((tc_th & 0x0F) & 1)
        * 2 + (((tc_th >> 4u8) & 0x0F) & 1)) by (bit_vector);
    assert((tc_th & 0x0F) & 1 <= 1) by (bit_vector);
    assert(((tc_th >> 4u8) & 0x0F) & 1 <= 1) by (bit_vector);
}

fn read_be16(data: &[u8], k: usize) -> (v: usize)
    requires
        k + 1 < data@.len(),
    ensures
        v == be16(data@, k as int),
{
    proof {
        lemma_be16(data@[k as int], data@[k + 1]);
    }
    ((data[k] as usize) << 8usize) | (data[k + 1] as usize)
}

fn parse_sof(data: &[u8], i: usize, h: &mut JpegHeaderInfo)
    requires
        i + 10 < data@.len(),
        data@.len() + 0x20000 <= usize::MAX,
    ensures
        final(h)@ == sof_spec(data@, i as int, old(h)@),
{
    proof {
        lemma_be16(data@[i + 5], data@[i + 6]);
        lemma_be16(data@[i + 7], data@[i + 8]);
    }
    h.height = ((data[i + 5] as u32) << 8u32) | (data[i + 6] as u32);
    h.width = ((data[i + 7] as u32) << 8u32) | (data[i + 8] as u32);
    h.num_components = data[i + 9] as u32;
    if h.num_components == 3 {
        let comp_start = i + 10;
        if comp_start + 9 <= data.len() {
            let h1 = (data[comp_start + 1] >> 4u8) & 0x0F;
            let v1 = data[comp_start + 1] & 0x0F;
            let h2 = (data[comp_start + 4] >> 4u8) & 0x0F;
            let v2 = data[comp_start + 4] & 0x0F;
            h.quant_tbl[0] = data[comp_start + 2] as usize;
            h.quant_tbl[1] = data[comp_start + 5] as usize;
            h.quant_tbl[2] = data[comp_start + 8] as usize;
            h.format = if h1 == 2 && v1 == 2 && h2 == 1 && v2 == 1 {
                FORMAT_420
            } else if h1 == 2 && v1 == 1 {
                FORMAT_422
            } else if h1 == 1 && v1 == 2 {
                FORMAT_224
            } else {
                FORMAT_444
            };
        }
    } else {
        h.format = FORMAT_400;
    }
    assert(h@ =~~= sof_spec(data@, i as int, old(h)@));
}

fn parse_sos(data: &[u8], i: usize, h: &mut JpegHeaderInfo)
    requires
        i + 3 < data@.len(),
        data@.len() + 0x20000 <= usize::MAX,
    ensures
        final(h)@ == sos_spec(data@, i as int, old(h)@),
{
    let sos_length = read_be16(data, i + 2);
    let ghost spec = sos_spec(data@, i as int, old(h)@);
    let ghost n: int = sos_count(data@, i as int);
    if i + 5 < data.len() {
        let num_scan_components = data[i + 4] as usize;
        let lim = if num_scan_components < 3 {
            num_scan_components
        } else {
            3
        };
        let mut comp_offset = i + 5;
        let mut comp_idx: usize = 0;
        while comp_idx < lim
            invariant
                lim == n,
                n == sos_count(data@, i as int),
                n <= 3,
                i + 5 < data@.len(),
                data@.len() + 0x20000 <= usize::MAX,
                0 <= comp_idx <= lim,
                comp_offset == i + 5 + 2 * comp_idx || (comp_offset + 2 > data@.len()
                    && comp_offset <= i + 5 + 2 * comp_idx),
                h.width == old(h).width,
                h.height == old(h).height,
                h.num_components == old(h).num_components,
                h.format == old(h).format,
                h.ecs_offset == old(h).ecs_offset,
                h.restart_interval == old(h).restart_interval,
                h.quant_tbl == old(h).quant_tbl,
                h.huff_tables == old(h).huff_tables,
                h.quant_tables == old(h).quant_tables,
                h.huff_table_count == old(h).huff_table_count,
                h.quant_table_count == old(h).quant_table_count,
                forall|k: int| 0 <= k < 3 ==> #[trigger] h.dc_huff_tbl@[k] == if k < comp_idx {
                    spec.dc[k]
                } else {
                    old(h)@.dc[k]
                },
                forall|k: int| 0 <= k < 3 ==> #[trigger] h.ac_huff_tbl@[k] == if k < comp_idx {
                    spec.ac[k]
                } else {
                    old(h)@.ac[k]
                },
                spec == sos_spec(data@, i as int, old(h)@),
            decreases lim - comp_idx,
        {
            assert(comp_idx < sos_count(data@, i as int));
            assert(comp_offset == i + 5 + 2 * comp_idx ==> (comp_offset + 2 <= data@.len()) == (i + 5 + 2 * comp_idx + 2 <= data@.len()));
            assert(sos_present(data@, i as int, comp_idx as int) == (i + 5 + 2 * comp_idx + 2 <= data@.len()));
            assert(sos_present(data@, i as int, comp_idx as int) == (comp_offset + 2 <= data@.len()));
            assert(spec.dc[comp_idx as int] == if comp_offset + 2 <= data@.len() {
                ((data@[i + 6 + 2 * comp_idx] >> 4u8) & 0x0F) as usize
            } else {
                old(h)@.dc[comp_idx as int]
            });
            assert(spec.ac[comp_idx as int] == if comp_offset + 2 <= data@.len() {
                (data@[i + 6 + 2 * comp_idx] & 0x0F) as usize
            } else {
                old(h)@.ac[comp_idx as int]
            });
            if comp_offset + 2 <= data.len() {
                let tables = data[comp_offset + 1];
                h.dc_huff_tbl[comp_idx] = ((tables >> 4u8) & 0x0F) as usize;
                h.ac_huff_tbl[comp_idx] = (tables & 0x0F) as usize;
                comp_offset = comp_offset + 2;
            }
            comp_idx = comp_idx + 1;
        }
    }
    h.ecs_offset = i + 2 + sos_length;
    assert(h@.dc =~= spec.dc);
    assert(h@.ac =~= spec.ac);
    assert(h@ =~~= spec);
}

fn parse_dht(data: &[u8], start: usize, end: usize, h: &mut JpegHeaderInfo) -> (ok: bool)
    requires
        data@.len() + 0x20000 <= usize::MAX,
        end <= data@.len() + 0x10002,
    ensures
        ok == dht_spec(data@, start as int, end as int, old(h)@) is Some,
        ok ==> Some(final(h)@) == dht_spec(data@, start as int, end as int, old(h)@),
{
    let mut offset = start;
    while offset < end && offset + 1 < data.len()
        invariant
            dht_spec(data@, offset as int, end as int, h@) == dht_spec(
                data@,
                start as int,
                end as int,
                old(h)@,
            ),
            data@.len() + 0x20000 <= usize::MAX,
            end <= data@.len() + 0x10002,
        decreases if end > offset {
            end - offset
        } else {
            0
        },
    {
        let tc_th = data[offset];
        let tc = (tc_th >> 4u8) & 0x0F;
        let th = tc_th & 0x0F;
        proof {
            lemma_slot(tc_th);
        }
        let table_idx = (((th & 1) << 1u8) | (tc & 1)) as usize;
        let ghost hb = h@;
        let ghost old_t = h@.huff[table_idx as int];
        let mut bits = h.huff_tables[table_idx].bits;
        let mut num_values: usize = 0;
        let mut j: usize = 0;
        while j < 16
            invariant
                0 <= j <= 16,
                offset + 1 < data@.len(),
                data@.len() + 0x20000 <= usize::MAX,
                num_values == present_sum(data@, offset + 1, j as nat),
                num_values <= 255 * j,
                forall|k: int| 0 <= k < 16 ==> #[trigger] bits@[k] == if k < j && offset + 1 + k
                    < data@.len() {
                    data@[offset + 1 + k]
                } else {
                    old_t.bits[k]
                },
            decreases 16 - j,
        {
            if offset + 1 + j < data.len() {
                bits[j] = data[offset + 1 + j];
                num_values = num_values + data[offset + 1 + j] as usize;
            }
            j = j + 1;
        }
        if num_values > 256 && offset + 17 + 256 < data.len() {
            return false;
        }
        let mut values = h.huff_tables[table_idx].values;
        let mut j: usize = 0;
        while j < num_values
            invariant
                0 <= j <= num_values,
                num_values == present_sum(data@, offset + 1, 16),
                num_values <= 255 * 16,
                !(num_values > 256 && offset + 17 + 256 < data@.len()),
                offset + 1 < data@.len(),
                data@.len() + 0x20000 <= usize::MAX,
                forall|k: int| 0 <= k < 256 ==> #[trigger] values@[k] == if k < j && offset + 17 + k
                    < data@.len() {
                    data@[offset + 17 + k]
                } else {
                    old_t.values[k]
                },
            decreases num_values - j,
        {
            if offset + 17 + j < data.len() {
                values[j] = data[offset + 17 + j];
            }
            j = j + 1;
        }
        h.huff_tables[table_idx].bits = bits;
        h.huff_tables[table_idx].values = values;
        h.huff_tables[table_idx].num_values = num_values;
        let ghost t = h.huff_tables@[table_idx as int]@;
        h.huff_tables[table_idx].generate();
        if table_idx >= h.huff_table_count {
            h.huff_table_count = table_idx + 1;
        }
        proof {
            let ghost spec_t = HuffModel {
                bits: Seq::new(
                    16,
                    |jj: int|
                        if offset + 1 + jj < data@.len() {
                            data@[offset + 1 + jj]
                        } else {
                            old_t.bits[jj]
                        },
                ),
                values: Seq::new(
                    256,
                    |jj: int|
                        if jj < num_values && offset + 17 + jj < data@.len() {
                            data@[offset + 17 + jj]
                        } else {
                            old_t.values[jj]
                        },
                ),
                num_values: num_values,
                ..old_t
            };
            assert(t.bits =~= spec_t.bits);
            assert(t.values =~= spec_t.values);
            assert(t =~~= spec_t);
            let h2 = HeaderModel {
                huff: hb.huff.update(table_idx as int, generated(spec_t)),
                huff_count: if table_idx >= hb.huff_count {
                    (table_idx + 1) as usize
                } else {
                    hb.huff_count
                },
                ..hb
            };
            assert(h@.huff =~~= h2.huff);
            assert(h@ =~~= h2);
            lemma_present_sum_bound(data@, offset + 1, 16);
        }
        offset = offset + 17 + num_values;
    }
    true
}

fn parse_dqt(data: &[u8], start: usize, end: usize, h: &mut JpegHeaderInfo) -> (ok: bool)
    requires
        data@.len() + 0x20000 <= usize::MAX,
        end <= data@.len() + 0x10002,
    ensures
        ok == dqt_spec(data@, start as int, end as int, old(h)@) is Some,
        ok ==> Some(final(h)@) == dqt_spec(data@, start as int, end as int, old(h)@),
{
    let mut offset = start;
    while offset < end && offset + 1 < data.len()
        invariant
            dqt_spec(data@, offset as int, end as int, h@) == dqt_spec(
                data@,
                start as int,
                end as int,
                old(h)@,
            ),
            data@.len() + 0x20000 <= usize::MAX,
            end <= data@.len() + 0x10002,
        decreases if end > offset {
            end - offset
        } else {
            0
        },
    {
        let ghost hb = h@;
        let pq_tq = data[offset];
        let tq = (pq_tq & 0x0F) as usize;
        let new_count = if tq >= h.quant_table_count {
            tq + 1
        } else {
            h.quant_table_count
        };
        if pq_tq >> 4u8 == 0 && tq >= 4 {
            return false;
        }
        if pq_tq >> 4u8 != 0 && tq >= 4 && offset + 2 < data.len() {
            return false;
        }
        if pq_tq >> 4u8 == 0 {
            let mut vals = h.quant_tables[tq].values;
            let mut j: usize = 0;
            while j < 64
                invariant
                    0 <= j <= 64,
                    tq < 4,
                    offset + 1 < data@.len(),
                    data@.len() + 0x20000 <= usize::MAX,
                    forall|k: int| 0 <= k < 64 ==> #[trigger] vals@[k] == if k < j && offset + 1 + k
                        < data@.len() {
                        data@[offset + 1 + k] as u16
                    } else {
                        hb.quant[tq as int][k]
                    },
                decreases 64 - j,
            {
                if offset + 1 + j < data.len() {
                    vals[j] = data[offset + 1 + j] as u16;
                }
                j = j + 1;
            }
            h.quant_tables[tq].values = vals;
            h.quant_table_count = new_count;
            proof {
                let vs = Seq::new(
                    64,
                    |jj: int|
                        if offset + 1 + jj < data@.len() {
                            data@[offset + 1 + jj] as u16
                        } else {
                            hb.quant[tq as int][jj]
                        },
                );
                assert(vals@ =~= vs);
                let h2 = HeaderModel { quant: hb.quant.update(tq as int, vs), quant_count: new_count, ..hb };
                assert(h@.quant =~~= h2.quant);
                assert(h@ =~~= h2);
            }
            offset = offset + 65;
        } else {
            if tq < 4 {
                let mut vals = h.quant_tables[tq].values;
                let mut j: usize = 0;
                while j < 64
                    invariant
                        0 <= j <= 64,
                        tq < 4,
                        offset + 1 < data@.len(),
                        data@.len() + 0x20000 <= usize::MAX,
                        forall|k: int|
                            0 <= k < 64 ==> #[trigger] vals@[k] == if k < j && offset + 2 + 2 * k
                                < data@.len() {
                                (data@[offset + 1 + 2 * k] * 256 + data@[offset + 2 + 2 * k]) as u16
                            } else {
                                hb.quant[tq as int][k]
                            },
                    decreases 64 - j,
                {
                    if offset + 1 + j * 2 + 1 < data.len() {
                        proof {
                            lemma_be16(data@[offset + 1 + j * 2], data@[offset + 1 + j * 2 + 1]);
                        }
                        vals[j] = ((data[offset + 1 + j * 2] as u16) << 8u16) | (data[offset + 1 + j
                            * 2 + 1] as u16);
                    }
                    j = j + 1;
                }
                h.quant_tables[tq].values = vals;
                proof {
                    let vs = Seq::new(
                        64,
                        |jj: int|
                            if offset + 2 + 2 * jj < data@.len() {
                                (data@[offset + 1 + 2 * jj] * 256 + data@[offset + 2 + 2 * jj]) as u16
                            } else {
                                hb.quant[tq as int][jj]
                            },
                    );
                    assert(vals@ =~= vs);
                    let h2 = HeaderModel {
                        quant: hb.quant.update(tq as int, vs),
                        quant_count: new_count,
                        ..hb
                    };
                    assert(h@.quant =~~= h2.quant);
                }
            }
            h.quant_table_count = new_count;
            proof {
                if tq >= 4 {
                    assert(h@ =~~= HeaderModel { quant_count: new_count, ..hb });
                } else {
                    let vs = Seq::new(
                        64,
                        |jj: int|
                            if offset + 2 + 2 * jj < data@.len() {
                                (data@[offset + 1 + 2 * jj] * 256 + data@[offset + 2 + 2 * jj]) as u16
                            } else {
                                hb.quant[tq as int][jj]
                            },
                    );
                    let h2 = HeaderModel {
                        quant: hb.quant.update(tq as int, vs),
                        quant_count: new_count,
                        ..hb
                    };
                    assert(h@ =~~= h2);
                }
            }
            offset = offset + 129;
        }
    }
    true
}

/// What one step of the marker scan did.
enum ScanStep {
    /// Continue the scan at this position.
    Next(usize),
    /// The start of scan was read into the header.
    SosFound,
    /// The scan ends without a header.
    Fail(HeaderError),
    /// A table segment would index past the parser's tables.
    Faults,
}

#[verifier::rlimit(80)]
fn scan_step(data: &[u8], i: usize, h: &mut JpegHeaderInfo) -> (r: ScanStep)
    requires
        i + 1 < data@.len(),
        data@.len() + 0x20000 <= usize::MAX,
    ensures
        match r {
            ScanStep::Next(j) => j > i && j <= i + 0x10001 && parse_at(data@, i as int, old(h)@) == parse_at(
                data@,
                j as int,
                final(h)@,
            ),
            ScanStep::SosFound => parse_at(data@, i as int, old(h)@) == HeaderOutcome::Parsed(
                final(h)@,
            ),
            ScanStep::Fail(e) => parse_at(data@, i as int, old(h)@) == HeaderOutcome::Failed(e),
            ScanStep::Faults => parse_at(data@, i as int, old(h)@) is Panics,
        },
{
    if data[i] != 0xFF {
        return ScanStep::Next(i + 1);
    }
    let marker = data[i + 1];
    if marker == 0xFF {
        ScanStep::Next(i + 1)
    } else if marker == 0x00 {
        ScanStep::Next(i + 2)
    } else if marker == 0xC0 || marker == 0xC2 {
        if i + 10 >= data.len() {
            return ScanStep::Fail(HeaderError::SofTooShort);
        }
        parse_sof(data, i, h);
        let length = read_be16(data, i + 2);
        ScanStep::Next(i + 2 + length)
    } else if marker == 0xC4 {
        if i + 3 < data.len() {
            let length = read_be16(data, i + 2);
            if !parse_dht(data, i + 4, i + 2 + length, h) {
                return ScanStep::Faults;
            }
            ScanStep::Next(i + 2 + length)
        } else {
            ScanStep::Next(i + 1)
        }
    } else if marker == 0xDA {
        if i + 3 < data.len() {
            parse_sos(data, i, h);
            ScanStep::SosFound
        } else {
            ScanStep::Next(i + 1)
        }
    } else if marker == 0xDB {
        if i + 3 < data.len() {
            let length = read_be16(data, i + 2);
            if !parse_dqt(data, i + 4, i + 2 + length, h) {
                return ScanStep::Faults;
            }
            ScanStep::Next(i + 2 + length)
        } else {
            ScanStep::Next(i + 1)
        }
    } else if marker == 0xDD {
        if i + 6 <= data.len() {
            proof {
                lemma_be16(data@[i + 4], data@[i + 5]);
            }
            h.restart_interval = ((data[i + 4] as u32) << 8u32) | (data[i + 5] as u32);
        }
        if i + 3 < data.len() {
            let length = read_be16(data, i + 2);
            ScanStep::Next(i + 2 + length)
        } else {
            ScanStep::Next(i + 1)
        }
    } else if marker == 0xD8 {
        ScanStep::Next(i + 2)
    } else if marker == 0xD9 {
        ScanStep::Fail(HeaderError::SosNotFound)
    } else if marker >= 0xC0 && i + 3 < data.len() {
        let length = read_be16(data, i + 2);
        ScanStep::Next(i + 2 + length)
    } else {
        ScanStep::Next(i + 2)
    }
}

/// Parses the JPEG header in `data` up to its start of scan.
pub fn parse_jpeg_header(data: &[u8]) -> (r: Result<JpegHeaderInfo, &'static str>)
    requires
        !(header_spec(data@) is Panics),
        data@.len() + 0x20000 <= usize::MAX,
    ensures
        match header_spec(data@) {
            HeaderOutcome::Parsed(m) => r matches Ok(h) && h@ == m,
            HeaderOutcome::Failed(e) => r matches Err(msg) && msg@ == header_error_message(e)@,
            HeaderOutcome::Panics => false,
        },
{
    let mut i: usize = 0;
    let mut header_info = JpegHeaderInfo::new();
    while i + 1 < data.len()
        invariant
            parse_at(data@, i as int, header_info@) == header_spec(data@),
            !(header_spec(data@) is Panics),
            i <= data@.len(),
            data@.len() + 0x20000 <= usize::MAX,
        decreases data@.len() - i,
    {
        match scan_step(data, i, &mut header_info) {
            ScanStep::Next(j) => {
                if j + 1 >= data.len() {
                    return Err("SOS not found");
                }
                i = j;
            },
            ScanStep::SosFound => {
                return Ok(header_info);
            },
            ScanStep::Fail(e) => {
                return match e {
                    HeaderError::SofTooShort => Err("SOF too short"),
                    HeaderError::SosNotFound => Err("SOS not found"),
                };
            },
            ScanStep::Faults => {
                assert(false);
                return Err("SOS not found");
            },
        }
    }
    Err("SOS not found")
}

/// Whether [`parse_jpeg_header`] would index past its tables on `data` (a
/// quantisation table id beyond 3, or a Huffman table of more than 256
/// values present in the data), so that it may not be called on it.
pub fn header_faults(data: &[u8]) -> (r: bool)
    requires
        data@.len() + 0x20000 <= usize::MAX,
    ensures
        r == header_spec(data@) is Panics,
{
    let mut i: usize = 0;
    let mut header_info = JpegHeaderInfo::new();
    while i + 1 < data.len()
        invariant
            parse_at(data@, i as int, header_info@) == header_spec(data@),
            i <= data@.len(),
            data@.len() + 0x20000 <= usize::MAX,
        decreases data@.len() - i,
    {
        match scan_step(data, i, &mut header_info) {
            ScanStep::Next(j) => {
                if j + 1 >= data.len() {
                    return false;
                }
                i = j;
            },
            ScanStep::SosFound => {
                return false;
            },
            ScanStep::Fail(e) => {
                return false;
            },
            ScanStep::Faults => {
                return true;
            },
        }
    }
    false
}

/// The message [`parse_jpeg_header`] returns for `e`.
pub open spec fn header_error_message(e: HeaderError) -> &'static str {
    match e {
        HeaderError::SofTooShort => "SOF too short",
        HeaderError::SosNotFound => "SOS not found",
    }
}

} // verus!
