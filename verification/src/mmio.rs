//! Register access shared by every driver of the crate.
//!
//! A driver never touches memory-mapped registers itself: it issues reads and
//! writes through a [`RegisterBus`] that the platform provides (volatile
//! accesses on hardware, a register file in a test).  Every access made
//! through an [`Mmio`] handle is recorded in its ghost trace, so the contract
//! of a driver operation states exactly which register accesses it performs,
//! in which order and with which values.
use vstd::prelude::*;

verus! {

/// The platform's access path to device registers.
///
/// `base` is the base address of a register block and `offset` the byte
/// offset of a register inside it; the bus forms the address.
pub trait RegisterBus {
    /// Volatile 32-bit read.
    fn read32(&mut self, base: usize, offset: usize) -> u32;

    /// Volatile 32-bit write.
    fn write32(&mut self, base: usize, offset: usize, value: u32);

    /// Volatile 64-bit read.
    fn read64(&mut self, base: usize, offset: usize) -> u64;

    /// Volatile 64-bit write.
    fn write64(&mut self, base: usize, offset: usize, value: u64);

    /// Busy-wait for about `units` platform delay units.
    fn delay(&mut self, units: u32);

    /// Copies the first `len` bytes of `data` to physical memory at `addr`.
    fn copy_to_phys(&mut self, addr: usize, data: &[u8], len: usize)
        requires
            len <= data@.len(),
    ;

    /// Writes back the data cache lines covering `[addr, addr + len)`.
    fn dcache_clean(&mut self, addr: usize, len: usize);

    /// Discards the data cache lines covering `[addr, addr + len)`.
    fn dcache_invalidate(&mut self, addr: usize, len: usize);

    /// The address under which a device sees the CPU address `cpu_addr`.
    fn dma_address(&mut self, cpu_addr: usize) -> usize;

    /// Makes memory writes visible to instruction fetch (`fence.i` on RISC-V,
    /// a full memory fence elsewhere).
    fn instruction_fence(&mut self);

    /// Orders the memory writes before it ahead of those after it, as seen
    /// by devices (a release fence).
    fn memory_fence(&mut self);

    /// The `len` bytes of physical memory at `addr`.
    fn copy_from_phys(&mut self, addr: usize, len: usize) -> Vec<u8>;
}

/// One access recorded in a trace.
#[allow(inconsistent_fields)]
pub enum BusOp {
    Read32 { base: usize, offset: usize, value: u32 },
    Write32 { base: usize, offset: usize, value: u32 },
    Read64 { base: usize, offset: usize, value: u64 },
    Write64 { base: usize, offset: usize, value: u64 },
    Delay { units: u32 },
    CopyToPhys { addr: usize, len: usize, data: Seq<u8> },
    CacheClean { addr: usize, len: usize },
    CacheInvalidate { addr: usize, len: usize },
    DmaMap { cpu: usize, device: usize },
    Fence,
    MemoryFence,
    CopyFromPhys { addr: usize, len: usize, data: Seq<u8> },
}

/// `data` made exactly `len` bytes long: cut, or filled up with zeros.
pub open spec fn fit_len(data: Seq<u8>, len: int) -> Seq<u8> {
    Seq::new(len as nat, |i: int| if i < data.len() { data[i] } else { 0u8 })
}

/// The two accesses of a read-modify-write that read `old`.
pub open spec fn modify32_ops(base: usize, offset: usize, old: u32, clear: u32, set: u32) -> Seq<
    BusOp,
> {
    seq![
        BusOp::Read32 { base, offset, value: old },
        BusOp::Write32 { base, offset, value: (old & !clear) | set },
    ]
}

/// The two accesses of a 64-bit read-modify-write that read `old`.
pub open spec fn modify64_ops(base: usize, offset: usize, old: u64, clear: u64, set: u64) -> Seq<
    BusOp,
> {
    seq![
        BusOp::Read64 { base, offset, value: old },
        BusOp::Write64 { base, offset, value: (old & !clear) | set },
    ]
}

/// Value of the field `mask << shift` in `reg`.
pub open spec fn field(reg: u32, mask: u32, shift: u32) -> u32 {
    (reg >> shift) & mask
}

/// The value of a recorded access (0 for the other operations).
pub open spec fn op_value(op: BusOp) -> u64 {
    match op {
        BusOp::Read32 { value, .. } => value as u64,
        BusOp::Write32 { value, .. } => value as u64,
        BusOp::Read64 { value, .. } => value,
        BusOp::Write64 { value, .. } => value,
        _ => 0,
    }
}

/// `op` is a 32-bit read of the register at `base + offset`.
pub open spec fn is_read32_of(op: BusOp, base: usize, offset: usize) -> bool {
    op matches BusOp::Read32 { base: b, offset: o, .. } && b == base && o == offset
}

/// `ops` is a poll of the 32-bit register at `base + offset`: between one and
/// `max` reads, every read but the last with `value & mask != 0`; `cleared`
/// tells whether the last read had the bits clear, and a poll that did not
/// clear made all `max` reads.
pub open spec fn polled_until_clear(
    ops: Seq<BusOp>,
    base: usize,
    offset: usize,
    mask: u32,
    max: int,
    cleared: bool,
) -> bool {
    &&& 1 <= ops.len() <= max
    &&& forall|k: int|
        0 <= k < ops.len() ==> is_read32_of(#[trigger] ops[k], base, offset)
    &&& forall|k: int| 0 <= k < ops.len() - 1 ==> (#[trigger] op_value(ops[k]) as u32) & mask != 0
    &&& cleared == ((op_value(ops[ops.len() - 1]) as u32) & mask == 0)
    &&& !cleared ==> ops.len() == max
}

/// `ops` is a poll of the 32-bit register at `base + offset`: between one and
/// `max` reads, every read but the last with `value & mask == 0`; `set`
/// tells whether the last read had some bit of `mask` set, and a poll that
/// did not see one made all `max` reads.
pub open spec fn polled_until_set(
    ops: Seq<BusOp>,
    base: usize,
    offset: usize,
    mask: u32,
    max: int,
    set: bool,
) -> bool {
    &&& 1 <= ops.len() <= max
    &&& forall|k: int|
        0 <= k < ops.len() ==> is_read32_of(#[trigger] ops[k], base, offset)
    &&& forall|k: int| 0 <= k < ops.len() - 1 ==> (#[trigger] op_value(ops[k]) as u32) & mask == 0
    &&& set == ((op_value(ops[ops.len() - 1]) as u32) & mask != 0)
    &&& !set ==> ops.len() == max
}

/// `ops` is a poll of the 64-bit register at `base + offset`: between one and
/// `max` reads, every read but the last with `value & mask != 0`; `cleared`
/// tells whether the last read had the bits clear, and a poll that did not
/// clear made all `max` reads.
pub open spec fn polled64_until_clear(
    ops: Seq<BusOp>,
    base: usize,
    offset: usize,
    mask: u64,
    max: int,
    cleared: bool,
) -> bool {
    &&& 1 <= ops.len() <= max
    &&& forall|k: int|
        0 <= k < ops.len() ==> (#[trigger] ops[k] matches BusOp::Read64 { base: b, offset: o, .. } && b == base && o == offset)
    &&& forall|k: int| 0 <= k < ops.len() - 1 ==> #[trigger] op_value(ops[k]) & mask != 0
    &&& cleared == (op_value(ops[ops.len() - 1]) & mask == 0)
    &&& !cleared ==> ops.len() == max
}

/// The 32-bit writes of `values`, in order, to one register.
pub open spec fn writes32(base: usize, offset: usize, values: Seq<u32>) -> Seq<BusOp> {
    values.map(|k: int, v: u32| BusOp::Write32 { base, offset, value: v })
}

/// Whether `op` is a write.
pub open spec fn is_write(op: BusOp) -> bool {
    op is Write32 || op is Write64
}

/// The writes of `ops`, in order.
pub open spec fn writes_of(ops: Seq<BusOp>) -> Seq<BusOp> {
    ops.filter(|op: BusOp| is_write(op))
}

/// The writes of two traces in a row are the writes of the first followed by
/// those of the second.
pub proof fn lemma_writes_of_add(a: Seq<BusOp>, b: Seq<BusOp>)
    ensures
        writes_of(a + b) == writes_of(a) + writes_of(b),
{
    Seq::filter_distributes_over_add(a, b, |op: BusOp| is_write(op));
}

/// A trace of writes only is its own write projection.
pub proof fn lemma_writes_of_writes(ops: Seq<BusOp>)
    requires
        forall|k: int| 0 <= k < ops.len() ==> is_write(#[trigger] ops[k]),
    ensures
        writes_of(ops) == ops,
    decreases ops.len(),
{
    reveal_with_fuel(Seq::filter, 1);
    if ops.len() > 0 {
        lemma_writes_of_writes(ops.drop_last());
        assert(ops.drop_last().push(ops.last()) =~= ops);
    } else {
        assert(writes_of(ops) =~= ops);
    }
}

/// A trace without writes has no write projection.
pub proof fn lemma_writes_of_reads(ops: Seq<BusOp>)
    requires
        forall|k: int| 0 <= k < ops.len() ==> !is_write(#[trigger] ops[k]),
    ensures
        writes_of(ops) == Seq::<BusOp>::empty(),
    decreases ops.len(),
{
    reveal_with_fuel(Seq::filter, 1);
    if ops.len() > 0 {
        lemma_writes_of_reads(ops.drop_last());
    } else {
        assert(writes_of(ops) =~= Seq::<BusOp>::empty());
    }
}

/// Step `i` of a run of field updates that began at `n`: the register
/// `(base, offset)` of `s` read at `n + 2 * i`, then written back with the
/// bits of `s.2` cleared and those of `s.3` set.
pub open spec fn rmw_at(t: Seq<BusOp>, n: int, i: int, s: (usize, usize, u32, u32)) -> bool {
    let k = n + 2 * i;
    &&& is_read32_of(t[k], s.0, s.1)
    &&& t[k + 1] == BusOp::Write32 { base: s.0, offset: s.1, value: (read_at(t, k) & !s.2) | s.3 }
}

/// `after` is `before` followed by the read-modify-writes `steps`, in
/// order, each a `(base, offset, clear, set)`.
pub open spec fn rmws(before: Seq<BusOp>, after: Seq<BusOp>, steps: Seq<(usize, usize, u32, u32)>) -> bool {
    let n = before.len() as int;
    &&& after.len() == n + 2 * steps.len()
    &&& after.take(n) == before
    &&& forall|i: int| 0 <= i < steps.len() ==> #[trigger] rmw_at(after, n, i, steps[i])
}

/// Two runs of field updates in a row are one run.
pub proof fn lemma_rmws_append(
    t0: Seq<BusOp>,
    t1: Seq<BusOp>,
    t2: Seq<BusOp>,
    s1: Seq<(usize, usize, u32, u32)>,
    s2: Seq<(usize, usize, u32, u32)>,
)
    requires
        rmws(t0, t1, s1),
        rmws(t1, t2, s2),
    ensures
        rmws(t0, t2, s1 + s2),
{
    let n = t0.len() as int;
    let m = t1.len() as int;
    assert(t2.take(n) =~= t0) by {
        assert forall|k: int| 0 <= k < n implies t2[k] == t0[k] by {
            assert(t2[k] == t2.take(m)[k]);
            assert(t1[k] == t1.take(n)[k]);
        }
    }
    assert forall|i: int| 0 <= i < (s1 + s2).len() implies #[trigger] rmw_at(t2, n, i, (s1 + s2)[i]) by {
        if i < s1.len() {
            assert(rmw_at(t1, n, i, s1[i]));
            assert(t2[n + 2 * i] == t2.take(m)[n + 2 * i]);
            assert(t2[n + 2 * i + 1] == t2.take(m)[n + 2 * i + 1]);
        } else {
            assert(rmw_at(t2, m, i - s1.len(), s2[i - s1.len()]));
        }
    }
}

/// A unit result that is `Ok` is `Ok(())`.
pub proof fn lemma_ok_unit<E>(r: Result<(), E>)
    ensures
        r is Ok ==> r == Ok::<(), E>(()),
{
    match r {
        Ok(u) => {
            assert(u == ());
        },
        Err(_) => {},
    }
}

/// A trace that extends a trace that extends `t0` extends `t0`, and what it
/// added after `t0` is the two additions in a row.
pub proof fn lemma_extend(t0: Seq<BusOp>, t1: Seq<BusOp>, t2: Seq<BusOp>)
    requires
        t0.len() <= t1.len() <= t2.len(),
        t1.take(t0.len() as int) == t0,
        t2.take(t1.len() as int) == t1,
    ensures
        t2.take(t0.len() as int) == t0,
        t2.skip(t0.len() as int) == t1.skip(t0.len() as int) + t2.skip(t1.len() as int),
{
    assert(t2.take(t0.len() as int) =~= t0);
    assert(t2.skip(t0.len() as int) =~= t1.skip(t0.len() as int) + t2.skip(t1.len() as int));
}

/// Five traces in a row, each extending the one before: what the last added
/// after the first is the four additions in a row, found at the offsets
/// where each began.
pub proof fn lemma_segments(t0: Seq<BusOp>, t1: Seq<BusOp>, t2: Seq<BusOp>, t3: Seq<BusOp>, t4: Seq<BusOp>)
    requires
        t0.len() <= t1.len() <= t2.len() <= t3.len() <= t4.len(),
        t1.take(t0.len() as int) == t0,
        t2.take(t1.len() as int) == t1,
        t3.take(t2.len() as int) == t2,
        t4.take(t3.len() as int) == t3,
    ensures
        ({
            let ops = t4.skip(t0.len() as int);
            let a = t1.len() - t0.len();
            let b = t2.len() - t0.len();
            let c = t3.len() - t0.len();
            &&& t4.take(t0.len() as int) == t0
            &&& ops.len() == t4.len() - t0.len()
            &&& ops.take(a) == t1.skip(t0.len() as int)
            &&& ops.subrange(a, b) == t2.skip(t1.len() as int)
            &&& ops.subrange(b, c) == t3.skip(t2.len() as int)
            &&& ops.skip(c) == t4.skip(t3.len() as int)
            &&& forall|k: int| 0 <= k < a ==> ops[k] == t1[t0.len() + k]
            &&& forall|k: int| a <= k < b ==> ops[k] == t2[t0.len() + k]
            &&& forall|k: int| b <= k < c ==> ops[k] == t3[t0.len() + k]
        }),
{
    lemma_extend(t0, t1, t2);
    lemma_extend(t0, t2, t3);
    lemma_extend(t0, t3, t4);
    let ops = t4.skip(t0.len() as int);
    let a = t1.len() - t0.len();
    let b = t2.len() - t0.len();
    let c = t3.len() - t0.len();
    assert(ops.take(a) =~= t1.skip(t0.len() as int));
    assert(ops.subrange(a, b) =~= t2.skip(t1.len() as int));
    assert(ops.subrange(b, c) =~= t3.skip(t2.len() as int));
    assert(ops.skip(c) =~= t4.skip(t3.len() as int));
}

/// The value read by the access at index `i` of `t` (0 if it is no 64-bit read).
pub open spec fn read64_at(t: Seq<BusOp>, i: int) -> u64 {
    match t[i] {
        BusOp::Read64 { value, .. } => value,
        _ => 0,
    }
}

/// `after` is `before` followed by one 32-bit read of `base + offset` that
/// returned `value`.
pub open spec fn read_one(before: Seq<BusOp>, after: Seq<BusOp>, base: usize, offset: usize, value: u32) -> bool {
    after == before.push(BusOp::Read32 { base, offset, value })
}

/// The value read by the access at index `i` of `t` (0 if it is no 32-bit read).
pub open spec fn read_at(t: Seq<BusOp>, i: int) -> u32 {
    match t[i] {
        BusOp::Read32 { value, .. } => value,
        _ => 0,
    }
}

/// `after` is `before` followed by one 32-bit read of `base + offset`; the
/// value read is `read_at(after, before.len())`.
pub open spec fn read_next(before: Seq<BusOp>, after: Seq<BusOp>, base: usize, offset: usize) -> bool {
    read_one(before, after, base, offset, read_at(after, before.len() as int))
}

/// `after` is `before` followed by a read of the register at `offset` and a
/// write of the value read with the bits of `bits` set (`on`) or cleared.
pub open spec fn bits_rw(before: Seq<BusOp>, after: Seq<BusOp>, base: usize, offset: usize, bits: u32, on: bool) -> bool {
    let raw = read_at(after, before.len() as int);
    after == before + seq![
        BusOp::Read32 { base, offset, value: raw },
        BusOp::Write32 { base, offset, value: if on { raw | bits } else { raw & !bits } },
    ]
}

/// The bits of a register whose field `mask << shift` holds `value` and
/// whose other bits are clear.
pub open spec fn field_bits(value: u32, mask: u32, shift: u32) -> u32 {
    (value & mask) << shift
}

/// The read-modify-write, having read `old`, that sets the field
/// `mask << shift` to `value` and keeps the other bits.
pub open spec fn modify_field_ops(base: usize, offset: usize, old: u32, mask: u32, shift: u32, value: u32) -> Seq<BusOp> {
    modify32_ops(base, offset, old, mask << shift, field_bits(value, mask, shift))
}

/// `value` placed in the field `mask << shift`.
pub fn field_value(value: u32, mask: u32, shift: u32) -> (v: u32)
    requires
        shift < 32,
    ensures
        v == field_bits(value, mask, shift),
{
    (value & mask) << shift
}

/// 1 for `true`, 0 for `false`.
pub open spec fn bit(b: bool) -> u32 {
    if b { 1 } else { 0 }
}

pub fn bit_of(b: bool) -> (v: u32)
    ensures
        v == bit(b),
{
    if b { 1 } else { 0 }
}

/// A register handle: the platform bus and the trace of accesses made through it.
pub struct Mmio<B> {
    bus: B,
    ops: Ghost<Seq<BusOp>>,
}

impl<B: RegisterBus> Mmio<B> {
    /// Every access made through this handle, oldest first.
    pub closed spec fn trace(&self) -> Seq<BusOp> {
        self.ops@
    }

    /// A handle over `bus` that has made no access yet.
    pub fn new(bus: B) -> (m: Self)
        ensures
            m.trace() == Seq::<BusOp>::empty(),
    {
        Mmio { bus, ops: Ghost(Seq::empty()) }
    }

    /// Gives the bus back.
    pub fn into_bus(self) -> B {
        self.bus
    }

    pub fn read32(&mut self, base: usize, offset: usize) -> (value: u32)
        ensures
            final(self).trace() == old(self).trace().push(BusOp::Read32 { base, offset, value }),
    {
        let value = self.bus.read32(base, offset);
        proof {
            self.ops@ = self.ops@.push(BusOp::Read32 { base, offset, value });
        }
        value
    }

    pub fn write32(&mut self, base: usize, offset: usize, value: u32)
        ensures
            final(self).trace() == old(self).trace().push(BusOp::Write32 { base, offset, value }),
    {
        self.bus.write32(base, offset, value);
        proof {
            self.ops@ = self.ops@.push(BusOp::Write32 { base, offset, value });
        }
    }

    pub fn read64(&mut self, base: usize, offset: usize) -> (value: u64)
        ensures
            final(self).trace() == old(self).trace().push(BusOp::Read64 { base, offset, value }),
    {
        let value = self.bus.read64(base, offset);
        proof {
            self.ops@ = self.ops@.push(BusOp::Read64 { base, offset, value });
        }
        value
    }

    pub fn write64(&mut self, base: usize, offset: usize, value: u64)
        ensures
            final(self).trace() == old(self).trace().push(BusOp::Write64 { base, offset, value }),
    {
        self.bus.write64(base, offset, value);
        proof {
            self.ops@ = self.ops@.push(BusOp::Write64 { base, offset, value });
        }
    }

    pub fn delay(&mut self, units: u32)
        ensures
            final(self).trace() == old(self).trace().push(BusOp::Delay { units }),
    {
        self.bus.delay(units);
        proof {
            self.ops@ = self.ops@.push(BusOp::Delay { units });
        }
    }

    pub fn copy_to_phys(&mut self, addr: usize, data: &[u8], len: usize)
        requires
            len <= data@.len(),
        ensures
            final(self).trace() == old(self).trace().push(
                BusOp::CopyToPhys { addr, len, data: data@.take(len as int) },
            ),
    {
        self.bus.copy_to_phys(addr, data, len);
        proof {
            self.ops@ = self.ops@.push(BusOp::CopyToPhys { addr, len, data: data@.take(len as int) });
        }
    }

    pub fn dcache_clean(&mut self, addr: usize, len: usize)
        ensures
            final(self).trace() == old(self).trace().push(BusOp::CacheClean { addr, len }),
    {
        self.bus.dcache_clean(addr, len);
        proof {
            self.ops@ = self.ops@.push(BusOp::CacheClean { addr, len });
        }
    }

    pub fn dcache_invalidate(&mut self, addr: usize, len: usize)
        ensures
            final(self).trace() == old(self).trace().push(BusOp::CacheInvalidate { addr, len }),
    {
        self.bus.dcache_invalidate(addr, len);
        proof {
            self.ops@ = self.ops@.push(BusOp::CacheInvalidate { addr, len });
        }
    }

    pub fn dma_address(&mut self, cpu: usize) -> (device: usize)
        ensures
            final(self).trace() == old(self).trace().push(BusOp::DmaMap { cpu, device }),
    {
        let device = self.bus.dma_address(cpu);
        proof {
            self.ops@ = self.ops@.push(BusOp::DmaMap { cpu, device });
        }
        device
    }

    pub fn instruction_fence(&mut self)
        ensures
            final(self).trace() == old(self).trace().push(BusOp::Fence),
    {
        self.bus.instruction_fence();
        proof {
            self.ops@ = self.ops@.push(BusOp::Fence);
        }
    }

    pub fn memory_fence(&mut self)
        ensures
            final(self).trace() == old(self).trace().push(BusOp::MemoryFence),
    {
        self.bus.memory_fence();
        proof {
            self.ops@ = self.ops@.push(BusOp::MemoryFence);
        }
    }

    /// The `len` bytes of physical memory at `addr`, as the platform reads
    /// them.  The trace records what the platform handed back; the result has
    /// exactly `len` bytes (see [`fit_len`]).
    pub fn copy_from_phys(&mut self, addr: usize, len: usize) -> (bytes: Vec<u8>)
        ensures
            exists|data: Seq<u8>|
                #![trigger fit_len(data, len as int)]
                final(self).trace() == old(self).trace().push(BusOp::CopyFromPhys { addr, len, data })
                && bytes@ == fit_len(data, len as int),
    {
        let raw = self.bus.copy_from_phys(addr, len);
        proof {
            self.ops@ = self.ops@.push(BusOp::CopyFromPhys { addr, len, data: raw@ });
        }
        let mut bytes: Vec<u8> = Vec::new();
        let mut i: usize = 0;
        while i < len
            invariant
                i <= len,
                bytes@ == fit_len(raw@, i as int),
            decreases len - i,
        {
            let b: u8 = if i < raw.len() {
                raw[i]
            } else {
                0
            };
            bytes.push(b);
            proof {
                assert(bytes@ =~= fit_len(raw@, i + 1));
            }
            i = i + 1;
        }
        bytes
    }

    /// Reads the register until the bits of `mask` are clear, at most `max`
    /// times.  Returns whether they cleared.
    pub fn poll32_until_clear(&mut self, base: usize, offset: usize, mask: u32, max: u32) -> (cleared:
        bool)
        requires
            max >= 1,
        ensures
            final(self).trace().len() > old(self).trace().len(),
            final(self).trace().subrange(0, old(self).trace().len() as int) == old(self).trace(),
            polled_until_clear(
                final(self).trace().subrange(
                    old(self).trace().len() as int,
                    final(self).trace().len() as int,
                ),
                base,
                offset,
                mask,
                max as int,
                cleared,
            ),
    {
        let ghost t0 = self.trace();
        let mut n: u32 = 0;
        loop
            invariant
                n < max,
                t0 == old(self).trace(),
                self.trace().len() == t0.len() + n,
                self.trace().subrange(0, t0.len() as int) == t0,
                forall|k: int|
                    t0.len() <= k < self.trace().len() ==> is_read32_of(#[trigger] self.trace()[k], base, offset),
                forall|k: int|
                    t0.len() <= k < self.trace().len() ==> (op_value(#[trigger] self.trace()[k]) as u32)
                        & mask != 0,
            decreases max - n,
        {
            let v = self.read32(base, offset);
            n = n + 1;
            if v & mask == 0 || n == max {
                proof {
                    let ops = self.trace().subrange(t0.len() as int, self.trace().len() as int);
                    assert(self.trace().subrange(0, t0.len() as int) =~= t0);
                    assert forall|k: int| 0 <= k < ops.len() implies is_read32_of(#[trigger] ops[k], base, offset) by {
                        assert(ops[k] == self.trace()[t0.len() + k]);
                    }
                    assert forall|k: int| 0 <= k < ops.len() - 1 implies (#[trigger] op_value(ops[k]) as u32)
                        & mask != 0 by {
                        assert(ops[k] == self.trace()[t0.len() + k]);
                    }
                    assert(ops[ops.len() - 1] == BusOp::Read32 { base, offset, value: v });
                }
                return v & mask == 0;
            }
            proof {
                assert(self.trace().subrange(0, t0.len() as int) =~= t0);
            }
        }
    }

    /// Reads the register until some bit of `mask` is set, at most `max`
    /// times.  Returns whether one was.
    pub fn poll32_until_set(&mut self, base: usize, offset: usize, mask: u32, max: u32) -> (set: bool)
        requires
            max >= 1,
        ensures
            final(self).trace().len() > old(self).trace().len(),
            final(self).trace().subrange(0, old(self).trace().len() as int) == old(self).trace(),
            polled_until_set(
                final(self).trace().subrange(
                    old(self).trace().len() as int,
                    final(self).trace().len() as int,
                ),
                base,
                offset,
                mask,
                max as int,
                set,
            ),
    {
        let ghost t0 = self.trace();
        let mut n: u32 = 0;
        loop
            invariant
                n < max,
                t0 == old(self).trace(),
                self.trace().len() == t0.len() + n,
                self.trace().subrange(0, t0.len() as int) == t0,
                forall|k: int|
                    t0.len() <= k < self.trace().len() ==> is_read32_of(#[trigger] self.trace()[k], base, offset),
                forall|k: int|
                    t0.len() <= k < self.trace().len() ==> (op_value(#[trigger] self.trace()[k]) as u32)
                        & mask == 0,
            decreases max - n,
        {
            let v = self.read32(base, offset);
            n = n + 1;
            if v & mask != 0 || n == max {
                proof {
                    let ops = self.trace().subrange(t0.len() as int, self.trace().len() as int);
                    assert(self.trace().subrange(0, t0.len() as int) =~= t0);
                    assert forall|k: int| 0 <= k < ops.len() implies is_read32_of(#[trigger] ops[k], base, offset) by {
                        assert(ops[k] == self.trace()[t0.len() + k]);
                    }
                    assert forall|k: int| 0 <= k < ops.len() - 1 implies (#[trigger] op_value(ops[k]) as u32)
                        & mask == 0 by {
                        assert(ops[k] == self.trace()[t0.len() + k]);
                    }
                    assert(ops[ops.len() - 1] == BusOp::Read32 { base, offset, value: v });
                }
                return v & mask != 0;
            }
            proof {
                assert(self.trace().subrange(0, t0.len() as int) =~= t0);
            }
        }
    }

    /// Reads the field `mask << shift` of a register.
    pub fn read_field32(&mut self, base: usize, offset: usize, mask: u32, shift: u32) -> (v: u32)
        requires
            shift < 32,
        ensures
            read_next(old(self).trace(), final(self).trace(), base, offset),
            v == field(read_at(final(self).trace(), old(self).trace().len() as int), mask, shift),
    {
        let raw = self.read32(base, offset);
        assert(read_at(self.trace(), old(self).trace().len() as int) == raw);
        (raw >> shift) & mask
    }

    /// Replaces the field `mask << shift` of a register by `value`, keeping
    /// the other bits.  Returns the value read.
    pub fn modify_field32(&mut self, base: usize, offset: usize, mask: u32, shift: u32, value: u32) -> (old_value: u32)
        requires
            shift < 32,
        ensures
            final(self).trace() == old(self).trace() + modify_field_ops(base, offset, old_value, mask, shift, value),
    {
        self.modify32(base, offset, mask << shift, (value & mask) << shift)
    }

    /// Writes a register whose field `mask << shift` holds `value` and whose
    /// other bits are clear.
    pub fn write_field32(&mut self, base: usize, offset: usize, mask: u32, shift: u32, value: u32)
        requires
            shift < 32,
        ensures
            final(self).trace() == old(self).trace().push(
                BusOp::Write32 { base, offset, value: field_bits(value, mask, shift) },
            ),
    {
        self.write32(base, offset, (value & mask) << shift)
    }

    /// Reads a register and writes it back with the bits of `bits` set
    /// (`on`) or cleared.
    pub fn update_bits32(&mut self, base: usize, offset: usize, bits: u32, on: bool)
        ensures
            bits_rw(old(self).trace(), final(self).trace(), base, offset, bits, on),
    {
        let current = self.read32(base, offset);
        let value = if on {
            current | bits
        } else {
            current & !bits
        };
        self.write32(base, offset, value);
        assert(self.trace() =~= old(self).trace() + seq![
            BusOp::Read32 { base, offset, value: current },
            BusOp::Write32 { base, offset, value },
        ]);
    }

    /// Reads the 64-bit register until the bits of `mask` are clear, at most
    /// `max` times.  Returns whether they cleared.
    pub fn poll64_until_clear(&mut self, base: usize, offset: usize, mask: u64, max: u32) -> (cleared: bool)
        requires
            max >= 1,
        ensures
            final(self).trace().len() > old(self).trace().len(),
            final(self).trace().subrange(0, old(self).trace().len() as int) == old(self).trace(),
            polled64_until_clear(
                final(self).trace().subrange(old(self).trace().len() as int, final(self).trace().len() as int),
                base,
                offset,
                mask,
                max as int,
                cleared,
            ),
    {
        let ghost t0 = self.trace();
        let mut n: u32 = 0;
        loop
            invariant
                n < max,
                t0 == old(self).trace(),
                self.trace().len() == t0.len() + n,
                self.trace().subrange(0, t0.len() as int) == t0,
                forall|k: int|
                    t0.len() <= k < self.trace().len() ==> (#[trigger] self.trace()[k] matches BusOp::Read64 { base: b, offset: o, .. } && b == base && o == offset),
                forall|k: int|
                    t0.len() <= k < self.trace().len() ==> #[trigger] op_value(self.trace()[k]) & mask != 0,
            decreases max - n,
        {
            let v = self.read64(base, offset);
            n = n + 1;
            if v & mask == 0 || n == max {
                proof {
                    let ops = self.trace().subrange(t0.len() as int, self.trace().len() as int);
                    assert(self.trace().subrange(0, t0.len() as int) =~= t0);
                    assert forall|k: int| 0 <= k < ops.len() implies (#[trigger] ops[k] matches BusOp::Read64 { base: b, offset: o, .. } && b == base && o == offset) by {
                        assert(ops[k] == self.trace()[t0.len() + k]);
                    }
                    assert forall|k: int| 0 <= k < ops.len() - 1 implies #[trigger] op_value(ops[k]) & mask != 0 by {
                        assert(ops[k] == self.trace()[t0.len() + k]);
                    }
                    assert(ops[ops.len() - 1] == BusOp::Read64 { base, offset, value: v });
                }
                return v & mask == 0;
            }
            proof {
                assert(self.trace().subrange(0, t0.len() as int) =~= t0);
            }
        }
    }

    /// One field update as a run of read-modify-writes.
    pub fn rmw(&mut self, base: usize, offset: usize, clear: u32, set: u32)
        ensures
            rmws(old(self).trace(), final(self).trace(), seq![(base, offset, clear, set)]),
    {
        let v = self.read32(base, offset);
        self.write32(base, offset, (v & !clear) | set);
        proof {
            let t = self.trace();
            let n = old(self).trace().len() as int;
            assert(t.take(n) =~= old(self).trace());
            assert(read_at(t, n) == v);
            assert(rmw_at(t, n, 0, (base, offset, clear, set)));
        }
    }

    /// Read-modify-write: clears the bits of `clear`, then sets those of `set`.
    /// Returns the value read.
    pub fn modify32(&mut self, base: usize, offset: usize, clear: u32, set: u32) -> (old_value: u32)
        ensures
            final(self).trace() == old(self).trace() + modify32_ops(
                base,
                offset,
                old_value,
                clear,
                set,
            ),
    {
        let v = self.read32(base, offset);
        self.write32(base, offset, (v & !clear) | set);
        proof {
            assert(final(self).trace() =~= old(self).trace() + modify32_ops(base, offset, v, clear, set));
        }
        v
    }

    /// 64-bit read-modify-write.
    pub fn modify64(&mut self, base: usize, offset: usize, clear: u64, set: u64) -> (old_value: u64)
        ensures
            final(self).trace() == old(self).trace() + modify64_ops(
                base,
                offset,
                old_value,
                clear,
                set,
            ),
    {
        let v = self.read64(base, offset);
        self.write64(base, offset, (v & !clear) | set);
        proof {
            assert(final(self).trace() =~= old(self).trace() + modify64_ops(base, offset, v, clear, set));
        }
        v
    }
}

} // verus!
