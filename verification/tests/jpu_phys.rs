use std::collections::HashMap;

use sg200x_bsp::jpu::mem::{copy_to_phys, phys_slice, zero_phys_range, PhysBuffer};
use sg200x_bsp::jpu::regs::VMEM_PAGE_SIZE;
use sg200x_bsp::mmio::{Mmio, RegisterBus};

/// Byte-addressed memory; registers are not used here.
struct MemBus {
    mem: HashMap<usize, u8>,
}

impl MemBus {
    fn filled(base: usize, len: usize, byte: u8) -> Self {
        let mut mem = HashMap::new();
        for i in 0..len {
            mem.insert(base + i, byte);
        }
        MemBus { mem }
    }
}

impl RegisterBus for MemBus {
    fn read32(&mut self, _base: usize, _offset: usize) -> u32 {
        0
    }
    fn write32(&mut self, _base: usize, _offset: usize, _value: u32) {}
    fn read64(&mut self, _base: usize, _offset: usize) -> u64 {
        0
    }
    fn write64(&mut self, _base: usize, _offset: usize, _value: u64) {}
    fn delay(&mut self, _units: u32) {}
    fn copy_to_phys(&mut self, addr: usize, data: &[u8], len: usize) {
        for i in 0..len {
            self.mem.insert(addr + i, data[i]);
        }
    }
    fn dcache_clean(&mut self, _addr: usize, _len: usize) {}
    fn dcache_invalidate(&mut self, _addr: usize, _len: usize) {}
    fn dma_address(&mut self, cpu_addr: usize) -> usize {
        cpu_addr
    }
    fn instruction_fence(&mut self) {}
    fn memory_fence(&mut self) {}
    fn copy_from_phys(&mut self, addr: usize, len: usize) -> Vec<u8> {
        (0..len).map(|i| *self.mem.get(&(addr + i)).unwrap_or(&0)).collect()
    }
}

const BASE: usize = 0x10_0000;

#[test]
fn exact_copy_rejects_oversize_without_modifying_memory() {
    let mut mmio = Mmio::new(MemBus::filled(BASE, VMEM_PAGE_SIZE * 2, 0xA5));
    let buffer = PhysBuffer { addr: BASE, size: VMEM_PAGE_SIZE };

    assert!(copy_to_phys(&mut mmio, &buffer, &[0x11; VMEM_PAGE_SIZE + 1]).is_err());
    assert!(mmio.copy_from_phys(BASE, VMEM_PAGE_SIZE * 2).iter().all(|byte| *byte == 0xA5));
}

#[test]
fn exact_copy_and_borrowed_slice_stay_within_buffer() {
    let mut mmio = Mmio::new(MemBus::filled(BASE, VMEM_PAGE_SIZE * 2, 0));
    let buffer = PhysBuffer { addr: BASE, size: VMEM_PAGE_SIZE };
    let input = [1, 2, 3, 4, 5];

    copy_to_phys(&mut mmio, &buffer, &input).expect("exact copy fits");
    assert_eq!(phys_slice(&mut mmio, &buffer, input.len()).expect("bounded view"), input);
    assert!(phys_slice(&mut mmio, &buffer, VMEM_PAGE_SIZE + 1).is_err());
}

#[test]
fn zero_range_clears_prefetch_tail_and_checks_bounds() {
    let mut mmio = Mmio::new(MemBus::filled(BASE, VMEM_PAGE_SIZE * 2, 0xA5));
    let buffer = PhysBuffer { addr: BASE, size: VMEM_PAGE_SIZE };

    zero_phys_range(&mut mmio, &buffer, VMEM_PAGE_SIZE - 8, 8).expect("tail is in bounds");
    let memory = mmio.copy_from_phys(BASE, VMEM_PAGE_SIZE * 2);
    assert!(memory[..VMEM_PAGE_SIZE - 8].iter().all(|byte| *byte == 0xA5));
    assert_eq!(&memory[VMEM_PAGE_SIZE - 8..VMEM_PAGE_SIZE], &[0; 8]);
    assert!(zero_phys_range(&mut mmio, &buffer, VMEM_PAGE_SIZE - 7, 8).is_err());
}
