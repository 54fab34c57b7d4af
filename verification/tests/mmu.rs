use riscv_emu::cpu::csr::CSRname;
use riscv_emu::cpu::mmu::tlb::{Tlb, TlbEntry};
use riscv_emu::cpu::trap::{Fault, TransAlign, TransFor, TrapCause};
use riscv_emu::cpu::{PrivilegedLevel, CPU};
use riscv_emu::elfload::ElfLoader;
use riscv_emu::{Emulator, Event, Isa};

const DRAM: u64 = 0x8000_0000;
const ROOT: u64 = 0x8000_1000;
const LEAVES: u64 = 0x8000_2000;

const V: u64 = 0x01;
const R: u64 = 0x02;
const W: u64 = 0x04;
const X: u64 = 0x08;
const U: u64 = 0x10;
const A: u64 = 0x40;
const D: u64 = 0x80;

fn emulator(isa: Isa) -> Emulator {
    let loader = ElfLoader {
        entry: DRAM,
        prog_headers: Vec::new(),
        mem_data: Vec::new(),
        tohost: None,
        fromhost: None,
    };
    Emulator::new(&loader, isa, Some(DRAM), None, &Vec::new())
}

fn pte(paddr: u64, flags: u64) -> u64 {
    (paddr >> 12) << 10 | flags
}

/// A supervisor-mode hart with Sv32 on: the megapage of 0x8040_0000 goes
/// through a second-level table whose entry 0 maps 0x8040_0000 with `flags`.
fn sv32(flags: u64) -> CPU {
    let mut cpu = emulator(Isa::Rv32).cpu;
    cpu.bus.store32(ROOT + 0x201 * 4, pte(LEAVES, V)).unwrap();
    cpu.bus.store32(LEAVES, pte(0x8040_0000, flags)).unwrap();
    cpu.csrs.write(CSRname::satp.wrap(), 1 << 31 | ROOT >> 12);
    cpu.priv_lv = PrivilegedLevel::Supervisor;
    cpu
}

fn fault(addr: u64, cause: TrapCause) -> Result<u64, Fault> {
    Err(Fault { addr: Some(addr), cause })
}

#[test]
fn sv32_fetch_of_a_mapped_and_an_unmapped_page() {
    let mut cpu = sv32(V | R | X);
    assert_eq!(cpu.trans_addr(TransFor::Fetch, TransAlign::Size16, 0x8040_0000), Ok(0x8040_0000));
    assert_eq!(cpu.trans_addr(TransFor::Fetch, TransAlign::Size16, 0x8040_0ffe), Ok(0x8040_0ffe));
    assert_eq!(
        cpu.trans_addr(TransFor::Fetch, TransAlign::Size16, 0x8040_1000),
        fault(0x8040_1000, TrapCause::InstructionPageFault)
    );
    // delivered to supervisor mode, the fault leaves its address in stval
    cpu.csrs.write(CSRname::medeleg.wrap(), 1 << 12);
    cpu.pc = 0x8040_1000;
    cpu.trap(0x8040_1000, TrapCause::InstructionPageFault);
    assert_eq!(cpu.csrs.read(CSRname::stval.wrap()), 0x8040_1000);
    assert_eq!(cpu.csrs.read(CSRname::scause.wrap()), 12);
    assert_eq!(cpu.csrs.read(CSRname::sepc.wrap()), 0x8040_1000);
}

#[test]
fn a_page_maps_to_another_physical_page() {
    let mut cpu = sv32(V | R | W);
    cpu.bus.store32(LEAVES + 4 * 3, pte(0x8123_4000, V | R | W | X)).unwrap();
    assert_eq!(cpu.trans_addr(TransFor::Load, TransAlign::Size32, 0x8040_3abc), Ok(0x8123_4abc));
    assert_eq!(cpu.trans_addr(TransFor::StoreAMO, TransAlign::Size8, 0x8040_3fff), Ok(0x8123_4fff));
    assert_eq!(cpu.trans_addr(TransFor::Fetch, TransAlign::Size16, 0x8040_3000), Ok(0x8123_4000));
}

#[test]
fn machine_mode_and_bare_mode_translate_to_the_same_address() {
    let mut cpu = sv32(V | R | X);
    cpu.priv_lv = PrivilegedLevel::Machine;
    assert_eq!(cpu.trans_addr(TransFor::Load, TransAlign::Size32, 0x1234_5678), Ok(0x1234_5678));
    cpu.priv_lv = PrivilegedLevel::User;
    cpu.csrs.write(CSRname::satp.wrap(), ROOT >> 12);
    assert_eq!(cpu.trans_addr(TransFor::Load, TransAlign::Size32, 0x1234_5678), Ok(0x1234_5678));
}

#[test]
fn misaligned_addresses_fault_before_translation() {
    let mut cpu = sv32(V | R | W | X);
    assert_eq!(
        cpu.trans_addr(TransFor::Load, TransAlign::Size16, 0x8040_0001),
        fault(0x8040_0001, TrapCause::LoadAddressMisaligned)
    );
    assert_eq!(
        cpu.trans_addr(TransFor::StoreAMO, TransAlign::Size32, 0x8040_0002),
        fault(0x8040_0002, TrapCause::StoreAMOAddressMisaligned)
    );
    assert_eq!(
        cpu.trans_addr(TransFor::StoreAMO, TransAlign::Size64, 0x8040_0004),
        fault(0x8040_0004, TrapCause::StoreAMOAddressMisaligned)
    );
    assert_eq!(
        cpu.trans_addr(TransFor::Fetch, TransAlign::Size16, 0x8040_0001),
        fault(0x8040_0001, TrapCause::InstructionAddressMisaligned)
    );
    assert_eq!(cpu.trans_addr(TransFor::Fetch, TransAlign::Size16, 0x8040_0002), Ok(0x8040_0002));
    assert_eq!(cpu.trans_addr(TransFor::Load, TransAlign::Size8, 0x8040_0001), Ok(0x8040_0001));
}

#[test]
fn permissions_follow_the_purpose() {
    let mut cpu = sv32(V | R);
    assert_eq!(cpu.trans_addr(TransFor::Load, TransAlign::Size8, 0x8040_0000), Ok(0x8040_0000));
    assert_eq!(
        cpu.trans_addr(TransFor::StoreAMO, TransAlign::Size8, 0x8040_0000),
        fault(0x8040_0000, TrapCause::StoreAMOPageFault)
    );
    assert_eq!(
        cpu.trans_addr(TransFor::Fetch, TransAlign::Size16, 0x8040_0000),
        fault(0x8040_0000, TrapCause::InstructionPageFault)
    );
    assert_eq!(
        cpu.trans_addr(TransFor::Deleg, TransAlign::Size16, 0x8040_0000),
        fault(0x8040_0000, TrapCause::InstructionPageFault)
    );

    // execute-only: a load needs MXR
    let mut cpu = sv32(V | X);
    assert_eq!(
        cpu.trans_addr(TransFor::Load, TransAlign::Size8, 0x8040_0000),
        fault(0x8040_0000, TrapCause::LoadPageFault)
    );
    cpu.csrs.write(CSRname::mstatus.wrap(), 1 << 19);
    assert_eq!(cpu.trans_addr(TransFor::Load, TransAlign::Size8, 0x8040_0000), Ok(0x8040_0000));
}

#[test]
fn writable_without_readable_is_reserved() {
    let mut cpu = sv32(V | W);
    assert_eq!(
        cpu.trans_addr(TransFor::StoreAMO, TransAlign::Size8, 0x8040_0000),
        fault(0x8040_0000, TrapCause::StoreAMOPageFault)
    );
    let mut cpu = sv32(R | W | X);
    assert_eq!(
        cpu.trans_addr(TransFor::Load, TransAlign::Size8, 0x8040_0000),
        fault(0x8040_0000, TrapCause::LoadPageFault)
    );
}

#[test]
fn user_pages_and_supervisor_access() {
    let mut cpu = sv32(V | R | W | X);
    cpu.priv_lv = PrivilegedLevel::User;
    assert_eq!(
        cpu.trans_addr(TransFor::Load, TransAlign::Size8, 0x8040_0000),
        fault(0x8040_0000, TrapCause::LoadPageFault)
    );

    let mut cpu = sv32(V | R | W | X | U);
    cpu.priv_lv = PrivilegedLevel::User;
    assert_eq!(cpu.trans_addr(TransFor::Load, TransAlign::Size8, 0x8040_0000), Ok(0x8040_0000));
    cpu.priv_lv = PrivilegedLevel::Supervisor;
    cpu.mmu.sfence(None, None);
    assert_eq!(
        cpu.trans_addr(TransFor::Load, TransAlign::Size8, 0x8040_0000),
        fault(0x8040_0000, TrapCause::LoadPageFault)
    );
    // SUM opens user pages to supervisor loads and stores, not to fetches
    cpu.csrs.write(CSRname::mstatus.wrap(), 1 << 18);
    assert_eq!(cpu.trans_addr(TransFor::Load, TransAlign::Size8, 0x8040_0000), Ok(0x8040_0000));
    assert_eq!(cpu.trans_addr(TransFor::StoreAMO, TransAlign::Size8, 0x8040_0000), Ok(0x8040_0000));
    assert_eq!(
        cpu.trans_addr(TransFor::Fetch, TransAlign::Size16, 0x8040_0000),
        fault(0x8040_0000, TrapCause::InstructionPageFault)
    );
}

#[test]
fn the_walk_sets_accessed_and_dirty() {
    let mut cpu = sv32(V | R | W | X);
    cpu.trans_addr(TransFor::Load, TransAlign::Size8, 0x8040_0000).unwrap();
    assert_eq!(cpu.bus.load_u32(LEAVES), Ok(pte(0x8040_0000, V | R | W | X | A)));
    cpu.trans_addr(TransFor::StoreAMO, TransAlign::Size8, 0x8040_0000).unwrap();
    assert_eq!(cpu.bus.load_u32(LEAVES), Ok(pte(0x8040_0000, V | R | W | X | A | D)));
    // the pointer to the second-level table is left alone
    assert_eq!(cpu.bus.load_u32(ROOT + 0x201 * 4), Ok(pte(LEAVES, V)));
}

#[test]
fn a_megapage_maps_four_mebibytes() {
    let mut cpu = emulator(Isa::Rv32).cpu;
    cpu.bus.store32(ROOT + 0x300 * 4, pte(0x8080_0000, V | R | W | X)).unwrap();
    // misaligned: the low ten bits of the page number are not zero
    cpu.bus.store32(ROOT + 0x301 * 4, pte(0x8080_1000, V | R | W | X)).unwrap();
    cpu.csrs.write(CSRname::satp.wrap(), 1 << 31 | ROOT >> 12);
    cpu.priv_lv = PrivilegedLevel::Supervisor;
    assert_eq!(cpu.trans_addr(TransFor::Load, TransAlign::Size32, 0xc012_3454), Ok(0x8092_3454));
    assert_eq!(cpu.trans_addr(TransFor::Load, TransAlign::Size32, 0xc03f_fffc), Ok(0x80bf_fffc));
    assert_eq!(
        cpu.trans_addr(TransFor::Load, TransAlign::Size32, 0xc040_0000),
        fault(0xc040_0000, TrapCause::LoadPageFault)
    );
}

#[test]
fn a_table_that_cannot_be_loaded_is_an_access_fault() {
    let mut cpu = emulator(Isa::Rv32).cpu;
    cpu.csrs.write(CSRname::satp.wrap(), 1 << 31 | 0x4_0000);
    cpu.priv_lv = PrivilegedLevel::Supervisor;
    assert_eq!(
        cpu.trans_addr(TransFor::Load, TransAlign::Size8, 0x8040_0000),
        fault(0x8040_0000, TrapCause::LoadAccessFault)
    );
    assert_eq!(
        cpu.trans_addr(TransFor::StoreAMO, TransAlign::Size8, 0x8040_0000),
        fault(0x8040_0000, TrapCause::StoreAMOAccessFault)
    );
    assert_eq!(
        cpu.trans_addr(TransFor::Fetch, TransAlign::Size16, 0x8040_0000),
        fault(0x8040_0000, TrapCause::InstructionAccessFault)
    );
}

#[test]
fn two_levels_without_a_leaf_are_a_page_fault() {
    let mut cpu = sv32(V);
    assert_eq!(
        cpu.trans_addr(TransFor::Load, TransAlign::Size8, 0x8040_0000),
        fault(0x8040_0000, TrapCause::LoadPageFault)
    );
}

#[test]
fn sv39_walks_three_levels() {
    let mut cpu = emulator(Isa::Rv64).cpu;
    let vaddr: u64 = 0x12_3456_7abc;
    let (vpn2, vpn1, vpn0) = ((vaddr >> 30) & 0x1ff, (vaddr >> 21) & 0x1ff, (vaddr >> 12) & 0x1ff);
    let (l1, l0) = (0x8000_3000u64, 0x8000_4000u64);
    cpu.bus.store64(ROOT + vpn2 * 8, pte(l1, V)).unwrap();
    cpu.bus.store64(l1 + vpn1 * 8, pte(l0, V)).unwrap();
    cpu.bus.store64(l0 + vpn0 * 8, pte(0x8765_4000, V | R | W)).unwrap();
    cpu.csrs.write(CSRname::satp.wrap(), 8 << 60 | ROOT >> 12);
    cpu.priv_lv = PrivilegedLevel::Supervisor;
    assert_eq!(cpu.trans_addr(TransFor::Load, TransAlign::Size32, vaddr), Ok(0x8765_4abc));
    // a reserved bit in the entry
    cpu.bus.store64(l0 + vpn0 * 8, pte(0x8765_4000, V | R | W) | 1 << 60).unwrap();
    cpu.mmu.sfence(None, None);
    assert_eq!(
        cpu.trans_addr(TransFor::Load, TransAlign::Size32, vaddr),
        fault(vaddr, TrapCause::LoadPageFault)
    );
    // a gigapage at the first level
    cpu.bus.store64(ROOT + 3 * 8, pte(0x1_4000_0000, V | R | X)).unwrap();
    assert_eq!(
        cpu.trans_addr(TransFor::Fetch, TransAlign::Size16, 0xc123_4560),
        Ok(0x1_4123_4560)
    );
    // any other mode value means no translation
    cpu.csrs.write(CSRname::satp.wrap(), 1 << 60 | ROOT >> 12);
    assert_eq!(cpu.trans_addr(TransFor::Load, TransAlign::Size32, vaddr), Ok(vaddr));
}

#[test]
fn sv48_and_sv57_walk_four_and_five_levels() {
    for (mode, levels) in [(9u64, 4usize), (10, 5)] {
        let mut cpu = emulator(Isa::Rv64).cpu;
        let vaddr: u64 = 0x0012_3456_789a_bcd0 & ((1 << (12 + 9 * levels)) - 1);
        let mut table = ROOT;
        for level in (0..levels).rev() {
            let index = (vaddr >> (12 + 9 * level)) & 0x1ff;
            if level == 0 {
                cpu.bus.store64(table + index * 8, pte(0x9999_9000, V | R)).unwrap();
            } else {
                let next = table + 0x1000;
                cpu.bus.store64(table + index * 8, pte(next, V)).unwrap();
                table = next;
            }
        }
        cpu.csrs.write(CSRname::satp.wrap(), mode << 60 | ROOT >> 12);
        cpu.priv_lv = PrivilegedLevel::User;
        cpu.bus.store64(table + ((vaddr >> 12) & 0x1ff) * 8, pte(0x9999_9000, V | R | U)).unwrap();
        assert_eq!(cpu.trans_addr(TransFor::Load, TransAlign::Size64, vaddr & !7), Ok(0x9999_9000 | (vaddr & 0xff8)));
    }
}

#[test]
fn mprv_applies_the_previous_privilege_to_loads_and_stores() {
    let mut cpu = sv32(V | R | W | X);
    cpu.bus.store32(LEAVES + 4, pte(0x8055_5000, V | R | W | X)).unwrap();
    cpu.priv_lv = PrivilegedLevel::Machine;
    // MPRV = 1, MPP = supervisor
    cpu.csrs.write(CSRname::mstatus.wrap(), 1 << 17 | 1 << 11);
    assert_eq!(cpu.trans_addr(TransFor::Load, TransAlign::Size8, 0x8040_1000), Ok(0x8055_5000));
    assert_eq!(cpu.trans_addr(TransFor::StoreAMO, TransAlign::Size8, 0x8040_1000), Ok(0x8055_5000));
    assert_eq!(cpu.trans_addr(TransFor::Fetch, TransAlign::Size16, 0x8040_1000), Ok(0x8040_1000));
    // MPP = machine: no translation
    cpu.csrs.write(CSRname::mstatus.wrap(), 1 << 17 | 3 << 11);
    assert_eq!(cpu.trans_addr(TransFor::Load, TransAlign::Size8, 0x8040_1000), Ok(0x8040_1000));
}

#[test]
fn a_hit_returns_what_the_walk_returned() {
    let mut cpu = sv32(V | R | W | X);
    cpu.bus.store32(LEAVES + 4 * 7, pte(0x8123_4000, V | R | W | X)).unwrap();
    let walked = cpu.trans_addr(TransFor::Load, TransAlign::Size32, 0x8040_7abc);
    assert_eq!(walked, Ok(0x8123_4abc));
    // the same page now hits in the buffer
    let entry = cpu.mmu.tlb.lookup(0x8040_7000).unwrap();
    assert_eq!(entry.vpn, 0x8_0407);
    assert_eq!(entry.ppn, 0x8_1234);
    assert_eq!(cpu.trans_addr(TransFor::Load, TransAlign::Size32, 0x8040_7abc), walked);
    assert_eq!(cpu.trans_addr(TransFor::Load, TransAlign::Size8, 0x8040_7001), Ok(0x8123_4001));
    // and a flushed buffer walks to the same answer
    cpu.mmu.sfence(None, None);
    assert_eq!(cpu.mmu.tlb.lookup(0x8040_7000), None);
    assert_eq!(cpu.trans_addr(TransFor::Load, TransAlign::Size32, 0x8040_7abc), walked);
}

#[test]
fn a_store_hit_needs_the_dirty_bit() {
    let mut cpu = sv32(V | R | W);
    cpu.trans_addr(TransFor::Load, TransAlign::Size8, 0x8040_0000).unwrap();
    assert_eq!(cpu.bus.load_u32(LEAVES), Ok(pte(0x8040_0000, V | R | W | A)));
    // the cached entry lacks D: the store walks and sets it
    assert_eq!(cpu.trans_addr(TransFor::StoreAMO, TransAlign::Size8, 0x8040_0000), Ok(0x8040_0000));
    assert_eq!(cpu.bus.load_u32(LEAVES), Ok(pte(0x8040_0000, V | R | W | A | D)));
}

#[test]
fn sfence_discards_stale_mappings() {
    let mut cpu = sv32(V | R | W | X);
    assert_eq!(cpu.trans_addr(TransFor::Load, TransAlign::Size8, 0x8040_0000), Ok(0x8040_0000));
    // the page is remapped behind the buffer's back
    cpu.bus.store32(LEAVES, pte(0x8077_7000, V | R | W | X)).unwrap();
    assert_eq!(cpu.trans_addr(TransFor::Load, TransAlign::Size8, 0x8040_0000), Ok(0x8040_0000));
    cpu.mmu.sfence(None, None);
    assert_eq!(cpu.trans_addr(TransFor::Load, TransAlign::Size8, 0x8040_0000), Ok(0x8077_7000));
}

#[test]
fn sfence_with_operands_discards_the_matching_entries() {
    let mut tlb = Tlb::new();
    tlb.refill_tlb(0x1000, 0x8000_1000, 1, 0xcf);
    tlb.refill_tlb(0x2abc, 0x8000_2000, 2, 0xcf);
    tlb.refill_tlb(0x3000, 0x8000_3000, 2, 0xcf);
    assert_eq!(tlb.lookup(0x2fff), Some(TlbEntry { vpn: 2, ppn: 0x8_0002, asid: 2, perm: 0xcf }));
    tlb.flush(Some(0x1234), None);
    assert_eq!(tlb.lookup(0x1000), None);
    assert!(tlb.lookup(0x2000).is_some());
    tlb.flush(None, Some(1));
    assert!(tlb.lookup(0x2000).is_some());
    tlb.flush(Some(0x2000), Some(1));
    assert!(tlb.lookup(0x2000).is_some());
    tlb.flush(Some(0x2000), Some(2));
    assert_eq!(tlb.lookup(0x2000), None);
    assert!(tlb.lookup(0x3000).is_some());
    tlb.flush(None, Some(2));
    assert_eq!(tlb.lookup(0x3000), None);
}

#[test]
fn the_buffer_is_direct_mapped_by_page_number() {
    let mut tlb = Tlb::new();
    assert_eq!(tlb.lookup(0), None);
    tlb.refill_tlb(0x5000, 0x8000_5000, 0, 0xcf);
    // page 0x105 shares slot 5
    assert_eq!(tlb.lookup(0x10_5000), None);
    tlb.refill_tlb(0x10_5000, 0x8000_6000, 0, 0xcf);
    assert_eq!(tlb.lookup(0x5000), None);
    assert_eq!(tlb.lookup(0x10_5123).unwrap().ppn, 0x8_0006);
}

#[test]
fn the_fence_instruction_flushes_and_a_satp_write_does_too() {
    // sfence.vma x0,x0 ; csrrw x0,satp,x6 ; sfence.vma x1,x0
    let mut emu = emulator(Isa::Rv32);
    emu.cpu.bus.store32(DRAM, 0x12000073).unwrap();
    emu.cpu.bus.store32(DRAM + 4, 0x18031073).unwrap();
    emu.cpu.bus.store32(DRAM + 8, 0x12008073).unwrap();
    emu.cpu.mmu.tlb.refill_tlb(0x5000, 0x8000_5000, 0, 0xcf);
    assert_eq!(emu.step(), Event::Running);
    assert_eq!(emu.cpu.mmu.tlb.lookup(0x5000), None);
    emu.cpu.mmu.tlb.refill_tlb(0x5000, 0x8000_5000, 0, 0xcf);
    assert_eq!(emu.step(), Event::Running);
    assert_eq!(emu.cpu.mmu.tlb.lookup(0x5000), None);
    emu.cpu.mmu.tlb.refill_tlb(0x5000, 0x8000_5000, 0, 0xcf);
    emu.cpu.mmu.tlb.refill_tlb(0x6000, 0x8000_6000, 0, 0xcf);
    emu.cpu.regs.write(Some(1), 0x6004);
    assert_eq!(emu.step(), Event::Running);
    assert!(emu.cpu.mmu.tlb.lookup(0x5000).is_some());
    assert_eq!(emu.cpu.mmu.tlb.lookup(0x6000), None);
}

#[test]
fn sfence_traps_in_supervisor_mode_under_tvm() {
    let mut emu = emulator(Isa::Rv32);
    emu.cpu.bus.store32(DRAM, 0x12000073).unwrap();
    emu.cpu.priv_lv = PrivilegedLevel::Supervisor;
    emu.cpu.csrs.write(CSRname::mstatus.wrap(), 1 << 20);
    emu.cpu.csrs.write(CSRname::mtvec.wrap(), DRAM + 0x40);
    assert_eq!(emu.step(), Event::Running);
    assert_eq!(emu.cpu.csrs.read(CSRname::mcause.wrap()), 2);
    assert_eq!(emu.cpu.pc, DRAM + 0x40);
    assert_eq!(emu.cpu.priv_lv, PrivilegedLevel::Machine);
}

#[test]
fn a_fetch_across_a_page_boundary_faults_on_the_second_page() {
    let mut emu = emulator(Isa::Rv32);
    emu.cpu = sv32(V | R | X);
    // addi x1,x0,5 straddles the end of the mapped page
    emu.cpu.bus.store16(0x8040_0ffe, 0x0093).unwrap();
    emu.cpu.bus.store16(0x8040_1000, 0x0050).unwrap();
    emu.cpu.pc = 0x8040_0ffe;
    assert_eq!(
        emu.cpu.fetch(),
        Err(Fault { addr: Some(0x8040_1000), cause: TrapCause::InstructionPageFault })
    );
    // with the second page mapped the two halves make the instruction
    emu.cpu.bus.store32(LEAVES + 4, pte(0x8040_1000, V | X)).unwrap();
    assert_eq!(emu.step(), Event::Running);
    assert_eq!(emu.cpu.regs.read(Some(1)), 5);
    assert_eq!(emu.cpu.pc, 0x8040_1002);
}

#[test]
fn a_fetch_from_nowhere_is_an_instruction_access_fault() {
    let mut emu = emulator(Isa::Rv32);
    emu.cpu.pc = 0x4000_0000;
    assert_eq!(
        emu.cpu.fetch(),
        Err(Fault { addr: Some(0x4000_0000), cause: TrapCause::InstructionAccessFault })
    );
    emu.cpu.pc = DRAM + 1;
    assert_eq!(
        emu.cpu.fetch(),
        Err(Fault { addr: Some(DRAM + 1), cause: TrapCause::InstructionAddressMisaligned })
    );
}
