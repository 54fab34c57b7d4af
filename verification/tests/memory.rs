use riscv_emu::bus::clint::Clint;
use riscv_emu::bus::dram::{Dram, DRAM_SIZE};
use riscv_emu::bus::mrom::Mrom;
use riscv_emu::bus::plic::Plic;
use riscv_emu::bus::uart::Uart;
use riscv_emu::bus::{Bus, Device};
use riscv_emu::cpu::trap::{Fault, TrapCause};
use riscv_emu::elfload::{ElfLoader, ProgramHeader, PT_LOAD};
use riscv_emu::{Emulator, Event, HostRequest, Isa};

const DRAM: u64 = 0x8000_0000;

fn loader(bytes: Vec<u8>, paddr: u64) -> ElfLoader {
    let len = bytes.len() as u64;
    ElfLoader {
        entry: DRAM,
        prog_headers: vec![ProgramHeader {
            p_type: PT_LOAD,
            p_flags: 5,
            p_offset: 0,
            p_paddr: paddr,
            p_filesz: len,
            p_memsz: len,
        }],
        mem_data: bytes,
        tohost: None,
        fromhost: None,
    }
}

fn bus(isa: Isa) -> Bus {
    Bus::new(&loader(Vec::new(), DRAM), isa, &Vec::new())
}

fn program(words: &[u32]) -> Vec<u8> {
    let mut bytes = Vec::new();
    for word in words {
        bytes.extend_from_slice(&word.to_le_bytes());
    }
    bytes
}

fn fault(addr: u64, cause: TrapCause) -> Fault {
    Fault { addr: Some(addr), cause }
}

#[test]
fn a_word_load_reads_back_the_stored_word() {
    let mut bus = bus(Isa::Rv64);
    let v: u64 = 0xdead_beef_8765_4321;
    bus.store32(DRAM + 0x10, v).unwrap();
    assert_eq!(bus.load_u32(DRAM + 0x10), Ok(v & 0xFFFF_FFFF));
    assert_eq!(bus.load32(DRAM + 0x10), Ok(0xffff_ffff_8765_4321));
    // the bytes behind the word are untouched
    assert_eq!(bus.load_u32(DRAM + 0x14), Ok(0));
    bus.store32(DRAM + 0x20, 0x7765_4321).unwrap();
    assert_eq!(bus.load32(DRAM + 0x20), Ok(0x7765_4321));
}

#[test]
fn every_width_reads_back_what_it_stored() {
    let mut bus = bus(Isa::Rv64);
    let v: u64 = 0x8182_8384_8586_8788;
    bus.store8(DRAM, v).unwrap();
    assert_eq!(bus.load_u8(DRAM), Ok(0x88));
    assert_eq!(bus.load8(DRAM), Ok(0xffff_ffff_ffff_ff88));
    bus.store16(DRAM + 8, v).unwrap();
    assert_eq!(bus.load_u16(DRAM + 8), Ok(0x8788));
    assert_eq!(bus.load16(DRAM + 8), Ok(0xffff_ffff_ffff_8788));
    bus.store64(DRAM + 16, v).unwrap();
    assert_eq!(bus.load64(DRAM + 16), Ok(v));
}

#[test]
fn stores_are_little_endian() {
    let mut bus = bus(Isa::Rv32);
    bus.store32(DRAM, 0x1122_3344).unwrap();
    assert_eq!(bus.load_u8(DRAM), Ok(0x44));
    assert_eq!(bus.load_u8(DRAM + 1), Ok(0x33));
    assert_eq!(bus.load_u8(DRAM + 2), Ok(0x22));
    assert_eq!(bus.load_u8(DRAM + 3), Ok(0x11));
    assert_eq!(bus.load_u16(DRAM + 2), Ok(0x1122));
    bus.store64(DRAM + 8, 0x0102_0304_0506_0708).unwrap();
    assert_eq!(bus.load_u32(DRAM + 8), Ok(0x0506_0708));
    assert_eq!(bus.load_u32(DRAM + 12), Ok(0x0102_0304));
}

#[test]
fn an_address_in_no_region_is_an_access_fault() {
    let mut bus = bus(Isa::Rv32);
    for addr in [0u64, 0xfff, 0x4000_0000, DRAM - 1, DRAM + DRAM_SIZE as u64, u64::MAX] {
        assert_eq!(bus.load8(addr), Err(fault(addr, TrapCause::LoadAccessFault)));
        assert_eq!(bus.load_u16(addr), Err(fault(addr, TrapCause::LoadAccessFault)));
        assert_eq!(bus.load32(addr), Err(fault(addr, TrapCause::LoadAccessFault)));
        assert_eq!(bus.load64(addr), Err(fault(addr, TrapCause::LoadAccessFault)));
        assert_eq!(bus.store8(addr, 1), Err(fault(addr, TrapCause::StoreAMOAccessFault)));
        assert_eq!(bus.store16(addr, 1), Err(fault(addr, TrapCause::StoreAMOAccessFault)));
        assert_eq!(bus.store32(addr, 1), Err(fault(addr, TrapCause::StoreAMOAccessFault)));
        assert_eq!(bus.store64(addr, 1), Err(fault(addr, TrapCause::StoreAMOAccessFault)));
    }
}

#[test]
fn an_access_that_overruns_its_region_is_an_access_fault() {
    let mut bus = bus(Isa::Rv32);
    let last = DRAM + DRAM_SIZE as u64 - 1;
    assert_eq!(bus.load_u8(last), Ok(0));
    assert_eq!(bus.load_u16(last), Err(fault(last, TrapCause::LoadAccessFault)));
    assert_eq!(bus.load32(last - 2), Err(fault(last - 2, TrapCause::LoadAccessFault)));
    assert_eq!(bus.load64(last - 4), Err(fault(last - 4, TrapCause::LoadAccessFault)));
    assert_eq!(bus.store64(last - 4, 1), Err(fault(last - 4, TrapCause::StoreAMOAccessFault)));
    assert_eq!(bus.load64(last - 7), Ok(0));
    assert_eq!(bus.store32(last - 3, 7), Ok(()));
}

#[test]
fn mask_rom_holds_the_reset_vector_and_the_blob() {
    let dtb = vec![0xd0u8, 0x0d, 0xfe, 0xed];
    let mut bus = Bus::new(&loader(Vec::new(), DRAM), Isa::Rv32, &dtb);
    assert_eq!(bus.load_u32(0x1000), Ok(0x0000_0297)); // auipc t0, 0
    assert_eq!(bus.load_u32(0x1004), Ok(0x0202_8593)); // addi a1, t0, 32
    assert_eq!(bus.load_u32(0x1008), Ok(0xf140_2573)); // csrr a0, mhartid
    assert_eq!(bus.load_u32(0x100c), Ok(0x0182_a283)); // lw t0, 24(t0)
    assert_eq!(bus.load_u32(0x1010), Ok(0x0002_8067)); // jr t0
    assert_eq!(bus.load_u32(0x1014), Ok(0));
    assert_eq!(bus.load_u32(0x1018), Ok(0x8000_0000));
    assert_eq!(bus.load_u32(0x101c), Ok(0));
    assert_eq!(bus.load_u32(0x1020), Ok(0xedfe_0dd0));
    assert_eq!(bus.load_u8(0x1024), Err(fault(0x1024, TrapCause::LoadAccessFault)));
    assert_eq!(bus.store32(0x1000, 0), Err(fault(0x1000, TrapCause::StoreAMOAccessFault)));
    assert_eq!(bus.load_u32(0x1000), Ok(0x0000_0297));

    let rom64 = Mrom::new(0x1_8000_0000, Isa::Rv64);
    assert_eq!(rom64.load32(0x100c), Ok(0x0182_b283)); // ld t0, 24(t0)
    assert_eq!(rom64.load64(0x1018), Ok(0x1_8000_0000));
    assert!(rom64.in_range(0x101f));
    assert!(!rom64.in_range(0x1020));
    assert!(rom64.dtb_fits(0xf000 - 32));
    assert!(!rom64.dtb_fits(0xf000 - 31));
}

#[test]
fn the_reset_vector_jumps_to_the_entry_point() {
    let image = loader(program(&[0x00500093]), DRAM);
    let mut emu = Emulator::new(&image, Isa::Rv32, None, None, &Vec::new());
    assert_eq!(emu.cpu.pc, 0x1000);
    for _ in 0..5 {
        assert_eq!(emu.step(), Event::Running);
    }
    assert_eq!(emu.cpu.pc, DRAM);
    assert_eq!(emu.cpu.regs.read(Some(11)), 0x1020); // a1: address of the blob
    assert_eq!(emu.cpu.regs.read(Some(10)), 0); // a0: hart id
    assert_eq!(emu.step(), Event::Running);
    assert_eq!(emu.cpu.regs.read(Some(1)), 5);
}

#[test]
fn uart_accepts_byte_accesses_only() {
    let mut bus = bus(Isa::Rv32);
    let base = 0x1000_0000;
    assert_eq!(bus.load_u8(base + 2), Ok(0x01));
    assert_eq!(bus.load_u8(base + 4), Ok(0x08));
    assert_eq!(bus.load_u8(base + 5), Ok(0x60));
    assert_eq!(bus.load_u8(base + 6), Ok(0xb0));
    assert_eq!(bus.load8(base + 6), Ok(0xffff_ffff_ffff_ffb0));
    assert_eq!(bus.store8(base, 0x41), Ok(()));
    assert_eq!(bus.uart.uart[0], 0x41);
    assert_eq!(bus.store16(base, 0x41), Err(fault(base, TrapCause::StoreAMOPageFault)));
    assert_eq!(bus.store32(base, 0x41), Err(fault(base, TrapCause::StoreAMOPageFault)));
    assert_eq!(bus.store64(base, 0x41), Err(fault(base, TrapCause::StoreAMOPageFault)));
    assert_eq!(bus.load16(base), Err(fault(base, TrapCause::LoadPageFault)));
    assert_eq!(bus.load_u16(base), Err(fault(base, TrapCause::LoadPageFault)));
    assert_eq!(bus.load32(base), Err(fault(base, TrapCause::LoadPageFault)));
    assert_eq!(bus.load_u32(base), Err(fault(base, TrapCause::LoadPageFault)));
    assert_eq!(bus.load64(base), Err(fault(base, TrapCause::LoadPageFault)));
    assert_eq!(bus.load_u8(base + 0x100), Err(fault(base + 0x100, TrapCause::LoadAccessFault)));
}

#[test]
fn reading_the_receive_register_clears_data_ready() {
    let mut uart = Uart::new();
    uart.store8(0x1000_0000, 0xc1).unwrap();
    uart.store8(0x1000_0005, 0x61).unwrap();
    // the receive register is not sign-extended
    assert_eq!(uart.load8(0x1000_0000), Ok(0xc1));
    assert_eq!(uart.load_u8(0x1000_0005), Ok(0x60));
    uart.store8(0x1000_0005, 0x61).unwrap();
    assert_eq!(uart.load8(0x1000_0005), Ok(0x61));
    assert_eq!(uart.load_u8(0x1000_0005), Ok(0x61));
    assert_eq!(uart.addr2index(0x1000_0005), 5);
}

#[test]
fn a_program_writes_a_byte_to_the_uart() {
    // lui x1,0x10000; addi x2,x0,0x41; sb x2,0(x1)
    let image = loader(program(&[0x100000b7, 0x04100113, 0x00208023]), DRAM);
    let mut emu = Emulator::new(&image, Isa::Rv32, Some(DRAM), None, &Vec::new());
    for _ in 0..3 {
        assert_eq!(emu.step(), Event::Running);
    }
    assert_eq!(emu.cpu.bus.uart.uart[0], 0x41);
    assert_eq!(emu.cpu.pc, DRAM + 12);
}

#[test]
fn plic_accepts_word_and_double_word_accesses_only() {
    let mut bus = bus(Isa::Rv64);
    let base = 0x0c00_0000;
    assert_eq!(bus.store32(base + 8, 0x8000_0005), Ok(()));
    assert_eq!(bus.load32(base + 8), Ok(0xffff_ffff_8000_0005));
    assert_eq!(bus.store64(base + 16, 0x1122_3344_5566_7788), Ok(()));
    assert_eq!(bus.load64(base + 16), Ok(0x1122_3344_5566_7788));
    assert_eq!(bus.store8(base, 1), Err(fault(base, TrapCause::StoreAMOPageFault)));
    assert_eq!(bus.store16(base, 1), Err(fault(base, TrapCause::StoreAMOPageFault)));
    assert_eq!(bus.load8(base), Err(fault(base, TrapCause::LoadPageFault)));
    assert_eq!(bus.load16(base), Err(fault(base, TrapCause::LoadPageFault)));
    assert_eq!(bus.load_u8(base), Err(fault(base, TrapCause::LoadPageFault)));
    assert_eq!(bus.load_u16(base), Err(fault(base, TrapCause::LoadPageFault)));
    assert_eq!(bus.load_u32(base + 8), Ok(0x8000_0005));
    assert_eq!(bus.load32(0x0d00_0000), Err(fault(0x0d00_0000, TrapCause::LoadAccessFault)));
}

#[test]
fn plic_priorities_keep_four_bits() {
    let mut plic = Plic::new();
    plic.priority_write(4 * 5, 0x37);
    assert_eq!(plic.priority_read(4 * 5), 7);
    assert_eq!(plic.priority_read(4 * 5 + 3), 7);
    assert_eq!(plic.load32(0x0c00_0000 + 20), Ok(7));
    // source 0 does not exist, and neither does source 1024
    plic.priority_write(0, 9);
    assert_eq!(plic.priority_read(0), 0);
    plic.priority_write(4 * 1024, 9);
    assert_eq!(plic.priority_read(4 * 1024), 0);
    plic.priority_write(4 * 1023, 9);
    assert_eq!(plic.priority_read(4 * 1023), 9);
}

#[test]
fn clint_registers_are_plain_memory() {
    let mut bus = bus(Isa::Rv64);
    let mtimecmp = 0x0200_0000 + 0x4000;
    let mtime = 0x0200_0000 + 0xbff8;
    assert_eq!(bus.store64(mtimecmp, 0x1234_5678_9abc), Ok(()));
    assert_eq!(bus.load64(mtimecmp), Ok(0x1234_5678_9abc));
    assert_eq!(bus.store64(mtime, 99), Ok(()));
    assert_eq!(bus.load64(mtime), Ok(99));
    assert_eq!(bus.store32(0x0200_0000, 1), Ok(()));
    assert_eq!(bus.load_u32(0x0200_0000), Ok(1));
    assert_eq!(bus.load8(0x0200_c000), Err(fault(0x0200_c000, TrapCause::LoadAccessFault)));
    let clint = Clint::new();
    assert!(clint.in_range(0x0200_bfff));
    assert!(!clint.in_range(0x0200_c000));
}

#[test]
fn dram_range_is_half_open() {
    let dram = Dram::blank(DRAM, 0x1000);
    assert!(dram.in_range(DRAM));
    assert!(dram.in_range(DRAM + 0xfff));
    assert!(!dram.in_range(DRAM + 0x1000));
    assert!(!dram.in_range(DRAM - 1));
    assert_eq!(dram.addr2index(DRAM + 0x123), 0x123);
}

#[test]
fn segments_are_placed_relative_to_the_entry_point() {
    let mut image = loader(vec![1, 2, 3, 4, 5, 6, 7, 8], DRAM + 0x100);
    image.prog_headers.push(ProgramHeader {
        p_type: 6,
        p_flags: 4,
        p_offset: 0,
        p_paddr: DRAM,
        p_filesz: 8,
        p_memsz: 8,
    });
    image.prog_headers.push(ProgramHeader {
        p_type: PT_LOAD,
        p_flags: 6,
        p_offset: 0,
        p_paddr: DRAM + 0x104,
        p_filesz: 2,
        p_memsz: 2,
    });
    assert!(image.fits(DRAM_SIZE));
    let dram = Dram::new(&image);
    assert_eq!(dram.base_addr, DRAM);
    // the header that is not loadable is skipped
    assert_eq!(dram.load64(DRAM), Ok(0));
    // the later segment overwrites the earlier one
    assert_eq!(dram.load64(DRAM + 0x100), Ok(0x0807_0201_0403_0201));
    assert_eq!(dram.load_u8(DRAM + 0x108), Ok(0));
    assert_eq!(image.get_entry_point(), DRAM);
    assert_eq!(image.get_host_addr(), (None, None));
}

#[test]
fn an_image_that_does_not_fit_is_told_apart() {
    assert!(!loader(vec![0; 16], DRAM - 4).fits(DRAM_SIZE));
    assert!(!loader(vec![0; 16], DRAM + DRAM_SIZE as u64 - 8).fits(DRAM_SIZE));
    assert!(loader(vec![0; 16], DRAM + DRAM_SIZE as u64 - 16).fits(DRAM_SIZE));
    let mut beyond_file = loader(vec![0; 16], DRAM);
    beyond_file.prog_headers[0].p_offset = 8;
    assert!(!beyond_file.fits(DRAM_SIZE));
    beyond_file.prog_headers[0].p_type = 0;
    assert!(beyond_file.fits(DRAM_SIZE));
}

#[test]
fn tohost_carries_exit_and_syscall_requests() {
    let mut image = loader(Vec::new(), DRAM);
    image.tohost = Some(DRAM + 0x1000);
    image.fromhost = Some(DRAM + 0x1040);
    let mut emu = Emulator::new(&image, Isa::Rv64, Some(DRAM), None, &Vec::new());
    assert_eq!(emu.check_tohost(), None);
    emu.cpu.bus.store64(DRAM + 0x1000, (7 << 1) | 1).unwrap();
    assert_eq!(emu.check_tohost(), Some(HostRequest::Exit(7)));
    emu.cpu.bus.store64(DRAM + 0x1000, DRAM + 0x2000).unwrap();
    assert_eq!(emu.check_tohost(), Some(HostRequest::Syscall(DRAM + 0x2000)));
    // c.nop
    emu.cpu.bus.store16(DRAM, 1).unwrap();
    assert_eq!(emu.step(), Event::Request(HostRequest::Syscall(DRAM + 0x2000)));
    emu.acknowledge();
    assert_eq!(emu.cpu.bus.load64(DRAM + 0x1000), Ok(0));
    assert_eq!(emu.cpu.bus.load64(DRAM + 0x1040), Ok(1));
    assert_eq!(emu.check_tohost(), None);

    // without the host interface nothing is read or written
    let mut plain = Emulator::new(&loader(Vec::new(), DRAM), Isa::Rv64, Some(DRAM), None, &Vec::new());
    plain.cpu.bus.store64(DRAM + 0x1000, 3).unwrap();
    assert_eq!(plain.check_tohost(), None);
    plain.acknowledge();
    assert_eq!(plain.cpu.bus.load64(DRAM + 0x1000), Ok(3));
}

#[test]
fn a_syscall_request_is_eight_double_words() {
    let mut emu = Emulator::new(&loader(Vec::new(), DRAM), Isa::Rv64, Some(DRAM), None, &Vec::new());
    for k in 0..8u64 {
        emu.cpu.bus.store64(DRAM + 0x2000 + 8 * k, 100 + k).unwrap();
    }
    assert_eq!(emu.read_request(DRAM + 0x2000), Some(vec![100, 101, 102, 103, 104, 105, 106, 107]));
    // the last word lies behind the end of memory
    assert_eq!(emu.read_request(DRAM + DRAM_SIZE as u64 - 56), None);
    assert_eq!(emu.read_request(DRAM + DRAM_SIZE as u64 - 64), Some(vec![0; 8]));
    assert_eq!(emu.read_request(u64::MAX - 7), None);
    assert_eq!(emu.read_request(0x1000_0000), None);
}
