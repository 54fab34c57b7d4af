use riscv_emu::cpu::csr::{CSRname, CSRs, Xstatus};
use riscv_emu::cpu::cycle::Stop;
use riscv_emu::cpu::trap::{Fault, TransAlign, TransFor, TrapCause};
use riscv_emu::cpu::{PrivilegedLevel, CPU};
use riscv_emu::elfload::ElfLoader;
use riscv_emu::{Emulator, Event, Isa};

const DRAM: u64 = 0x8000_0000;

fn emulator(isa: Isa, program: &[u32]) -> Emulator {
    let loader = ElfLoader {
        entry: DRAM,
        prog_headers: Vec::new(),
        mem_data: Vec::new(),
        tohost: None,
        fromhost: None,
    };
    let mut emu = Emulator::new(&loader, isa, Some(DRAM), None, &Vec::new());
    for (i, word) in program.iter().enumerate() {
        emu.cpu.bus.store32(DRAM + 4 * i as u64, *word as u64).unwrap();
    }
    emu
}

fn cpu(isa: Isa) -> CPU {
    emulator(isa, &[]).cpu
}

#[test]
fn a_delegated_load_page_fault_goes_to_supervisor_mode() {
    // lw x5,0(x1) in user mode, on a page without a mapping
    let mut emu = emulator(Isa::Rv32, &[0x0000a283]);
    let (root, leaves) = (0x8000_1000u64, 0x8000_2000u64);
    emu.cpu.bus.store32(root + 0x200 * 4, (leaves >> 12) << 10 | 0x01).unwrap();
    // the code page: user, readable, executable
    emu.cpu.bus.store32(leaves, (DRAM >> 12) << 10 | 0x1b).unwrap();
    emu.cpu.csrs.write(CSRname::satp.wrap(), 1 << 31 | root >> 12);
    emu.cpu.csrs.write(CSRname::medeleg.wrap(), 1 << 13);
    emu.cpu.csrs.write(CSRname::stvec.wrap(), 0x8000_0400);
    emu.cpu.csrs.write(CSRname::mstatus.wrap(), 1 << 1);
    emu.cpu.priv_lv = PrivilegedLevel::User;
    emu.cpu.regs.write(Some(1), 0x8000_5000);

    assert_eq!(emu.step(), Event::Running);
    assert_eq!(emu.cpu.csrs.read(CSRname::sepc.wrap()), DRAM);
    assert_eq!(emu.cpu.csrs.read(CSRname::scause.wrap()), 13);
    assert_eq!(emu.cpu.csrs.read(CSRname::stval.wrap()), 0x8000_5000);
    assert_eq!(emu.cpu.priv_lv, PrivilegedLevel::Supervisor);
    assert_eq!(emu.cpu.pc, 0x8000_0400);
    // SPP = user, SPIE = the former SIE, SIE = 0
    assert_eq!(emu.cpu.csrs.read_xstatus(PrivilegedLevel::Supervisor, Xstatus::SPP), 0);
    assert_eq!(emu.cpu.csrs.read_xstatus(PrivilegedLevel::Supervisor, Xstatus::SPIE), 1);
    assert_eq!(emu.cpu.csrs.read_xstatus(PrivilegedLevel::Supervisor, Xstatus::SIE), 0);
    // the machine-level registers are untouched
    assert_eq!(emu.cpu.csrs.read(CSRname::mcause.wrap()), 0);
    assert_eq!(emu.cpu.csrs.read(CSRname::mepc.wrap()), 0);
    assert_eq!(emu.cpu.regs.read(Some(5)), 0);
}

#[test]
fn delegation_needs_the_bit_and_a_lower_privilege() {
    // without the bit the trap goes to machine mode
    let mut cpu = cpu(Isa::Rv32);
    cpu.priv_lv = PrivilegedLevel::User;
    cpu.csrs.write(CSRname::medeleg.wrap(), 1 << 12);
    cpu.trap(0x1234, TrapCause::LoadPageFault);
    assert_eq!(cpu.priv_lv, PrivilegedLevel::Machine);
    assert_eq!(cpu.csrs.read(CSRname::mcause.wrap()), 13);
    assert_eq!(cpu.csrs.read(CSRname::mtval.wrap()), 0x1234);
    assert_eq!(cpu.csrs.read_xstatus(PrivilegedLevel::Machine, Xstatus::MPP), 0);

    // from machine mode the bit does not count
    let mut cpu = self::cpu(Isa::Rv32);
    cpu.csrs.write(CSRname::medeleg.wrap(), 1 << 13);
    cpu.trap(0x1234, TrapCause::LoadPageFault);
    assert_eq!(cpu.priv_lv, PrivilegedLevel::Machine);
    assert_eq!(cpu.csrs.read(CSRname::scause.wrap()), 0);
    assert_eq!(cpu.csrs.read_xstatus(PrivilegedLevel::Machine, Xstatus::MPP), 3);

    // from supervisor mode with the bit: supervisor
    let mut cpu = self::cpu(Isa::Rv32);
    cpu.priv_lv = PrivilegedLevel::Supervisor;
    cpu.csrs.write(CSRname::medeleg.wrap(), 1 << 13);
    cpu.trap(0x1234, TrapCause::LoadPageFault);
    assert_eq!(cpu.priv_lv, PrivilegedLevel::Supervisor);
    assert_eq!(cpu.csrs.read_xstatus(PrivilegedLevel::Supervisor, Xstatus::SPP), 1);
}

#[test]
fn trap_entry_saves_pc_and_privilege() {
    for isa in [Isa::Rv32, Isa::Rv64] {
        for from in [PrivilegedLevel::User, PrivilegedLevel::Supervisor, PrivilegedLevel::Machine] {
            let mut cpu = cpu(isa);
            cpu.priv_lv = from;
            cpu.pc = DRAM + 0x124;
            cpu.reservation = Some(DRAM);
            cpu.csrs.write(CSRname::mstatus.wrap(), 1 << 3);
            cpu.csrs.write(CSRname::mtvec.wrap(), DRAM + 0x800);
            cpu.trap(7, TrapCause::IllegalInst);
            assert_eq!(cpu.csrs.read(CSRname::mepc.wrap()), DRAM + 0x124);
            assert_eq!(cpu.csrs.read_xstatus(PrivilegedLevel::Machine, Xstatus::MPP), from.level());
            assert_eq!(cpu.csrs.read_xstatus(PrivilegedLevel::Machine, Xstatus::MPIE), 1);
            assert_eq!(cpu.csrs.read_xstatus(PrivilegedLevel::Machine, Xstatus::MIE), 0);
            assert_eq!(cpu.csrs.read(CSRname::mcause.wrap()), 2);
            assert_eq!(cpu.csrs.read(CSRname::mtval.wrap()), 7);
            assert_eq!(cpu.priv_lv, PrivilegedLevel::Machine);
            assert_eq!(cpu.pc, DRAM + 0x800);
            assert_eq!(cpu.reservation, None);
        }
    }
}

#[test]
fn trap_return_restores_privilege_and_interrupt_enable() {
    for from in [PrivilegedLevel::User, PrivilegedLevel::Supervisor, PrivilegedLevel::Machine] {
        for enabled in [0u64, 1] {
            // mret at the trap vector
            let mut emu = emulator(Isa::Rv32, &[0x30200073]);
            emu.cpu.priv_lv = from;
            emu.cpu.pc = DRAM + 0x124;
            emu.cpu.csrs.write(CSRname::mstatus.wrap(), enabled << 3);
            emu.cpu.csrs.write(CSRname::mtvec.wrap(), DRAM);
            emu.cpu.trap(0, TrapCause::Breakpoint);
            assert_eq!(emu.cpu.priv_lv, PrivilegedLevel::Machine);
            assert_eq!(emu.step(), Event::Running);
            assert_eq!(emu.cpu.priv_lv, from);
            assert_eq!(emu.cpu.csrs.read_xstatus(PrivilegedLevel::Machine, Xstatus::MIE), enabled);
            assert_eq!(emu.cpu.csrs.read_xstatus(PrivilegedLevel::Machine, Xstatus::MPIE), 1);
            assert_eq!(emu.cpu.csrs.read_xstatus(PrivilegedLevel::Machine, Xstatus::MPP), 0);
            assert_eq!(emu.cpu.pc, DRAM + 0x124);
        }
    }
}

#[test]
fn sret_returns_to_the_previous_privilege() {
    // sret
    let mut emu = emulator(Isa::Rv64, &[0x10200073]);
    emu.cpu.priv_lv = PrivilegedLevel::Supervisor;
    emu.cpu.csrs.write(CSRname::sepc.wrap(), DRAM + 0x200);
    // SPP = user, SPIE = 1, SIE = 0
    emu.cpu.csrs.write(CSRname::sstatus.wrap(), 1 << 5);
    assert_eq!(emu.step(), Event::Running);
    assert_eq!(emu.cpu.priv_lv, PrivilegedLevel::User);
    assert_eq!(emu.cpu.pc, DRAM + 0x200);
    assert_eq!(emu.cpu.csrs.read_xstatus(PrivilegedLevel::Supervisor, Xstatus::SIE), 1);
    assert_eq!(emu.cpu.csrs.read_xstatus(PrivilegedLevel::Supervisor, Xstatus::SPIE), 1);
}

#[test]
fn sret_traps_in_supervisor_mode_under_tsr() {
    let mut emu = emulator(Isa::Rv32, &[0x10200073]);
    emu.cpu.priv_lv = PrivilegedLevel::Supervisor;
    emu.cpu.csrs.write(CSRname::mstatus.wrap(), 1 << 22);
    emu.cpu.csrs.write(CSRname::mtvec.wrap(), DRAM + 0x40);
    assert_eq!(emu.step(), Event::Running);
    assert_eq!(emu.cpu.csrs.read(CSRname::mcause.wrap()), 2);
    assert_eq!(emu.cpu.csrs.read(CSRname::mepc.wrap()), DRAM);
    assert_eq!(emu.cpu.priv_lv, PrivilegedLevel::Machine);
    assert_eq!(emu.cpu.pc, DRAM + 0x40);
}

#[test]
fn uret_returns_to_user_mode() {
    let mut cpu = cpu(Isa::Rv32);
    cpu.csrs.write(CSRname::uepc.wrap(), DRAM + 0x300);
    cpu.csrs.write(CSRname::mstatus.wrap(), 1 << 4);
    cpu.priv_lv = PrivilegedLevel::User;
    cpu.trap_return(PrivilegedLevel::User);
    assert_eq!(cpu.priv_lv, PrivilegedLevel::User);
    assert_eq!(cpu.pc, DRAM + 0x300);
    assert_eq!(cpu.csrs.read_xstatus(PrivilegedLevel::User, Xstatus::UIE), 1);
    assert_eq!(cpu.csrs.read_xstatus(PrivilegedLevel::User, Xstatus::UPIE), 1);
}

#[test]
fn machine_interrupts_are_gated_by_mie_in_machine_mode() {
    // two nops
    let mut emu = emulator(Isa::Rv32, &[0x00000013, 0x00000013]);
    emu.cpu.csrs.write(CSRname::mtvec.wrap(), DRAM + 0x100);
    emu.cpu.csrs.write(CSRname::mie.wrap(), 1 << 7);
    emu.cpu.csrs.set_pending(TrapCause::MachineTimerInterrupt, true);
    assert_eq!(emu.cpu.check_interrupt(), None);
    assert_eq!(emu.step(), Event::Running);
    assert_eq!(emu.cpu.pc, DRAM + 4);

    emu.cpu.csrs.write_xstatus(PrivilegedLevel::Machine, Xstatus::MIE, 1);
    assert_eq!(emu.cpu.check_interrupt(), Some(TrapCause::MachineTimerInterrupt));
    assert_eq!(emu.step(), Event::Running);
    assert_eq!(emu.cpu.pc, DRAM + 0x100);
    assert_eq!(emu.cpu.csrs.read(CSRname::mcause.wrap()), 0x8000_0007);
    assert_eq!(emu.cpu.csrs.read(CSRname::mepc.wrap()), DRAM + 4);
    assert_eq!(emu.cpu.csrs.read(CSRname::mtval.wrap()), 0);
    assert_eq!(emu.cpu.csrs.read_xstatus(PrivilegedLevel::Machine, Xstatus::MIE), 0);
    // with MIE clear again the next instruction runs
    assert_eq!(emu.cpu.check_interrupt(), None);
}

#[test]
fn an_interrupt_needs_pending_and_enable() {
    let mut cpu = cpu(Isa::Rv64);
    cpu.csrs.write_xstatus(PrivilegedLevel::Machine, Xstatus::MIE, 1);
    cpu.csrs.set_pending(TrapCause::MachineSoftwareInterrupt, true);
    assert_eq!(cpu.check_interrupt(), None);
    cpu.csrs.write(CSRname::mie.wrap(), 1 << 3);
    assert_eq!(cpu.check_interrupt(), Some(TrapCause::MachineSoftwareInterrupt));
    cpu.csrs.set_pending(TrapCause::MachineSoftwareInterrupt, false);
    assert_eq!(cpu.check_interrupt(), None);
    // below machine mode a machine interrupt is taken whatever MIE says
    cpu.csrs.set_pending(TrapCause::MachineSoftwareInterrupt, true);
    cpu.csrs.write_xstatus(PrivilegedLevel::Machine, Xstatus::MIE, 0);
    cpu.priv_lv = PrivilegedLevel::User;
    assert_eq!(cpu.check_interrupt(), Some(TrapCause::MachineSoftwareInterrupt));
    cpu.trap(0, TrapCause::MachineSoftwareInterrupt);
    assert_eq!(cpu.csrs.read(CSRname::mcause.wrap()), 0x8000_0000_0000_0003);
}

#[test]
fn interrupt_priority_is_external_software_timer() {
    let mut cpu = cpu(Isa::Rv32);
    cpu.csrs.write_xstatus(PrivilegedLevel::Machine, Xstatus::MIE, 1);
    cpu.csrs.write(CSRname::mie.wrap(), 0xbbb);
    cpu.csrs.set_pending(TrapCause::MachineTimerInterrupt, true);
    assert_eq!(cpu.check_interrupt(), Some(TrapCause::MachineTimerInterrupt));
    cpu.csrs.set_pending(TrapCause::MachineSoftwareInterrupt, true);
    assert_eq!(cpu.check_interrupt(), Some(TrapCause::MachineSoftwareInterrupt));
    cpu.csrs.set_pending(TrapCause::SupervisorExternalInterrupt, true);
    assert_eq!(cpu.check_interrupt(), Some(TrapCause::SupervisorExternalInterrupt));
    cpu.csrs.set_pending(TrapCause::MachineExternalInterrupt, true);
    assert_eq!(cpu.check_interrupt(), Some(TrapCause::MachineExternalInterrupt));
}

#[test]
fn delegated_interrupts_are_taken_in_supervisor_mode() {
    let mut cpu = cpu(Isa::Rv32);
    cpu.csrs.write(CSRname::mideleg.wrap(), 1 << 5);
    cpu.csrs.write(CSRname::mie.wrap(), 1 << 5);
    cpu.csrs.set_pending(TrapCause::SupervisorTimerInterrupt, true);
    cpu.csrs.write(CSRname::stvec.wrap(), DRAM + 0x201);
    // from machine mode nothing is delegated: the interrupt is delivered to
    // machine mode, where MIE gates it
    assert_eq!(cpu.check_interrupt(), None);
    cpu.csrs.write_xstatus(PrivilegedLevel::Machine, Xstatus::MIE, 1);
    assert_eq!(cpu.check_interrupt(), Some(TrapCause::SupervisorTimerInterrupt));
    cpu.priv_lv = PrivilegedLevel::Supervisor;
    assert_eq!(cpu.check_interrupt(), None);
    cpu.csrs.write_xstatus(PrivilegedLevel::Supervisor, Xstatus::SIE, 1);
    assert_eq!(cpu.check_interrupt(), Some(TrapCause::SupervisorTimerInterrupt));
    cpu.pc = DRAM + 8;
    cpu.trap(0, TrapCause::SupervisorTimerInterrupt);
    assert_eq!(cpu.priv_lv, PrivilegedLevel::Supervisor);
    assert_eq!(cpu.csrs.read(CSRname::scause.wrap()), 0x8000_0005);
    assert_eq!(cpu.csrs.read(CSRname::sepc.wrap()), DRAM + 8);
    // vectored: base + 4 * cause
    assert_eq!(cpu.pc, DRAM + 0x200 + 4 * 5);
    cpu.priv_lv = PrivilegedLevel::User;
    cpu.csrs.write_xstatus(PrivilegedLevel::Supervisor, Xstatus::SIE, 0);
    assert_eq!(cpu.check_interrupt(), Some(TrapCause::SupervisorTimerInterrupt));
}

#[test]
fn vectored_mode_applies_to_interrupts_only() {
    let mut cpu = cpu(Isa::Rv32);
    cpu.csrs.write(CSRname::mtvec.wrap(), DRAM + 0x101);
    cpu.trap(0, TrapCause::IllegalInst);
    assert_eq!(cpu.pc, DRAM + 0x100);
    cpu.trap(0, TrapCause::MachineExternalInterrupt);
    assert_eq!(cpu.pc, DRAM + 0x100 + 4 * 11);
    cpu.csrs.write(CSRname::mtvec.wrap(), DRAM + 0x100);
    cpu.trap(0, TrapCause::MachineExternalInterrupt);
    assert_eq!(cpu.pc, DRAM + 0x100);
}

#[test]
fn cause_codes() {
    let codes = [
        (TrapCause::InstructionAddressMisaligned, 0),
        (TrapCause::InstructionAccessFault, 1),
        (TrapCause::IllegalInst, 2),
        (TrapCause::Breakpoint, 3),
        (TrapCause::LoadAddressMisaligned, 4),
        (TrapCause::LoadAccessFault, 5),
        (TrapCause::StoreAMOAddressMisaligned, 6),
        (TrapCause::StoreAMOAccessFault, 7),
        (TrapCause::UmodeEcall, 8),
        (TrapCause::SmodeEcall, 9),
        (TrapCause::MmodeEcall, 11),
        (TrapCause::InstructionPageFault, 12),
        (TrapCause::LoadPageFault, 13),
        (TrapCause::StoreAMOPageFault, 15),
    ];
    for (cause, code) in codes {
        assert_eq!(cause.code(), code);
        assert!(!cause.is_interrupt());
    }
    let interrupts = [
        (TrapCause::UserSoftwareInterrupt, 0),
        (TrapCause::SupervisorSoftwareInterrupt, 1),
        (TrapCause::MachineSoftwareInterrupt, 3),
        (TrapCause::UserTimerInterrupt, 4),
        (TrapCause::SupervisorTimerInterrupt, 5),
        (TrapCause::MachineTimerInterrupt, 7),
        (TrapCause::UserExternalInterrupt, 8),
        (TrapCause::SupervisorExternalInterrupt, 9),
        (TrapCause::MachineExternalInterrupt, 11),
    ];
    for (cause, code) in interrupts {
        assert_eq!(cause.code(), code);
        assert!(cause.is_interrupt());
    }
    assert_eq!(TransAlign::Size8.bytes(), 1);
    assert_eq!(TransAlign::Size16.bytes(), 2);
    assert_eq!(TransAlign::Size32.bytes(), 4);
    assert_eq!(TransAlign::Size64.bytes(), 8);
}

#[test]
fn sstatus_and_ustatus_are_views_of_mstatus() {
    let mut csrs = CSRs::new(Isa::Rv32).init();
    csrs.write(CSRname::mstatus.wrap(), 0xffff_ffff);
    assert_eq!(csrs.read(CSRname::mstatus.wrap()), 0xffff_ffff);
    assert_eq!(csrs.read(CSRname::sstatus.wrap()), 0x800d_e133);
    assert_eq!(csrs.read(CSRname::ustatus.wrap()), 0x11);
    // a write through the view leaves the other bits alone
    csrs.write(CSRname::sstatus.wrap(), 0);
    assert_eq!(csrs.read(CSRname::mstatus.wrap()), 0xffff_ffff & !0x800d_e133);
    csrs.write(CSRname::ustatus.wrap(), 0xffff_ffff);
    assert_eq!(csrs.read(CSRname::mstatus.wrap()), 0xffff_ffff & !0x800d_e133 | 0x11);
    // MPP is not visible through sstatus
    assert_eq!(csrs.read_xstatus(PrivilegedLevel::Machine, Xstatus::MPP), 3);
    assert_eq!(csrs.read_xstatus(PrivilegedLevel::Supervisor, Xstatus::MPP), 0);

    let mut csrs = CSRs::new(Isa::Rv64).init();
    csrs.write(CSRname::mstatus.wrap(), u64::MAX);
    assert_eq!(csrs.read(CSRname::sstatus.wrap()), 0x8000_0003_000d_e133);
    assert_eq!(csrs.read_xstatus(PrivilegedLevel::Machine, Xstatus::SD), 1);
}

#[test]
fn status_fields_are_written_in_place() {
    let mut csrs = CSRs::new(Isa::Rv32).init();
    csrs.write(CSRname::mstatus.wrap(), 0x0000_1888);
    csrs.write_xstatus(PrivilegedLevel::Machine, Xstatus::MPP, 1);
    assert_eq!(csrs.read(CSRname::mstatus.wrap()), 0x0000_0888);
    csrs.write_xstatus(PrivilegedLevel::Machine, Xstatus::MIE, 0);
    assert_eq!(csrs.read(CSRname::mstatus.wrap()), 0x0000_0880);
    csrs.write_xstatus(PrivilegedLevel::Machine, Xstatus::SUM, 7);
    assert_eq!(csrs.read(CSRname::mstatus.wrap()), 0x0004_0880);
    assert_eq!(csrs.read_xstatus(PrivilegedLevel::Machine, Xstatus::SUM), 1);
    assert_eq!(csrs.read_xstatus(PrivilegedLevel::Machine, Xstatus::MPIE), 1);
    assert_eq!(csrs.read_xstatus(PrivilegedLevel::Machine, Xstatus::TSR), 0);
    // a machine-only field cannot be set through sstatus
    csrs.write_xstatus(PrivilegedLevel::Supervisor, Xstatus::TVM, 1);
    assert_eq!(csrs.read_xstatus(PrivilegedLevel::Machine, Xstatus::TVM), 0);
    csrs.write_xstatus(PrivilegedLevel::Supervisor, Xstatus::SPP, 1);
    assert_eq!(csrs.read_xstatus(PrivilegedLevel::Machine, Xstatus::SPP), 1);
}

#[test]
fn interrupt_registers_of_lower_levels_are_views() {
    let mut csrs = CSRs::new(Isa::Rv32).init();
    csrs.write(CSRname::mie.wrap(), 0xfff);
    assert_eq!(csrs.read(CSRname::sie.wrap()), 0x333);
    assert_eq!(csrs.read(CSRname::uie.wrap()), 0x111);
    csrs.write(CSRname::sie.wrap(), 0);
    assert_eq!(csrs.read(CSRname::mie.wrap()), 0xccc);
    // machine-level pending bits are driven by the sources only
    csrs.write(CSRname::mip.wrap(), 0xfff);
    assert_eq!(csrs.read(CSRname::mip.wrap()), 0x333);
    csrs.set_pending(TrapCause::MachineExternalInterrupt, true);
    assert_eq!(csrs.read(CSRname::mip.wrap()), 0xb33);
    assert_eq!(csrs.read(CSRname::sip.wrap()), 0x333);
    csrs.write(CSRname::sip.wrap(), 0);
    assert_eq!(csrs.read(CSRname::mip.wrap()), 0xa30);
    assert_eq!(csrs.read(CSRname::uip.wrap()), 0x010);
}

#[test]
fn bit_set_and_clear_on_csrs() {
    let mut csrs = CSRs::new(Isa::Rv32).init();
    csrs.write(CSRname::mscratch.wrap(), 0b1100);
    csrs.bitset(CSRname::mscratch.wrap(), 0b0011);
    assert_eq!(csrs.read(CSRname::mscratch.wrap()), 0b1111);
    csrs.bitclr(CSRname::mscratch.wrap(), 0b0110);
    assert_eq!(csrs.read(CSRname::mscratch.wrap()), 0b1001);
    csrs.bitset(CSRname::mscratch.wrap(), 0);
    csrs.bitclr(CSRname::mscratch.wrap(), 0);
    assert_eq!(csrs.read(CSRname::mscratch.wrap()), 0b1001);
    // on RV32 the value is cut to 32 bits
    csrs.write(CSRname::mscratch.wrap(), 0x1_2345_6789);
    assert_eq!(csrs.read(CSRname::mscratch.wrap()), 0x2345_6789);
    assert_eq!(CSRname::mepc.wrap(), Some(0x341));
    assert_eq!(CSRname::tdata2.wrap(), Some(0x7a2));
    assert_eq!(CSRname::satp.addr(), 0x180);
}

#[test]
fn tselect_banks_the_trigger_registers() {
    let mut csrs = CSRs::new(Isa::Rv32).init();
    csrs.write(CSRname::tdata1.wrap(), 0x11);
    csrs.write(CSRname::tdata2.wrap(), 0x12);
    csrs.write(CSRname::tselect.wrap(), 3);
    assert_eq!(csrs.read(CSRname::tselect.wrap()), 3);
    assert_eq!(csrs.read(CSRname::tdata1.wrap()), 0);
    csrs.write(CSRname::tdata1.wrap(), 0x31);
    csrs.write(CSRname::tselect.wrap(), 0);
    assert_eq!(csrs.read(CSRname::tdata1.wrap()), 0x11);
    assert_eq!(csrs.read(CSRname::tdata2.wrap()), 0x12);
    // there are eight triggers: selecting a ninth is ignored
    csrs.write(CSRname::tselect.wrap(), 8);
    assert_eq!(csrs.read(CSRname::tselect.wrap()), 0);
    csrs.write(CSRname::tselect.wrap(), 3);
    assert_eq!(csrs.read(CSRname::tdata1.wrap()), 0x31);
}

#[test]
fn an_address_match_trigger_raises_a_breakpoint() {
    // nop; lw x5,0(x1)
    let mut emu = emulator(Isa::Rv32, &[0x00000013, 0x0000a283]);
    emu.cpu.regs.write(Some(1), DRAM + 0x800);
    // type 2, enabled in machine mode, armed for loads
    emu.cpu.csrs.write(CSRname::tdata1.wrap(), 2 << 28 | 1 << 6 | 1);
    emu.cpu.csrs.write(CSRname::tdata2.wrap(), DRAM + 0x800);
    emu.cpu.csrs.write(CSRname::mtvec.wrap(), DRAM + 0x40);
    assert!(emu.cpu.trigger_supported());
    assert_eq!(emu.cpu.check_breakpoint(&TransFor::Load, DRAM + 0x800),
        Err(Fault { addr: Some(DRAM + 0x800), cause: TrapCause::Breakpoint }));
    assert_eq!(emu.cpu.check_breakpoint(&TransFor::StoreAMO, DRAM + 0x800), Ok(DRAM + 0x800));
    assert_eq!(emu.cpu.check_breakpoint(&TransFor::Load, DRAM + 0x804), Ok(DRAM + 0x804));
    assert_eq!(emu.step(), Event::Running);
    assert_eq!(emu.cpu.pc, DRAM + 4);
    assert_eq!(emu.step(), Event::Running);
    assert_eq!(emu.cpu.csrs.read(CSRname::mcause.wrap()), 3);
    assert_eq!(emu.cpu.csrs.read(CSRname::mtval.wrap()), DRAM + 0x800);
    assert_eq!(emu.cpu.csrs.read(CSRname::mepc.wrap()), DRAM + 4);
    assert_eq!(emu.cpu.regs.read(Some(5)), 0);
    assert_eq!(emu.cpu.pc, DRAM + 0x40);
}

#[test]
fn a_trigger_fires_on_fetch_and_store_when_armed() {
    let mut cpu = cpu(Isa::Rv64);
    cpu.csrs.write(CSRname::tdata2.wrap(), DRAM);
    cpu.csrs.write(CSRname::tdata1.wrap(), 2 << 60 | 1 << 6 | 1 << 2 | 1 << 1);
    let hit = Err(Fault { addr: Some(DRAM), cause: TrapCause::Breakpoint });
    assert_eq!(cpu.check_breakpoint(&TransFor::Fetch, DRAM), hit);
    assert_eq!(cpu.check_breakpoint(&TransFor::Deleg, DRAM), hit);
    assert_eq!(cpu.check_breakpoint(&TransFor::StoreAMO, DRAM), hit);
    assert_eq!(cpu.check_breakpoint(&TransFor::Load, DRAM), Ok(DRAM));
    assert_eq!(cpu.fetch(), hit.map(|_: u64| unreachable!()));
    // the trigger is enabled for machine mode only
    cpu.priv_lv = PrivilegedLevel::Supervisor;
    assert_eq!(cpu.check_breakpoint(&TransFor::Fetch, DRAM), Ok(DRAM));
    cpu.csrs.write(CSRname::tdata1.wrap(), 2 << 60 | 1 << 4 | 1 << 3 | 1 << 2);
    assert_eq!(cpu.check_breakpoint(&TransFor::Fetch, DRAM), hit);
    cpu.priv_lv = PrivilegedLevel::User;
    assert_eq!(cpu.check_breakpoint(&TransFor::Fetch, DRAM), hit);
    cpu.priv_lv = PrivilegedLevel::Machine;
    assert_eq!(cpu.check_breakpoint(&TransFor::Fetch, DRAM), Ok(DRAM));
}

#[test]
fn a_trigger_the_core_does_not_implement_halts_it() {
    let mut emu = emulator(Isa::Rv32, &[0x00000013]);
    // an instruction count trigger
    emu.cpu.csrs.write(CSRname::tdata1.wrap(), 3 << 28);
    assert!(!emu.cpu.trigger_supported());
    assert_eq!(emu.step(), Event::Halted(Stop::UnsupportedTrigger));
    assert_eq!(emu.cpu.pc, DRAM);
    // an address match trigger with a match mode other than equality
    emu.cpu.csrs.write(CSRname::tdata1.wrap(), 2 << 28 | 1 << 7 | 1 << 6);
    assert!(!emu.cpu.trigger_supported());
    // ... counts only where the trigger is enabled
    emu.cpu.csrs.write(CSRname::tdata1.wrap(), 2 << 28 | 1 << 7 | 1 << 4);
    assert!(emu.cpu.trigger_supported());
    assert_eq!(emu.step(), Event::Running);
}

#[test]
fn privilege_levels_and_their_encoding() {
    assert_eq!(PrivilegedLevel::User.level(), 0);
    assert_eq!(PrivilegedLevel::Supervisor.level(), 1);
    assert_eq!(PrivilegedLevel::Reserved.level(), 2);
    assert_eq!(PrivilegedLevel::Machine.level(), 3);
    for level in 0..4 {
        assert_eq!(PrivilegedLevel::from_level(level).level(), level);
    }
    let cpu = cpu(Isa::Rv64);
    assert_eq!(cpu.priv_lv, PrivilegedLevel::Machine);
    assert_eq!(cpu.pc, DRAM);
}
