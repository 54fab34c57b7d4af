use riscv_emu::cpu::csr::CSRname;
use riscv_emu::cpu::cycle::Stop;
use riscv_emu::cpu::execution::inst_16::c_extension::{exec, expand};
use riscv_emu::cpu::execution::inst_16::exe_cinst;
use riscv_emu::cpu::execution::inst_32::a_extension::amo;
use riscv_emu::cpu::execution::inst_32::base_i::{alu, taken};
use riscv_emu::cpu::execution::inst_32::{base_i, exe_inst, priv_extension, zicsr_extension};
use riscv_emu::cpu::execution::Execution;
use riscv_emu::cpu::instruction::Instruction;
use riscv_emu::cpu::instruction::OpecodeKind;
use riscv_emu::cpu::trap::{Fault, TrapCause};
use riscv_emu::cpu::{PrivilegedLevel, CPU};
use riscv_emu::elfload::{ElfLoader, ProgramHeader, PT_LOAD};
use riscv_emu::{Emulator, Event, Isa};

const DRAM: u64 = 0x8000_0000;

fn emulator(isa: Isa, program: &[u32]) -> Emulator {
    let mut mem_data = Vec::new();
    for word in program {
        mem_data.extend_from_slice(&word.to_le_bytes());
    }
    let len = mem_data.len() as u64;
    let loader = ElfLoader {
        entry: DRAM,
        prog_headers: vec![ProgramHeader {
            p_type: PT_LOAD,
            p_flags: 5,
            p_offset: 0,
            p_paddr: DRAM,
            p_filesz: len,
            p_memsz: len,
        }],
        mem_data,
        tohost: None,
        fromhost: None,
    };
    assert!(loader.fits(0x800_0000));
    Emulator::new(&loader, isa, Some(DRAM), None, &Vec::new())
}

fn cpu(isa: Isa) -> CPU {
    emulator(isa, &[]).cpu
}

fn reg_op(opc: OpecodeKind, rd: usize, rs1: usize, rs2: usize) -> Instruction {
    Instruction { opc, rd: Some(rd), rs1: Some(rs1), rs2: Some(rs2), imm: None, is_compressed: false }
}

fn imm_op(opc: OpecodeKind, rd: usize, rs1: usize, imm: i32) -> Instruction {
    Instruction { opc, rd: Some(rd), rs1: Some(rs1), rs2: None, imm: Some(imm), is_compressed: false }
}

fn store_op(opc: OpecodeKind, rs1: usize, rs2: usize, imm: i32) -> Instruction {
    Instruction { opc, rd: None, rs1: Some(rs1), rs2: Some(rs2), imm: Some(imm), is_compressed: false }
}

fn bare(opc: OpecodeKind) -> Instruction {
    Instruction { opc, rd: None, rs1: None, rs2: None, imm: None, is_compressed: false }
}

fn atomic(opc: OpecodeKind, rd: usize, rs1: usize, rs2: Option<usize>) -> Instruction {
    Instruction { opc, rd: Some(rd), rs1: Some(rs1), rs2, imm: Some(0), is_compressed: false }
}

fn csr_op(opc: OpecodeKind, rd: usize, rs1: usize, csr: usize) -> Instruction {
    Instruction { opc, rd: Some(rd), rs1: Some(rs1), rs2: Some(csr), imm: None, is_compressed: false }
}

#[test]
fn c_extension_test() {
    let mut cpu = cpu(Isa::Rv32);

    exec(
        &Instruction {
            opc: OpecodeKind::OP_C_LI,
            rd: Some(10),
            rs1: None,
            rs2: None,
            imm: Some(42),
            is_compressed: true,
        },
        &mut cpu,
    )
    .unwrap();
    assert_eq!(cpu.regs.read(Some(10)), 42);
    assert_eq!(cpu.pc, DRAM + 2);
}

#[test]
fn add_program_ends_in_breakpoint_trap() {
    // addi x1,x0,5; addi x2,x0,7; add x3,x1,x2; ebreak
    let mut emu = emulator(Isa::Rv32, &[0x00500093, 0x00700113, 0x002081b3, 0x00100073]);
    for _ in 0..4 {
        assert_eq!(emu.step(), Event::Running);
    }
    assert_eq!(emu.cpu.regs.read(Some(3)), 12);
    assert_eq!(emu.cpu.csrs.read(CSRname::mcause.wrap()), 3);
    assert_eq!(emu.cpu.csrs.read(CSRname::mepc.wrap()), DRAM + 12);
    assert_eq!(emu.cpu.csrs.read(CSRname::mtval.wrap()), DRAM + 12);
    assert_eq!(emu.cpu.priv_lv, PrivilegedLevel::Machine);
    assert_eq!(emu.cpu.pc, 0);
}

#[test]
fn csrrw_swaps_register_and_mepc() {
    for isa in [Isa::Rv32, Isa::Rv64] {
        // csrrw x5, mepc, x6
        let mut emu = emulator(isa, &[0x341312f3]);
        emu.cpu.csrs.write(CSRname::mepc.wrap(), 0x80001234);
        emu.cpu.regs.write(Some(6), 0x80005678);
        assert_eq!(emu.step(), Event::Running);
        assert_eq!(emu.cpu.regs.read(Some(5)), 0x80001234);
        assert_eq!(emu.cpu.csrs.read(CSRname::mepc.wrap()), 0x80005678 & !0x1);
        assert_eq!(emu.cpu.pc, DRAM + 4);
    }
}

#[test]
fn mepc_read_masks_low_bits_by_ialign() {
    let mut cpu = cpu(Isa::Rv32);
    cpu.csrs.write(CSRname::mepc.wrap(), 0x80005679);
    assert_eq!(cpu.csrs.read(CSRname::mepc.wrap()), 0x80005678);
    cpu.csrs.write(CSRname::mepc.wrap(), 0x8000567b);
    assert_eq!(cpu.csrs.read(CSRname::mepc.wrap()), 0x8000567a);
    // with the C extension disabled the low two bits are masked
    cpu.csrs.csrs[0x301] = 0x4014_1101;
    assert_eq!(cpu.csrs.read(CSRname::mepc.wrap()), 0x80005678);
    assert_eq!(cpu.csrs.read(CSRname::sepc.wrap()), 0);
}

#[test]
fn store_conditional_needs_the_reservation() {
    // lr.w x5,(x1); sc.w x6,x2,(x1); sc.w x6,x2,(x1)
    let mut emu = emulator(Isa::Rv32, &[0x1000a2af, 0x1820a32f, 0x1820a32f]);
    emu.cpu.regs.write(Some(1), 0x80001000);
    emu.cpu.regs.write(Some(2), 0xcafe_f00d);
    emu.cpu.bus.store32(0x80001000, 0x1234_5678).unwrap();

    assert_eq!(emu.step(), Event::Running);
    assert_eq!(emu.cpu.regs.read(Some(5)), 0x1234_5678);
    assert_eq!(emu.cpu.reservation, Some(0x80001000));

    assert_eq!(emu.step(), Event::Running);
    assert_eq!(emu.cpu.regs.read(Some(6)), 0);
    assert_eq!(emu.cpu.bus.load_u32(0x80001000), Ok(0xcafe_f00d));
    assert_eq!(emu.cpu.reservation, None);

    emu.cpu.regs.write(Some(2), 0x0bad_0bad);
    assert_eq!(emu.step(), Event::Running);
    assert_eq!(emu.cpu.regs.read(Some(6)), 1);
    assert_eq!(emu.cpu.bus.load_u32(0x80001000), Ok(0xcafe_f00d));
}

#[test]
fn store_to_the_reserved_page_breaks_the_reservation() {
    // lr.w x5,(x1); sw x2,0(x3); sc.w x6,x2,(x1)
    let mut emu = emulator(Isa::Rv32, &[0x1000a2af, 0x0021a023, 0x1820a32f]);
    emu.cpu.regs.write(Some(1), 0x80001000);
    emu.cpu.regs.write(Some(2), 77);
    emu.cpu.regs.write(Some(3), 0x80001ff0);
    for _ in 0..3 {
        assert_eq!(emu.step(), Event::Running);
    }
    assert_eq!(emu.cpu.regs.read(Some(6)), 1);
    assert_eq!(emu.cpu.bus.load_u32(0x80001000), Ok(0));
    assert_eq!(emu.cpu.bus.load_u32(0x80001ff0), Ok(77));
}

#[test]
fn store_to_another_page_keeps_the_reservation() {
    let mut cpu = cpu(Isa::Rv32);
    cpu.regs.write(Some(1), 0x80001000);
    cpu.regs.write(Some(2), 77);
    cpu.regs.write(Some(3), 0x80002000);
    exe_inst(&atomic(OpecodeKind::OP_LR_W, 5, 1, None), &mut cpu).unwrap();
    exe_inst(&store_op(OpecodeKind::OP_SW, 3, 2, 0), &mut cpu).unwrap();
    assert_eq!(cpu.reservation, Some(0x80001000));
    exe_inst(&atomic(OpecodeKind::OP_SC_W, 6, 1, Some(2)), &mut cpu).unwrap();
    assert_eq!(cpu.regs.read(Some(6)), 0);
    assert_eq!(cpu.bus.load_u32(0x80001000), Ok(77));
}

#[test]
fn register_zero_reads_as_zero_after_any_write() {
    for isa in [Isa::Rv32, Isa::Rv64] {
        // addi x0,x0,5
        let mut emu = emulator(isa, &[0x00500013]);
        assert_eq!(emu.step(), Event::Running);
        assert_eq!(emu.cpu.regs.read(Some(0)), 0);
        emu.cpu.regs.write(Some(0), 0xdead_beef);
        assert_eq!(emu.cpu.regs.read(Some(0)), 0);
        emu.cpu.regs.write(Some(31), 0xdead_beef);
        assert_eq!(emu.cpu.regs.read(Some(31)), 0xdead_beef);
    }
}

#[test]
fn registers_are_cut_to_the_register_width() {
    let mut cpu32 = cpu(Isa::Rv32);
    cpu32.regs.write(Some(7), 0x1_2345_6789);
    assert_eq!(cpu32.regs.read(Some(7)), 0x2345_6789);
    let mut cpu64 = cpu(Isa::Rv64);
    cpu64.regs.write(Some(7), 0x1_2345_6789);
    assert_eq!(cpu64.regs.read(Some(7)), 0x1_2345_6789);
}

#[test]
fn arithmetic_wraps_at_the_register_width() {
    assert_eq!(alu(OpecodeKind::OP_ADD, 0xffff_ffff, 1, Isa::Rv32), 0);
    assert_eq!(alu(OpecodeKind::OP_ADD, 0xffff_ffff, 1, Isa::Rv64), 0x1_0000_0000);
    assert_eq!(alu(OpecodeKind::OP_ADD, u64::MAX, 2, Isa::Rv64), 1);
    assert_eq!(alu(OpecodeKind::OP_ADDI, 5, (-7i64) as u64, Isa::Rv64), (-2i64) as u64);
    assert_eq!(alu(OpecodeKind::OP_ADDI, 5, (-7i64) as u64, Isa::Rv32), 0xffff_fffe);
    assert_eq!(alu(OpecodeKind::OP_SUB, 0, 1, Isa::Rv32), 0xffff_ffff);
    assert_eq!(alu(OpecodeKind::OP_SUB, 0, 1, Isa::Rv64), u64::MAX);
    assert_eq!(alu(OpecodeKind::OP_SUB, 12, 5, Isa::Rv64), 7);
}

#[test]
fn comparisons_are_signed_or_unsigned_per_mnemonic() {
    assert_eq!(alu(OpecodeKind::OP_SLT, 0xffff_ffff, 1, Isa::Rv32), 1);
    assert_eq!(alu(OpecodeKind::OP_SLTU, 0xffff_ffff, 1, Isa::Rv32), 0);
    assert_eq!(alu(OpecodeKind::OP_SLT, 0xffff_ffff, 1, Isa::Rv64), 0);
    assert_eq!(alu(OpecodeKind::OP_SLT, u64::MAX, 1, Isa::Rv64), 1);
    assert_eq!(alu(OpecodeKind::OP_SLTI, 3, (-1i64) as u64, Isa::Rv64), 0);
    assert_eq!(alu(OpecodeKind::OP_SLTIU, 3, (-1i64) as u64, Isa::Rv64), 1);
    assert_eq!(alu(OpecodeKind::OP_SLTIU, 3, (-1i64) as u64, Isa::Rv32), 1);
}

#[test]
fn logic_operations() {
    assert_eq!(alu(OpecodeKind::OP_XOR, 0b1100, 0b1010, Isa::Rv64), 0b0110);
    assert_eq!(alu(OpecodeKind::OP_OR, 0b1100, 0b1010, Isa::Rv64), 0b1110);
    assert_eq!(alu(OpecodeKind::OP_AND, 0b1100, 0b1010, Isa::Rv64), 0b1000);
    assert_eq!(alu(OpecodeKind::OP_XORI, 0xff, (-1i64) as u64, Isa::Rv32), 0xffff_ff00);
    assert_eq!(alu(OpecodeKind::OP_ANDI, 0xabcd, 0xff, Isa::Rv32), 0xcd);
    assert_eq!(alu(OpecodeKind::OP_ORI, 0xab00, 0xcd, Isa::Rv32), 0xabcd);
}

#[test]
fn shift_amounts_are_masked_to_the_register_width() {
    assert_eq!(alu(OpecodeKind::OP_SLL, 1, 31, Isa::Rv32), 0x8000_0000);
    assert_eq!(alu(OpecodeKind::OP_SLL, 1, 33, Isa::Rv32), 2);
    assert_eq!(alu(OpecodeKind::OP_SLL, 1, 33, Isa::Rv64), 0x2_0000_0000);
    assert_eq!(alu(OpecodeKind::OP_SLL, 1, 65, Isa::Rv64), 2);
    assert_eq!(alu(OpecodeKind::OP_SLL, 3, 31, Isa::Rv32), 0x8000_0000);
    assert_eq!(alu(OpecodeKind::OP_SRL, 0x8000_0000, 4, Isa::Rv32), 0x0800_0000);
    assert_eq!(alu(OpecodeKind::OP_SRA, 0x8000_0000, 4, Isa::Rv32), 0xf800_0000);
    assert_eq!(alu(OpecodeKind::OP_SRA, 0x8000_0000, 4, Isa::Rv64), 0x0800_0000);
    assert_eq!(alu(OpecodeKind::OP_SRA, 0x8000_0000_0000_0000, 63, Isa::Rv64), u64::MAX);
    assert_eq!(alu(OpecodeKind::OP_SRAI, 0x4000_0000, 30, Isa::Rv32), 1);
    assert_eq!(alu(OpecodeKind::OP_SRLI, u64::MAX, 63, Isa::Rv64), 1);
}

#[test]
fn word_operations_sign_extend_their_32_bit_result() {
    assert_eq!(alu(OpecodeKind::OP_ADDW, 0x7fff_ffff, 1, Isa::Rv64), 0xffff_ffff_8000_0000);
    assert_eq!(alu(OpecodeKind::OP_ADDW, 0x1_0000_0001, 2, Isa::Rv64), 3);
    assert_eq!(alu(OpecodeKind::OP_ADDIW, 0, (-1i64) as u64, Isa::Rv64), u64::MAX);
    assert_eq!(alu(OpecodeKind::OP_SUBW, 0, 1, Isa::Rv64), u64::MAX);
    assert_eq!(alu(OpecodeKind::OP_SLLW, 1, 31, Isa::Rv64), 0xffff_ffff_8000_0000);
    assert_eq!(alu(OpecodeKind::OP_SLLIW, 1, 32, Isa::Rv64), 1);
    assert_eq!(alu(OpecodeKind::OP_SRLW, 0xffff_ffff_8000_0000, 31, Isa::Rv64), 1);
    assert_eq!(alu(OpecodeKind::OP_SRLIW, 0x8000_0000, 0, Isa::Rv64), 0xffff_ffff_8000_0000);
    assert_eq!(alu(OpecodeKind::OP_SRAW, 0x8000_0000, 31, Isa::Rv64), u64::MAX);
    assert_eq!(alu(OpecodeKind::OP_SRAIW, 0x4000_0000, 30, Isa::Rv64), 1);

    // addw x5,x6,x7 through the executor
    let mut cpu = cpu(Isa::Rv64);
    cpu.regs.write(Some(6), 0x1234_5678_7fff_ffff);
    cpu.regs.write(Some(7), 1);
    exe_inst(&reg_op(OpecodeKind::OP_ADDW, 5, 6, 7), &mut cpu).unwrap();
    let result = cpu.regs.read(Some(5));
    assert_eq!(result, 0xffff_ffff_8000_0000);
    assert_eq!(result, (result as u32 as i32 as i64) as u64);
}

#[test]
fn branch_conditions() {
    assert!(taken(OpecodeKind::OP_BEQ, 5, 5, Isa::Rv64));
    assert!(!taken(OpecodeKind::OP_BEQ, 5, 6, Isa::Rv64));
    assert!(taken(OpecodeKind::OP_BNE, 5, 6, Isa::Rv64));
    assert!(taken(OpecodeKind::OP_BLT, u64::MAX, 0, Isa::Rv64));
    assert!(!taken(OpecodeKind::OP_BLTU, u64::MAX, 0, Isa::Rv64));
    assert!(taken(OpecodeKind::OP_BGE, 0, u64::MAX, Isa::Rv64));
    assert!(taken(OpecodeKind::OP_BGEU, u64::MAX, 0, Isa::Rv64));
    assert!(taken(OpecodeKind::OP_BLT, 0xffff_ffff, 0, Isa::Rv32));
    assert!(!taken(OpecodeKind::OP_BLT, 0xffff_ffff, 0, Isa::Rv64));
    assert!(taken(OpecodeKind::OP_BGE, 7, 7, Isa::Rv32));
}

#[test]
fn branches_and_jumps_set_the_pc() {
    let mut cpu = cpu(Isa::Rv32);
    cpu.pc = DRAM + 0x100;
    cpu.regs.write(Some(1), 4);
    cpu.regs.write(Some(2), 4);
    let beq = Instruction { opc: OpecodeKind::OP_BEQ, rd: None, rs1: Some(1), rs2: Some(2), imm: Some(-8), is_compressed: false };
    exe_inst(&beq, &mut cpu).unwrap();
    assert_eq!(cpu.pc, DRAM + 0xf8);
    cpu.regs.write(Some(2), 5);
    exe_inst(&beq, &mut cpu).unwrap();
    assert_eq!(cpu.pc, DRAM + 0xfc);

    let jal = Instruction { opc: OpecodeKind::OP_JAL, rd: Some(1), rs1: None, rs2: None, imm: Some(2048), is_compressed: false };
    exe_inst(&jal, &mut cpu).unwrap();
    assert_eq!(cpu.pc, DRAM + 0xfc + 2048);
    assert_eq!(cpu.regs.read(Some(1)), DRAM + 0x100);

    // jalr clears bit 0 of the target
    cpu.regs.write(Some(2), 0x8000_0100);
    let before = cpu.pc;
    exe_inst(&imm_op(OpecodeKind::OP_JALR, 1, 2, 3), &mut cpu).unwrap();
    assert_eq!(cpu.pc, 0x8000_0102);
    assert_eq!(cpu.regs.read(Some(1)), before + 4);
}

#[test]
fn a_jump_to_itself_stays_where_it_is() {
    // jal x0, 0
    let mut emu = emulator(Isa::Rv32, &[0x0000006f]);
    assert_eq!(emu.step(), Event::Running);
    assert_eq!(emu.cpu.pc, DRAM);
    assert_eq!(emu.step(), Event::Running);
    assert_eq!(emu.cpu.pc, DRAM);
}

#[test]
fn the_pc_wraps_at_the_register_width() {
    let mut cpu32 = cpu(Isa::Rv32);
    cpu32.pc = 0xffff_fffc;
    exe_inst(&imm_op(OpecodeKind::OP_ADDI, 1, 0, 1), &mut cpu32).unwrap();
    assert_eq!(cpu32.pc, 0);
    cpu32.pc = 0xffff_fffe;
    exe_cinst(
        &Instruction { opc: OpecodeKind::OP_C_NOP, rd: None, rs1: None, rs2: None, imm: Some(0), is_compressed: true },
        &mut cpu32,
    )
    .unwrap();
    assert_eq!(cpu32.pc, 0);

    let mut cpu64 = cpu(Isa::Rv64);
    cpu64.pc = 0xffff_ffff_ffff_fffc;
    exe_inst(&imm_op(OpecodeKind::OP_ADDI, 1, 0, 1), &mut cpu64).unwrap();
    assert_eq!(cpu64.pc, 0);
    cpu64.pc = 0xffff_fffc;
    exe_inst(&imm_op(OpecodeKind::OP_ADDI, 1, 0, 1), &mut cpu64).unwrap();
    assert_eq!(cpu64.pc, 0x1_0000_0000);

    cpu64.pc = 4;
    cpu64.add2pc(-8);
    assert_eq!(cpu64.pc, 0xffff_ffff_ffff_fffc);
    cpu32.pc = 4;
    cpu32.add2pc(-8);
    assert_eq!(cpu32.pc, 0xffff_fffc);
    cpu32.update_pc(0x1_2345_6788);
    assert_eq!(cpu32.pc, 0x2345_6788);
}

#[test]
fn upper_immediates() {
    let mut cpu = cpu(Isa::Rv64);
    let lui = Instruction { opc: OpecodeKind::OP_LUI, rd: Some(5), rs1: None, rs2: None, imm: Some(i32::MIN), is_compressed: false };
    exe_inst(&lui, &mut cpu).unwrap();
    assert_eq!(cpu.regs.read(Some(5)), 0xffff_ffff_8000_0000);
    let auipc = Instruction { opc: OpecodeKind::OP_AUIPC, rd: Some(6), rs1: None, rs2: None, imm: Some(0x1000), is_compressed: false };
    exe_inst(&auipc, &mut cpu).unwrap();
    assert_eq!(cpu.regs.read(Some(6)), DRAM + 4 + 0x1000);

    let mut cpu32 = cpu32();
    exe_inst(&lui, &mut cpu32).unwrap();
    assert_eq!(cpu32.regs.read(Some(5)), 0x8000_0000);
}

fn cpu32() -> CPU {
    cpu(Isa::Rv32)
}

#[test]
fn loads_extend_by_mnemonic() {
    let mut cpu = cpu(Isa::Rv64);
    cpu.bus.store64(DRAM + 0x100, 0x8877_6655_c433_2281).unwrap();
    cpu.regs.write(Some(1), DRAM + 0x100);
    exe_inst(&imm_op(OpecodeKind::OP_LB, 5, 1, 0), &mut cpu).unwrap();
    assert_eq!(cpu.regs.read(Some(5)), 0xffff_ffff_ffff_ff81);
    exe_inst(&imm_op(OpecodeKind::OP_LBU, 5, 1, 0), &mut cpu).unwrap();
    assert_eq!(cpu.regs.read(Some(5)), 0x81);
    exe_inst(&imm_op(OpecodeKind::OP_LH, 5, 1, 0), &mut cpu).unwrap();
    assert_eq!(cpu.regs.read(Some(5)), 0x2281);
    exe_inst(&imm_op(OpecodeKind::OP_LH, 5, 1, 2), &mut cpu).unwrap();
    assert_eq!(cpu.regs.read(Some(5)), 0xffff_ffff_ffff_c433);
    exe_inst(&imm_op(OpecodeKind::OP_LHU, 5, 1, 2), &mut cpu).unwrap();
    assert_eq!(cpu.regs.read(Some(5)), 0xc433);
    exe_inst(&imm_op(OpecodeKind::OP_LW, 5, 1, 0), &mut cpu).unwrap();
    assert_eq!(cpu.regs.read(Some(5)), 0xffff_ffff_c433_2281);
    exe_inst(&imm_op(OpecodeKind::OP_LWU, 5, 1, 0), &mut cpu).unwrap();
    assert_eq!(cpu.regs.read(Some(5)), 0xc433_2281);
    exe_inst(&imm_op(OpecodeKind::OP_LD, 5, 1, 0), &mut cpu).unwrap();
    assert_eq!(cpu.regs.read(Some(5)), 0x8877_6655_c433_2281);
    // negative offset
    cpu.regs.write(Some(1), DRAM + 0x104);
    exe_inst(&imm_op(OpecodeKind::OP_LW, 5, 1, -4), &mut cpu).unwrap();
    assert_eq!(cpu.regs.read(Some(5)), 0xffff_ffff_c433_2281);
}

#[test]
fn stores_truncate_to_their_width() {
    let mut cpu = cpu(Isa::Rv64);
    cpu.regs.write(Some(1), DRAM + 0x200);
    cpu.regs.write(Some(2), 0x1122_3344_5566_7788);
    exe_inst(&store_op(OpecodeKind::OP_SD, 1, 2, 0), &mut cpu).unwrap();
    assert_eq!(cpu.bus.load64(DRAM + 0x200), Ok(0x1122_3344_5566_7788));
    exe_inst(&store_op(OpecodeKind::OP_SW, 1, 2, 8), &mut cpu).unwrap();
    assert_eq!(cpu.bus.load64(DRAM + 0x208), Ok(0x5566_7788));
    exe_inst(&store_op(OpecodeKind::OP_SH, 1, 2, 16), &mut cpu).unwrap();
    assert_eq!(cpu.bus.load64(DRAM + 0x210), Ok(0x7788));
    exe_inst(&store_op(OpecodeKind::OP_SB, 1, 2, 24), &mut cpu).unwrap();
    assert_eq!(cpu.bus.load64(DRAM + 0x218), Ok(0x88));
}

#[test]
fn misaligned_accesses_fault_at_each_size() {
    let mut cpu = cpu(Isa::Rv64);
    cpu.regs.write(Some(1), DRAM + 0x100);
    let load = |opc, off| imm_op(opc, 5, 1, off);
    let misaligned_load = |addr| Err(Fault { addr: Some(addr), cause: TrapCause::LoadAddressMisaligned });
    let misaligned_store = |addr| Err(Fault { addr: Some(addr), cause: TrapCause::StoreAMOAddressMisaligned });
    assert_eq!(exe_inst(&load(OpecodeKind::OP_LB, 1), &mut cpu), Ok(()));
    assert_eq!(exe_inst(&load(OpecodeKind::OP_LH, 1), &mut cpu), misaligned_load(DRAM + 0x101));
    assert_eq!(exe_inst(&load(OpecodeKind::OP_LHU, 3), &mut cpu), misaligned_load(DRAM + 0x103));
    assert_eq!(exe_inst(&load(OpecodeKind::OP_LW, 2), &mut cpu), misaligned_load(DRAM + 0x102));
    assert_eq!(exe_inst(&load(OpecodeKind::OP_LWU, 1), &mut cpu), misaligned_load(DRAM + 0x101));
    assert_eq!(exe_inst(&load(OpecodeKind::OP_LD, 4), &mut cpu), misaligned_load(DRAM + 0x104));
    assert_eq!(exe_inst(&store_op(OpecodeKind::OP_SB, 1, 2, 1), &mut cpu), Ok(()));
    assert_eq!(exe_inst(&store_op(OpecodeKind::OP_SH, 1, 2, 1), &mut cpu), misaligned_store(DRAM + 0x101));
    assert_eq!(exe_inst(&store_op(OpecodeKind::OP_SW, 1, 2, 2), &mut cpu), misaligned_store(DRAM + 0x102));
    assert_eq!(exe_inst(&store_op(OpecodeKind::OP_SD, 1, 2, 4), &mut cpu), misaligned_store(DRAM + 0x104));
    assert_eq!(exe_inst(&atomic(OpecodeKind::OP_LR_W, 5, 1, None), &mut cpu), Ok(()));
    cpu.regs.write(Some(1), DRAM + 0x102);
    assert_eq!(exe_inst(&atomic(OpecodeKind::OP_LR_W, 5, 1, None), &mut cpu), misaligned_load(DRAM + 0x102));
    assert_eq!(exe_inst(&atomic(OpecodeKind::OP_AMOADD_W, 5, 1, Some(2)), &mut cpu), misaligned_store(DRAM + 0x102));
}

#[test]
fn a_faulting_instruction_leaves_registers_and_pc() {
    let mut cpu = cpu(Isa::Rv32);
    cpu.regs.write(Some(1), 0x4000_0000);
    cpu.regs.write(Some(5), 99);
    let pc = cpu.pc;
    assert_eq!(
        imm_op(OpecodeKind::OP_LW, 5, 1, 0).execution(&mut cpu),
        Err(Fault { addr: Some(0x4000_0000), cause: TrapCause::LoadAccessFault })
    );
    assert_eq!(cpu.regs.read(Some(5)), 99);
    assert_eq!(cpu.pc, pc);
    assert_eq!(
        store_op(OpecodeKind::OP_SW, 1, 5, 0).execution(&mut cpu),
        Err(Fault { addr: Some(0x4000_0000), cause: TrapCause::StoreAMOAccessFault })
    );
    assert_eq!(cpu.pc, pc);
}

#[test]
fn ecall_cause_encodes_the_calling_privilege() {
    for (priv_lv, cause) in [
        (PrivilegedLevel::User, TrapCause::UmodeEcall),
        (PrivilegedLevel::Supervisor, TrapCause::SmodeEcall),
        (PrivilegedLevel::Machine, TrapCause::MmodeEcall),
    ] {
        let mut cpu = cpu(Isa::Rv32);
        cpu.priv_lv = priv_lv;
        assert_eq!(exe_inst(&bare(OpecodeKind::OP_ECALL), &mut cpu), Err(Fault { addr: None, cause }));
    }
    assert_eq!(TrapCause::UmodeEcall.code(), 8);
    assert_eq!(TrapCause::SmodeEcall.code(), 9);
    assert_eq!(TrapCause::MmodeEcall.code(), 11);
    let mut cpu = cpu(Isa::Rv32);
    assert_eq!(
        exe_inst(&bare(OpecodeKind::OP_EBREAK), &mut cpu),
        Err(Fault { addr: None, cause: TrapCause::Breakpoint })
    );
    assert_eq!(exe_inst(&bare(OpecodeKind::OP_FENCE), &mut cpu), Ok(()));
    assert_eq!(cpu.pc, DRAM + 4);
}

#[test]
fn atomic_memory_operations() {
    assert_eq!(amo(OpecodeKind::OP_AMOSWAP_W, 1, 2), 2);
    assert_eq!(amo(OpecodeKind::OP_AMOADD_W, 1, 2), 3);
    assert_eq!(amo(OpecodeKind::OP_AMOXOR_W, 0b1100, 0b1010), 0b0110);
    assert_eq!(amo(OpecodeKind::OP_AMOAND_W, 0b1100, 0b1010), 0b1000);
    assert_eq!(amo(OpecodeKind::OP_AMOOR_W, 0b1100, 0b1010), 0b1110);
    assert_eq!(amo(OpecodeKind::OP_AMOMIN_W, 0xffff_ffff, 1), 0xffff_ffff);
    assert_eq!(amo(OpecodeKind::OP_AMOMAX_W, 0xffff_ffff, 1), 1);
    assert_eq!(amo(OpecodeKind::OP_AMOMINU_W, 0xffff_ffff, 1), 1);
    assert_eq!(amo(OpecodeKind::OP_AMOMAXU_W, 0xffff_ffff, 1), 0xffff_ffff);

    let mut cpu = cpu(Isa::Rv32);
    cpu.bus.store32(DRAM + 0x40, 40).unwrap();
    cpu.regs.write(Some(1), DRAM + 0x40);
    cpu.regs.write(Some(2), 2);
    exe_inst(&atomic(OpecodeKind::OP_AMOADD_W, 5, 1, Some(2)), &mut cpu).unwrap();
    assert_eq!(cpu.regs.read(Some(5)), 40);
    assert_eq!(cpu.bus.load_u32(DRAM + 0x40), Ok(42));
    cpu.regs.write(Some(2), 0xffff_fff0);
    exe_inst(&atomic(OpecodeKind::OP_AMOMAX_W, 5, 1, Some(2)), &mut cpu).unwrap();
    assert_eq!(cpu.regs.read(Some(5)), 42);
    assert_eq!(cpu.bus.load_u32(DRAM + 0x40), Ok(42));
    exe_inst(&atomic(OpecodeKind::OP_AMOMAXU_W, 5, 1, Some(2)), &mut cpu).unwrap();
    assert_eq!(cpu.bus.load_u32(DRAM + 0x40), Ok(0xffff_fff0));
    assert_eq!(cpu.pc, DRAM + 12);
}

#[test]
fn double_word_atomics() {
    assert_eq!(amo(OpecodeKind::OP_AMOADD_D, u64::MAX, 2), 1);
    assert_eq!(amo(OpecodeKind::OP_AMOSWAP_D, 1, 2), 2);
    assert_eq!(amo(OpecodeKind::OP_AMOMIN_D, u64::MAX, 1), u64::MAX);
    assert_eq!(amo(OpecodeKind::OP_AMOMAX_D, u64::MAX, 1), 1);
    assert_eq!(amo(OpecodeKind::OP_AMOMINU_D, u64::MAX, 1), 1);
    assert_eq!(amo(OpecodeKind::OP_AMOMAXU_D, u64::MAX, 1), u64::MAX);
    // the word forms compare the low 32 bits only
    assert_eq!(amo(OpecodeKind::OP_AMOMAXU_W, 0x1_0000_0000, 1), 1);
    assert_eq!(amo(OpecodeKind::OP_AMOMAXU_D, 0x1_0000_0000, 1), 0x1_0000_0000);

    let mut cpu = cpu(Isa::Rv64);
    cpu.bus.store64(DRAM + 0x40, 0x1_0000_0000).unwrap();
    cpu.regs.write(Some(1), DRAM + 0x40);
    cpu.regs.write(Some(2), 0x2_0000_0005);
    exe_inst(&atomic(OpecodeKind::OP_AMOADD_D, 5, 1, Some(2)), &mut cpu).unwrap();
    assert_eq!(cpu.regs.read(Some(5)), 0x1_0000_0000);
    assert_eq!(cpu.bus.load64(DRAM + 0x40), Ok(0x3_0000_0005));
    // the word form reads and writes the low word and sign-extends what it read
    cpu.bus.store64(DRAM + 0x40, 0x7777_7777_8000_0000).unwrap();
    exe_inst(&atomic(OpecodeKind::OP_AMOADD_W, 5, 1, Some(2)), &mut cpu).unwrap();
    assert_eq!(cpu.regs.read(Some(5)), 0xffff_ffff_8000_0000);
    assert_eq!(cpu.bus.load64(DRAM + 0x40), Ok(0x7777_7777_8000_0005));

    exe_inst(&atomic(OpecodeKind::OP_LR_D, 5, 1, None), &mut cpu).unwrap();
    assert_eq!(cpu.regs.read(Some(5)), 0x7777_7777_8000_0005);
    exe_inst(&atomic(OpecodeKind::OP_SC_D, 6, 1, Some(2)), &mut cpu).unwrap();
    assert_eq!(cpu.regs.read(Some(6)), 0);
    assert_eq!(cpu.bus.load64(DRAM + 0x40), Ok(0x2_0000_0005));
    cpu.regs.write(Some(1), DRAM + 0x44);
    assert_eq!(
        exe_inst(&atomic(OpecodeKind::OP_LR_D, 5, 1, None), &mut cpu),
        Err(Fault { addr: Some(DRAM + 0x44), cause: TrapCause::LoadAddressMisaligned })
    );
}

#[test]
fn csr_set_and_clear() {
    let mut cpu = cpu(Isa::Rv32);
    cpu.csrs.write(CSRname::mscratch.wrap(), 0b1100);
    cpu.regs.write(Some(6), 0b1010);
    zicsr_extension::exec(&csr_op(OpecodeKind::OP_CSRRS, 5, 6, 0x340), &mut cpu).unwrap();
    assert_eq!(cpu.regs.read(Some(5)), 0b1100);
    assert_eq!(cpu.csrs.read(CSRname::mscratch.wrap()), 0b1110);
    zicsr_extension::exec(&csr_op(OpecodeKind::OP_CSRRC, 5, 6, 0x340), &mut cpu).unwrap();
    assert_eq!(cpu.regs.read(Some(5)), 0b1110);
    assert_eq!(cpu.csrs.read(CSRname::mscratch.wrap()), 0b0100);
    // the immediate forms use the field itself
    zicsr_extension::exec(&csr_op(OpecodeKind::OP_CSRRWI, 5, 17, 0x340), &mut cpu).unwrap();
    assert_eq!(cpu.csrs.read(CSRname::mscratch.wrap()), 17);
    zicsr_extension::exec(&csr_op(OpecodeKind::OP_CSRRSI, 5, 2, 0x340), &mut cpu).unwrap();
    assert_eq!(cpu.csrs.read(CSRname::mscratch.wrap()), 19);
    zicsr_extension::exec(&csr_op(OpecodeKind::OP_CSRRCI, 5, 1, 0x340), &mut cpu).unwrap();
    assert_eq!(cpu.csrs.read(CSRname::mscratch.wrap()), 18);
    assert_eq!(cpu.regs.read(Some(5)), 19);
    assert_eq!(cpu.pc, DRAM + 20);
}

#[test]
fn csr_access_is_checked_against_privilege() {
    let illegal = Err(Fault { addr: None, cause: TrapCause::IllegalInst });
    let mut cpu = cpu(Isa::Rv32);
    cpu.priv_lv = PrivilegedLevel::User;
    assert_eq!(exe_inst(&csr_op(OpecodeKind::OP_CSRRS, 5, 0, 0x300), &mut cpu), illegal);
    assert_eq!(exe_inst(&csr_op(OpecodeKind::OP_CSRRS, 5, 0, 0x100), &mut cpu), illegal);
    assert_eq!(exe_inst(&csr_op(OpecodeKind::OP_CSRRS, 5, 0, 0x000), &mut cpu), Ok(()));
    cpu.priv_lv = PrivilegedLevel::Supervisor;
    assert_eq!(exe_inst(&csr_op(OpecodeKind::OP_CSRRS, 5, 0, 0x300), &mut cpu), illegal);
    assert_eq!(exe_inst(&csr_op(OpecodeKind::OP_CSRRS, 5, 0, 0x100), &mut cpu), Ok(()));
    // satp in supervisor mode while mstatus.TVM is set
    assert_eq!(exe_inst(&csr_op(OpecodeKind::OP_CSRRS, 5, 0, 0x180), &mut cpu), Ok(()));
    cpu.csrs.write(CSRname::mstatus.wrap(), 1 << 20);
    assert_eq!(exe_inst(&csr_op(OpecodeKind::OP_CSRRS, 5, 0, 0x180), &mut cpu), illegal);
    cpu.priv_lv = PrivilegedLevel::Machine;
    assert_eq!(exe_inst(&csr_op(OpecodeKind::OP_CSRRS, 5, 0, 0x180), &mut cpu), Ok(()));
    // an address above the CSR space
    assert_eq!(cpu.csrs.check_accessible(PrivilegedLevel::Machine, 4096, false), illegal);
}

#[test]
fn read_only_csrs_refuse_writes() {
    let illegal = Err(Fault { addr: None, cause: TrapCause::IllegalInst });
    let mut cpu = cpu(Isa::Rv32);
    // cycle (0xc00) can be read but not written
    assert_eq!(exe_inst(&csr_op(OpecodeKind::OP_CSRRS, 5, 0, 0xc00), &mut cpu), Ok(()));
    assert_eq!(exe_inst(&csr_op(OpecodeKind::OP_CSRRW, 5, 0, 0xc00), &mut cpu), illegal);
    assert_eq!(exe_inst(&csr_op(OpecodeKind::OP_CSRRS, 5, 1, 0xc00), &mut cpu), illegal);
    assert_eq!(exe_inst(&csr_op(OpecodeKind::OP_CSRRCI, 5, 1, 0xf14), &mut cpu), illegal);
    // misa ignores writes silently
    cpu.regs.write(Some(6), 0);
    assert_eq!(exe_inst(&csr_op(OpecodeKind::OP_CSRRW, 5, 6, 0x301), &mut cpu), Ok(()));
    assert_eq!(cpu.regs.read(Some(5)), 0x4014_1105);
    assert_eq!(cpu.csrs.read(CSRname::misa.wrap()), 0x4014_1105);
    cpu.csrs.write(Some(0xc00), 5);
    assert_eq!(cpu.csrs.read(Some(0xc00)), 0);

    let cpu64 = cpu64();
    assert_eq!(cpu64.csrs.read(CSRname::misa.wrap()), 0x8000_0000_0014_1105);
}

fn cpu64() -> CPU {
    cpu(Isa::Rv64)
}

#[test]
fn counters_are_gated_by_the_counter_enables() {
    let illegal = Err(Fault { addr: None, cause: TrapCause::IllegalInst });
    let mut cpu = cpu(Isa::Rv32);
    cpu.priv_lv = PrivilegedLevel::Supervisor;
    assert_eq!(exe_inst(&csr_op(OpecodeKind::OP_CSRRS, 5, 0, 0xc01), &mut cpu), illegal);
    cpu.csrs.write(CSRname::mcounteren.wrap(), 0b010);
    assert_eq!(exe_inst(&csr_op(OpecodeKind::OP_CSRRS, 5, 0, 0xc01), &mut cpu), Ok(()));
    assert_eq!(exe_inst(&csr_op(OpecodeKind::OP_CSRRS, 5, 0, 0xc00), &mut cpu), illegal);
    cpu.priv_lv = PrivilegedLevel::User;
    assert_eq!(exe_inst(&csr_op(OpecodeKind::OP_CSRRS, 5, 0, 0xc01), &mut cpu), illegal);
    cpu.csrs.write(CSRname::scounteren.wrap(), 0b010);
    assert_eq!(exe_inst(&csr_op(OpecodeKind::OP_CSRRS, 5, 0, 0xc01), &mut cpu), Ok(()));
}

#[test]
fn compressed_instructions_run_as_their_expansion() {
    let c = |opc, rd: Option<usize>, rs1: Option<usize>, rs2: Option<usize>, imm: Option<i32>| Instruction {
        opc,
        rd,
        rs1,
        rs2,
        imm,
        is_compressed: true,
    };
    assert_eq!(
        expand(&c(OpecodeKind::OP_C_LI, Some(10), None, None, Some(42))),
        imm_op(OpecodeKind::OP_ADDI, 10, 0, 42)
    );
    assert_eq!(
        expand(&c(OpecodeKind::OP_C_MV, Some(5), None, Some(6), None)),
        reg_op(OpecodeKind::OP_ADD, 5, 0, 6)
    );
    assert_eq!(
        expand(&c(OpecodeKind::OP_C_JALR, None, Some(5), None, None)),
        imm_op(OpecodeKind::OP_JALR, 1, 5, 0)
    );
    assert_eq!(
        expand(&c(OpecodeKind::OP_C_SWSP, None, None, Some(5), Some(252))),
        store_op(OpecodeKind::OP_SW, 2, 5, 252)
    );

    let mut cpu = cpu(Isa::Rv64);
    cpu.regs.write(Some(2), DRAM + 0x1000);
    exe_cinst(&c(OpecodeKind::OP_C_ADDI16SP, None, Some(2), None, Some(-512)), &mut cpu).unwrap();
    assert_eq!(cpu.regs.read(Some(2)), DRAM + 0x1000 - 512);
    exe_cinst(&c(OpecodeKind::OP_C_ADDI4SPN, Some(8), None, None, Some(1020)), &mut cpu).unwrap();
    assert_eq!(cpu.regs.read(Some(8)), DRAM + 0x1000 - 512 + 1020);
    cpu.regs.write(Some(5), 0x1122_3344_5566_7788);
    exe_cinst(&c(OpecodeKind::OP_C_SDSP, None, None, Some(5), Some(8)), &mut cpu).unwrap();
    exe_cinst(&c(OpecodeKind::OP_C_LDSP, Some(9), None, None, Some(8)), &mut cpu).unwrap();
    assert_eq!(cpu.regs.read(Some(9)), 0x1122_3344_5566_7788);
    exe_cinst(&c(OpecodeKind::OP_C_LWSP, Some(9), None, None, Some(8)), &mut cpu).unwrap();
    assert_eq!(cpu.regs.read(Some(9)), 0x5566_7788);
    exe_cinst(&c(OpecodeKind::OP_C_ADDIW, Some(9), Some(9), None, Some(-1)), &mut cpu).unwrap();
    assert_eq!(cpu.regs.read(Some(9)), 0x5566_7787);
    exe_cinst(&c(OpecodeKind::OP_C_SRAI, Some(9), Some(9), None, Some(4)), &mut cpu).unwrap();
    assert_eq!(cpu.regs.read(Some(9)), 0x0556_6778);
    assert_eq!(cpu.pc, DRAM + 14);

    // c.jal links to the next half-word, c.jr clears bit 0
    let pc = cpu.pc;
    exe_cinst(&c(OpecodeKind::OP_C_JAL, None, None, None, Some(100)), &mut cpu).unwrap();
    assert_eq!(cpu.pc, pc + 100);
    assert_eq!(cpu.regs.read(Some(1)), pc + 2);
    cpu.regs.write(Some(5), DRAM + 0x201);
    exe_cinst(&c(OpecodeKind::OP_C_JR, None, Some(5), None, None), &mut cpu).unwrap();
    assert_eq!(cpu.pc, DRAM + 0x200);
    cpu.regs.write(Some(8), 0);
    exe_cinst(&c(OpecodeKind::OP_C_BEQZ, None, Some(8), None, Some(-256)), &mut cpu).unwrap();
    assert_eq!(cpu.pc, DRAM + 0x100);
    exe_cinst(&c(OpecodeKind::OP_C_BNEZ, None, Some(8), None, Some(-256)), &mut cpu).unwrap();
    assert_eq!(cpu.pc, DRAM + 0x102);
    assert_eq!(
        exe_cinst(&c(OpecodeKind::OP_C_EBREAK, None, None, None, None), &mut cpu),
        Err(Fault { addr: None, cause: TrapCause::Breakpoint })
    );
}

#[test]
fn compressed_and_full_instructions_mix_in_a_program() {
    // c.li x10,-5 ; c.addi x10,7 ; addi x11,x10,1 (at a 2-byte boundary)
    let program = [0x051d_556d, 0x0015_0593];
    let mut emu = emulator(Isa::Rv32, &program);
    assert_eq!(emu.step(), Event::Running);
    assert_eq!(emu.cpu.pc, DRAM + 2);
    assert_eq!(emu.cpu.regs.read(Some(10)), 0xffff_fffb);
    assert_eq!(emu.step(), Event::Running);
    assert_eq!(emu.cpu.regs.read(Some(10)), 2);
    assert_eq!(emu.step(), Event::Running);
    assert_eq!(emu.cpu.regs.read(Some(11)), 3);
    assert_eq!(emu.cpu.pc, DRAM + 8);
}

#[test]
fn illegal_instruction_traps_with_the_encoding() {
    let mut emu = emulator(Isa::Rv32, &[0xffff_ffff]);
    emu.cpu.csrs.write(CSRname::mtvec.wrap(), 0x8000_0100);
    assert_eq!(emu.step(), Event::Running);
    assert_eq!(emu.cpu.csrs.read(CSRname::mcause.wrap()), 2);
    assert_eq!(emu.cpu.csrs.read(CSRname::mtval.wrap()), 0xffff_ffff);
    assert_eq!(emu.cpu.csrs.read(CSRname::mepc.wrap()), DRAM);
    assert_eq!(emu.cpu.pc, 0x8000_0100);
}

#[test]
fn mret_to_the_reserved_privilege_halts_the_core() {
    // mret
    let mut emu = emulator(Isa::Rv32, &[0x30200073]);
    emu.cpu.csrs.write(CSRname::mstatus.wrap(), 0b10 << 11);
    let inst = bare(OpecodeKind::OP_MRET);
    assert!(!priv_extension::returns_ok(&inst, &emu.cpu));
    assert!(!emu.cpu.can_execute(&inst));
    assert_eq!(emu.step(), Event::Halted(Stop::ReservedPrivilege));
    assert_eq!(emu.cpu.pc, DRAM);
    assert_eq!(emu.cpu.priv_lv, PrivilegedLevel::Machine);
    emu.cpu.csrs.write(CSRname::mstatus.wrap(), 0b01 << 11);
    assert!(emu.cpu.can_execute(&inst));
}

#[test]
fn wfi_is_a_nop() {
    let mut emu = emulator(Isa::Rv64, &[0x10500073]);
    assert_eq!(emu.step(), Event::Running);
    assert_eq!(emu.cpu.pc, DRAM + 4);
    assert_eq!(base_i::class(OpecodeKind::OP_WFI), None);
}

#[test]
fn the_breakpoint_of_the_host_stops_the_run() {
    let mut emu = emulator(Isa::Rv32, &[0x00500093, 0x00700113]);
    emu.break_point = Some(DRAM + 8);
    assert_eq!(emu.step(), Event::Running);
    assert_eq!(emu.exit_code, None);
    assert_eq!(emu.step(), Event::BreakPoint);
    assert_eq!(emu.exit_code, Some(0));
}
