use riscv_emu::cpu::decode::inst_16::c_extension;
use riscv_emu::cpu::decode::inst_32::base_i::parse_opecode;
use riscv_emu::cpu::decode::inst_32::{a_extension, priv_extension, zicsr_extension};
use riscv_emu::cpu::decode::{Decode, DecodeUtil};
use riscv_emu::cpu::instruction::{Extensions, Instruction, OpecodeKind};
use riscv_emu::cpu::trap::{Fault, TrapCause};
use riscv_emu::Isa;

fn full(opc: OpecodeKind, rd: Option<usize>, rs1: Option<usize>, rs2: Option<usize>, imm: Option<i32>) -> Instruction {
    Instruction { opc, rd, rs1, rs2, imm, is_compressed: false }
}

fn half(opc: OpecodeKind, rd: Option<usize>, rs1: Option<usize>, rs2: Option<usize>, imm: Option<i32>) -> Instruction {
    Instruction { opc, rd, rs1, rs2, imm, is_compressed: true }
}

fn illegal(encoding: u64) -> Fault {
    Fault { addr: Some(encoding), cause: TrapCause::IllegalInst }
}

#[test]
fn opecode_parsing_test() {
    let mut test_inst: u32 = 0b00000000000000000000000000110111;
    assert!(matches!(parse_opecode(test_inst, Isa::Rv32).unwrap(), OpecodeKind::OP_LUI));

    test_inst = 0b00000000000000000000000000000011;
    assert!(matches!(parse_opecode(test_inst, Isa::Rv32).unwrap(), OpecodeKind::OP_LB));
    test_inst = 0b00000000000000000001000000000011;
    assert!(matches!(parse_opecode(test_inst, Isa::Rv32).unwrap(), OpecodeKind::OP_LH));
    test_inst = 0b00000000000000000000000000010011;
    assert!(matches!(parse_opecode(test_inst, Isa::Rv32).unwrap(), OpecodeKind::OP_ADDI));
    test_inst = 0b00000000000000000100000000110011;
    assert!(matches!(parse_opecode(test_inst, Isa::Rv32).unwrap(), OpecodeKind::OP_XOR));
    test_inst = 0b00000000000000000111000000110011;
    assert!(matches!(parse_opecode(test_inst, Isa::Rv32).unwrap(), OpecodeKind::OP_AND));
}

#[test]
fn decodes_register_and_immediate_forms() {
    assert_eq!(0x00500093u32.decode(Isa::Rv32), Ok(full(OpecodeKind::OP_ADDI, Some(1), Some(0), None, Some(5))));
    assert_eq!(0x002081b3u32.decode(Isa::Rv32), Ok(full(OpecodeKind::OP_ADD, Some(3), Some(1), Some(2), None)));
    assert_eq!(0xfff0a283u32.decode(Isa::Rv32), Ok(full(OpecodeKind::OP_LW, Some(5), Some(1), None, Some(-1))));
    assert_eq!(0x40335293u32.decode(Isa::Rv32), Ok(full(OpecodeKind::OP_SRAI, Some(5), Some(6), None, Some(3))));
    assert_eq!(0x003100e7u32.decode(Isa::Rv64), Ok(full(OpecodeKind::OP_JALR, Some(1), Some(2), None, Some(3))));
}

#[test]
fn decodes_store_branch_and_jump_offsets() {
    assert_eq!(0xfe20ae23u32.decode(Isa::Rv32), Ok(full(OpecodeKind::OP_SW, None, Some(1), Some(2), Some(-4))));
    assert_eq!(0xfe208ce3u32.decode(Isa::Rv32), Ok(full(OpecodeKind::OP_BEQ, None, Some(1), Some(2), Some(-8))));
    assert_eq!(0xffdff0efu32.decode(Isa::Rv32), Ok(full(OpecodeKind::OP_JAL, Some(1), None, None, Some(-4))));
    assert_eq!(0x001000efu32.decode(Isa::Rv32), Ok(full(OpecodeKind::OP_JAL, Some(1), None, None, Some(2048))));
}

#[test]
fn decodes_upper_immediates_in_place() {
    assert_eq!(0x800002b7u32.decode(Isa::Rv32), Ok(full(OpecodeKind::OP_LUI, Some(5), None, None, Some(i32::MIN))));
    assert_eq!(0x100000b7u32.decode(Isa::Rv64), Ok(full(OpecodeKind::OP_LUI, Some(1), None, None, Some(0x1000_0000))));
    assert_eq!(0x00001297u32.decode(Isa::Rv64), Ok(full(OpecodeKind::OP_AUIPC, Some(5), None, None, Some(0x1000))));
}

#[test]
fn rv64_only_encodings_are_illegal_on_rv32() {
    assert_eq!(0xfff3029bu32.decode(Isa::Rv64), Ok(full(OpecodeKind::OP_ADDIW, Some(5), Some(6), None, Some(-1))));
    assert_eq!(0xfff3029bu32.decode(Isa::Rv32), Err(illegal(0xfff3029b)));
    assert_eq!(0x007302bbu32.decode(Isa::Rv64), Ok(full(OpecodeKind::OP_ADDW, Some(5), Some(6), Some(7), None)));
    assert_eq!(0x007302bbu32.decode(Isa::Rv32), Err(illegal(0x007302bb)));
    assert_eq!(0x0080b283u32.decode(Isa::Rv64), Ok(full(OpecodeKind::OP_LD, Some(5), Some(1), None, Some(8))));
    assert_eq!(0x0080b283u32.decode(Isa::Rv32), Err(illegal(0x0080b283)));
    assert_eq!(0x0020b423u32.decode(Isa::Rv64), Ok(full(OpecodeKind::OP_SD, None, Some(1), Some(2), Some(8))));
    // a shift by 33 needs a 64-bit register
    assert_eq!(0x02131293u32.decode(Isa::Rv64), Ok(full(OpecodeKind::OP_SLLI, Some(5), Some(6), None, Some(33))));
    assert_eq!(0x02131293u32.decode(Isa::Rv32), Err(illegal(0x02131293)));
}

#[test]
fn decodes_system_instructions() {
    assert_eq!(0x00000073u32.decode(Isa::Rv32), Ok(full(OpecodeKind::OP_ECALL, None, None, None, None)));
    assert_eq!(0x00100073u32.decode(Isa::Rv32), Ok(full(OpecodeKind::OP_EBREAK, None, None, None, None)));
    assert_eq!(0x30200073u32.decode(Isa::Rv32), Ok(full(OpecodeKind::OP_MRET, None, None, None, None)));
    assert_eq!(0x10200073u32.decode(Isa::Rv32), Ok(full(OpecodeKind::OP_SRET, None, None, None, None)));
    assert_eq!(0x00200073u32.decode(Isa::Rv32), Ok(full(OpecodeKind::OP_URET, None, None, None, None)));
    assert_eq!(0x10500073u32.decode(Isa::Rv32), Ok(full(OpecodeKind::OP_WFI, None, None, None, None)));
    assert_eq!(0x12208073u32.decode(Isa::Rv32), Ok(full(OpecodeKind::OP_SFENCE_VMA, None, Some(1), Some(2), None)));
    assert_eq!(0x0ff0000fu32.decode(Isa::Rv32), Ok(full(OpecodeKind::OP_FENCE, None, None, None, None)));
}

#[test]
fn decodes_csr_instructions_with_the_csr_address_in_rs2() {
    assert_eq!(0x341312f3u32.decode(Isa::Rv32), Ok(full(OpecodeKind::OP_CSRRW, Some(5), Some(6), Some(0x341), None)));
    assert_eq!(0x300022f3u32.decode(Isa::Rv32), Ok(full(OpecodeKind::OP_CSRRS, Some(5), Some(0), Some(0x300), None)));
    assert_eq!(0x3408d2f3u32.decode(Isa::Rv32), Ok(full(OpecodeKind::OP_CSRRWI, Some(5), Some(17), Some(0x340), None)));
    assert_eq!(zicsr_extension::parse_opecode(0x341312f3, Isa::Rv32), Ok(OpecodeKind::OP_CSRRW));
    assert_eq!(zicsr_extension::parse_rs2(0x341312f3, &OpecodeKind::OP_CSRRW), Ok(Some(0x341)));
}

#[test]
fn decodes_atomics() {
    assert_eq!(0x1000a2afu32.decode(Isa::Rv32), Ok(full(OpecodeKind::OP_LR_W, Some(5), Some(1), None, Some(0))));
    assert_eq!(0x1820a32fu32.decode(Isa::Rv32), Ok(full(OpecodeKind::OP_SC_W, Some(6), Some(1), Some(2), Some(0))));
    assert_eq!(0x0020a2afu32.decode(Isa::Rv32), Ok(full(OpecodeKind::OP_AMOADD_W, Some(5), Some(1), Some(2), Some(0))));
    // acquire and release set
    assert_eq!(0xa620a2afu32.decode(Isa::Rv32), Ok(full(OpecodeKind::OP_AMOMAX_W, Some(5), Some(1), Some(2), Some(3))));
    assert_eq!(a_extension::parse_opecode(0xa020a2af, Isa::Rv32), Ok(OpecodeKind::OP_AMOMAX_W));
    assert_eq!(a_extension::parse_rd(0xa020a2af, &OpecodeKind::OP_AMOMAX_W), Some(5));
    assert_eq!(a_extension::parse_rs1(0xa020a2af, &OpecodeKind::OP_AMOMAX_W), Some(1));
    assert_eq!(a_extension::parse_rs2(0x1000a2af, &OpecodeKind::OP_LR_W), None);
    assert_eq!(a_extension::parse_imm(0xa620a2af, &OpecodeKind::OP_AMOMAX_W), Some(3));
}

#[test]
fn double_word_atomics_exist_on_rv64_only() {
    assert_eq!(0x0020b2afu32.decode(Isa::Rv64), Ok(full(OpecodeKind::OP_AMOADD_D, Some(5), Some(1), Some(2), Some(0))));
    assert_eq!(0x0020b2afu32.decode(Isa::Rv32), Err(illegal(0x0020b2af)));
    assert_eq!(0x1000b2afu32.decode(Isa::Rv64), Ok(full(OpecodeKind::OP_LR_D, Some(5), Some(1), None, Some(0))));
    assert_eq!(0x1820b32fu32.decode(Isa::Rv64), Ok(full(OpecodeKind::OP_SC_D, Some(6), Some(1), Some(2), Some(0))));
    assert_eq!(0xe020b2afu32.decode(Isa::Rv64), Ok(full(OpecodeKind::OP_AMOMAXU_D, Some(5), Some(1), Some(2), Some(0))));
    // lr with a source register, and the widths that do not exist
    assert_eq!(0x1020a2afu32.decode(Isa::Rv64), Err(illegal(0x1020a2af)));
    assert_eq!(0x002092afu32.decode(Isa::Rv64), Err(illegal(0x002092af)));
}

#[test]
fn privileged_decoder_reads_the_fence_operands() {
    assert_eq!(priv_extension::parse_opecode(0x12000073, Isa::Rv32), Ok(OpecodeKind::OP_SFENCE_VMA));
    assert_eq!(priv_extension::parse_rd(0x12208073, &OpecodeKind::OP_SFENCE_VMA), Ok(None));
    assert_eq!(priv_extension::parse_rs1(0x12208073, &OpecodeKind::OP_SFENCE_VMA), Ok(Some(1)));
    assert_eq!(priv_extension::parse_rs2(0x12208073, &OpecodeKind::OP_SFENCE_VMA), Ok(Some(2)));
    assert_eq!(priv_extension::parse_rs1(0x30200073, &OpecodeKind::OP_MRET), Ok(None));
    assert_eq!(priv_extension::parse_imm(0x30200073, &OpecodeKind::OP_MRET), Ok(None));
}

#[test]
fn unrecognized_encodings_are_illegal_with_the_encoding_as_value() {
    assert_eq!(0xffff_ffffu32.decode(Isa::Rv64), Err(illegal(0xffff_ffff)));
    assert_eq!(0x0000_0000u32.decode(Isa::Rv64), Err(illegal(0)));
    // branch with funct3 = 010
    assert_eq!(0x0000_2063u32.decode(Isa::Rv32), Err(illegal(0x2063)));
    // system with funct3 = 100
    assert_eq!(0x0000_4073u32.decode(Isa::Rv32), Err(illegal(0x4073)));
    // the M extension is not implemented
    assert_eq!(0x0220_81b3u32.decode(Isa::Rv32), Err(illegal(0x022081b3)));
    assert_eq!(parse_opecode(0x0000_2063, Isa::Rv32), Err(illegal(0x2063)));
}

#[test]
fn the_zero_half_word_is_illegal() {
    assert_eq!(0x0000u16.decode(Isa::Rv32), Err(illegal(0)));
    assert_eq!(c_extension::parse_opecode(0, Isa::Rv64), Err(illegal(0)));
    // not a compressed encoding at all
    assert_eq!(0x0003u16.decode(Isa::Rv32), Err(illegal(3)));
}

#[test]
fn decodes_compressed_immediates() {
    assert_eq!(0x556du16.decode(Isa::Rv32), Ok(half(OpecodeKind::OP_C_LI, Some(10), None, None, Some(-5))));
    assert_eq!(0x051du16.decode(Isa::Rv32), Ok(half(OpecodeKind::OP_C_ADDI, Some(10), Some(10), None, Some(7))));
    assert_eq!(0x72fdu16.decode(Isa::Rv32), Ok(half(OpecodeKind::OP_C_LUI, Some(5), None, None, Some(-4096))));
    assert_eq!(0x7101u16.decode(Isa::Rv32), Ok(half(OpecodeKind::OP_C_ADDI16SP, None, Some(2), None, Some(-512))));
    assert_eq!(0x617du16.decode(Isa::Rv32), Ok(half(OpecodeKind::OP_C_ADDI16SP, None, Some(2), None, Some(496))));
    assert_eq!(0x1fe0u16.decode(Isa::Rv32), Ok(half(OpecodeKind::OP_C_ADDI4SPN, Some(8), None, None, Some(1020))));
    assert_eq!(0x947du16.decode(Isa::Rv64), Ok(half(OpecodeKind::OP_C_SRAI, Some(8), Some(8), None, Some(63))));
    assert_eq!(0x987du16.decode(Isa::Rv32), Ok(half(OpecodeKind::OP_C_ANDI, Some(8), Some(8), None, Some(-1))));
    assert_eq!(0x02feu16.decode(Isa::Rv32), Ok(half(OpecodeKind::OP_C_SLLI, Some(5), Some(5), None, Some(31))));
    assert_eq!(0x0001u16.decode(Isa::Rv32), Ok(half(OpecodeKind::OP_C_NOP, None, None, None, Some(0))));
}

#[test]
fn decodes_compressed_jump_and_branch_offsets() {
    assert_eq!(0xbffdu16.decode(Isa::Rv32), Ok(half(OpecodeKind::OP_C_J, None, None, None, Some(-2))));
    assert_eq!(0xaffdu16.decode(Isa::Rv32), Ok(half(OpecodeKind::OP_C_J, None, None, None, Some(2046))));
    assert_eq!(0x2095u16.decode(Isa::Rv32), Ok(half(OpecodeKind::OP_C_JAL, None, None, None, Some(100))));
    assert_eq!(0xd001u16.decode(Isa::Rv32), Ok(half(OpecodeKind::OP_C_BEQZ, None, Some(8), None, Some(-256))));
    assert_eq!(0xecfdu16.decode(Isa::Rv32), Ok(half(OpecodeKind::OP_C_BNEZ, None, Some(9), None, Some(254))));
}

#[test]
fn decodes_compressed_loads_and_stores() {
    assert_eq!(0x5c64u16.decode(Isa::Rv32), Ok(half(OpecodeKind::OP_C_LW, Some(9), Some(8), None, Some(124))));
    assert_eq!(0x52feu16.decode(Isa::Rv32), Ok(half(OpecodeKind::OP_C_LWSP, Some(5), None, None, Some(252))));
    assert_eq!(0xdf96u16.decode(Isa::Rv32), Ok(half(OpecodeKind::OP_C_SWSP, None, None, Some(5), Some(252))));
    assert_eq!(0x7c64u16.decode(Isa::Rv64), Ok(half(OpecodeKind::OP_C_LD, Some(9), Some(8), None, Some(248))));
    assert_eq!(0xff96u16.decode(Isa::Rv64), Ok(half(OpecodeKind::OP_C_SDSP, None, None, Some(5), Some(504))));
    assert_eq!(0x72feu16.decode(Isa::Rv64), Ok(half(OpecodeKind::OP_C_LDSP, Some(5), None, None, Some(504))));
}

#[test]
fn decodes_compressed_register_forms() {
    assert_eq!(0x829au16.decode(Isa::Rv32), Ok(half(OpecodeKind::OP_C_MV, Some(5), None, Some(6), None)));
    assert_eq!(0x929au16.decode(Isa::Rv32), Ok(half(OpecodeKind::OP_C_ADD, Some(5), Some(5), Some(6), None)));
    assert_eq!(0x8282u16.decode(Isa::Rv32), Ok(half(OpecodeKind::OP_C_JR, None, Some(5), None, None)));
    assert_eq!(0x9282u16.decode(Isa::Rv32), Ok(half(OpecodeKind::OP_C_JALR, None, Some(5), None, None)));
    assert_eq!(0x9002u16.decode(Isa::Rv32), Ok(half(OpecodeKind::OP_C_EBREAK, None, None, None, None)));
    assert_eq!(0x8c05u16.decode(Isa::Rv32), Ok(half(OpecodeKind::OP_C_SUB, Some(8), Some(8), Some(9), None)));
    assert_eq!(c_extension::parse_rd(0x8c05, &OpecodeKind::OP_C_SUB), Ok(Some(8)));
    assert_eq!(c_extension::parse_rs1(0x8c05, &OpecodeKind::OP_C_SUB), Ok(Some(8)));
    assert_eq!(c_extension::parse_rs2(0x8c05, &OpecodeKind::OP_C_SUB), Ok(Some(9)));
    assert_eq!(c_extension::parse_imm(0x8c05, &OpecodeKind::OP_C_SUB), Ok(None));
}

#[test]
fn compressed_encodings_that_differ_between_rv32_and_rv64() {
    // quadrant 1, funct3 001: c.jal on RV32, c.addiw on RV64
    assert_eq!(0x2095u16.decode(Isa::Rv64), Ok(half(OpecodeKind::OP_C_ADDIW, Some(1), Some(1), None, Some(5))));
    assert_eq!(0x9c05u16.decode(Isa::Rv64), Ok(half(OpecodeKind::OP_C_SUBW, Some(8), Some(8), Some(9), None)));
    assert_eq!(0x9c05u16.decode(Isa::Rv32), Err(illegal(0x9c05)));
    assert_eq!(0x7c64u16.decode(Isa::Rv32), Err(illegal(0x7c64)));
    assert_eq!(0xff96u16.decode(Isa::Rv32), Err(illegal(0xff96)));
}

#[test]
fn decode_is_deterministic() {
    for raw in [0x00500093u32, 0xfe208ce3, 0xffff_ffff, 0x341312f3] {
        assert_eq!(raw.decode(Isa::Rv64), raw.decode(Isa::Rv64));
    }
    for raw in [0x556du16, 0x0000, 0x9002] {
        assert_eq!(raw.decode(Isa::Rv32), raw.decode(Isa::Rv32));
    }
}

#[test]
fn slice_extracts_bit_fields() {
    assert_eq!(0xdead_beefu32.slice(15, 8), 0xbe);
    assert_eq!(0xdead_beefu32.slice(31, 0), 0xdead_beef);
    assert_eq!(0xdead_beefu32.slice(31, 31), 1);
    assert_eq!(0xdead_beefu32.slice(0, 0), 1);
    assert_eq!(0xabcdu16.slice(15, 12), 0xa);
    assert_eq!(0xabcdu16.slice(7, 4), 0xc);
}

#[test]
fn to_signed_nbit_reads_twos_complement() {
    assert_eq!(0u32.to_signed_nbit(0xfff, 12), -1);
    assert_eq!(0u32.to_signed_nbit(5, 12), 5);
    assert_eq!(0u32.to_signed_nbit(0x800, 12), -2048);
    assert_eq!(0u32.to_signed_nbit(0x7ff, 12), 2047);
    assert_eq!(0u32.to_signed_nbit(0x1800, 12), -2048);
    assert_eq!(0u32.to_signed_nbit(-1, 12), -1);
    assert_eq!(0u16.to_signed_nbit(1, 1), -1);
    assert_eq!(0u16.to_signed_nbit(0x3fff_ffff, 30), -1);
}

#[test]
fn extension_follows_the_major_opcode() {
    assert_eq!(0x1000a2afu32.extension(), Extensions::A);
    assert_eq!(0x341312f3u32.extension(), Extensions::Zicsr);
    assert_eq!(0x30200073u32.extension(), Extensions::Priv);
    assert_eq!(0x00000073u32.extension(), Extensions::BaseI);
    assert_eq!(0x00100073u32.extension(), Extensions::BaseI);
    assert_eq!(0x00500093u32.extension(), Extensions::BaseI);
    assert_eq!(0x556du16.extension(), Extensions::C);
    assert_eq!(OpecodeKind::OP_C_LI.extension(), Extensions::C);
    assert_eq!(OpecodeKind::OP_CSRRW.extension(), Extensions::Zicsr);
}
