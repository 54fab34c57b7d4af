//! Decoding of compressed 16-bit encodings.

pub mod c_extension;

use vstd::prelude::*;
use crate::cpu::decode::{spec_illegal, Decode};
use crate::cpu::instruction::{Instruction, OpecodeKind};
use crate::cpu::trap::Fault;
use crate::Isa;

verus! {

impl Decode for u16 {
    open spec fn opecode_spec(self, isa: Isa) -> Result<OpecodeKind, Fault> {
        match c_extension::spec_opecode(self, isa) {
            Some(opc) => Ok(opc),
            None => Err(spec_illegal(self as u64)),
        }
    }

    open spec fn rd_spec(self, opkind: OpecodeKind) -> Option<usize> {
        c_extension::spec_rd(self, opkind)
    }

    open spec fn rs1_spec(self, opkind: OpecodeKind) -> Option<usize> {
        c_extension::spec_rs1(self, opkind)
    }

    open spec fn rs2_spec(self, opkind: OpecodeKind) -> Option<usize> {
        c_extension::spec_rs2(self, opkind)
    }

    open spec fn imm_spec(self, opkind: OpecodeKind) -> Option<i32> {
        c_extension::spec_imm(self, opkind)
    }

    open spec fn compressed(self) -> bool {
        true
    }

    fn decode(&self, isa: Isa) -> (r: Result<Instruction, Fault>) {
        let new_opc: OpecodeKind = match self.parse_opecode(isa) {
            Ok(opc) => opc,
            Err(e) => { return Err(e); },
        };
        let new_rd = c_extension::parse_rd(*self, &new_opc)?;
        let new_rs1 = c_extension::parse_rs1(*self, &new_opc)?;
        let new_rs2 = c_extension::parse_rs2(*self, &new_opc)?;
        let new_imm = c_extension::parse_imm(*self, &new_opc)?;
        proof {
            c_extension::lemma_table_extension(*self, isa);
        }

        Ok(
            Instruction {
                opc: new_opc,
                rd: new_rd,
                rs1: new_rs1,
                rs2: new_rs2,
                imm: new_imm,
                is_compressed: true,
            },
        )
    }

    fn parse_opecode(self, isa: Isa) -> (r: Result<OpecodeKind, Fault>) {
        c_extension::parse_opecode(self, isa)
    }

    fn parse_rd(self, opkind: &OpecodeKind) -> (r: Result<Option<usize>, Fault>) {
        c_extension::parse_rd(self, opkind)
    }

    fn parse_rs1(self, opkind: &OpecodeKind) -> (r: Result<Option<usize>, Fault>) {
        c_extension::parse_rs1(self, opkind)
    }

    fn parse_rs2(self, opkind: &OpecodeKind) -> (r: Result<Option<usize>, Fault>) {
        c_extension::parse_rs2(self, opkind)
    }

    fn parse_imm(self, opkind: &OpecodeKind) -> (r: Result<Option<i32>, Fault>) {
        c_extension::parse_imm(self, opkind)
    }
}

} // verus!
