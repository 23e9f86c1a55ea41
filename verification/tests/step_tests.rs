//! End-to-end tests of the instruction step against small environments.

use rrv32::{Cpu, ExecutionEnvironment, MachineException, MemoryAccessFailure};

/// A word-addressed RAM starting at `base`, with counters on every
/// accounting hook the tests care about.
struct CountEnv {
    base: u32,
    ram: Vec<u32>,
    reserved: Option<u32>,
    c_on: bool,
    m_on: bool,
    a_on: bool,
    zicsr_on: bool,
    zifence_on: bool,
    mscratch: u32,
    ifetches: u32,
    alu_ops: u32,
    mul_ops: u32,
    div_ops: u32,
    amo_ops: u32,
    jump_ops: u32,
    branch_ops: u32,
    generic_ops: u32,
    mem_loads: u32,
    mem_stores: u32,
}

impl CountEnv {
    fn new(base: u32, words: usize) -> CountEnv {
        CountEnv {
            base,
            ram: vec![0; words],
            reserved: None,
            c_on: true,
            m_on: true,
            a_on: true,
            zicsr_on: true,
            zifence_on: true,
            mscratch: 0,
            ifetches: 0,
            alu_ops: 0,
            mul_ops: 0,
            div_ops: 0,
            amo_ops: 0,
            jump_ops: 0,
            branch_ops: 0,
            generic_ops: 0,
            mem_loads: 0,
            mem_stores: 0,
        }
    }

    fn index(&self, address: u32) -> Option<usize> {
        if address < self.base {
            return None;
        }
        let off = ((address - self.base) >> 2) as usize;
        if off < self.ram.len() {
            Some(off)
        } else {
            None
        }
    }
}

impl ExecutionEnvironment for CountEnv {
    fn enable_c(&self) -> bool {
        self.c_on
    }
    fn enable_m(&self) -> bool {
        self.m_on
    }
    fn enable_a(&self) -> bool {
        self.a_on
    }
    fn enable_zicsr(&self) -> bool {
        self.zicsr_on
    }
    fn enable_zifence(&self) -> bool {
        self.zifence_on
    }
    fn read_word(&mut self, address: u32, _mask: u32) -> Result<u32, MemoryAccessFailure> {
        if address & 3 != 0 {
            return Err(MemoryAccessFailure::Unaligned);
        }
        match self.index(address) {
            Some(i) => Ok(self.ram[i]),
            None => Err(MemoryAccessFailure::AccessFault),
        }
    }
    fn write_word(&mut self, address: u32, data: u32, mask: u32) -> Result<(), MemoryAccessFailure> {
        if address & 3 != 0 {
            return Err(MemoryAccessFailure::Unaligned);
        }
        if self.reserved == Some(address) {
            self.reserved = None;
        }
        match self.index(address) {
            Some(i) => {
                self.ram[i] = (self.ram[i] & !mask) | (data & mask);
                Ok(())
            }
            None => Err(MemoryAccessFailure::AccessFault),
        }
    }
    fn load_reserved_word(&mut self, address: u32) -> Result<u32, MemoryAccessFailure> {
        if address & 3 != 0 {
            return Err(MemoryAccessFailure::Unaligned);
        }
        match self.index(address) {
            Some(i) => {
                self.reserved = Some(address);
                Ok(self.ram[i])
            }
            None => Err(MemoryAccessFailure::AccessFault),
        }
    }
    fn store_reserved_word(&mut self, address: u32, data: u32) -> Result<bool, MemoryAccessFailure> {
        if address & 3 != 0 {
            return Err(MemoryAccessFailure::Unaligned);
        }
        let matched = self.reserved == Some(address);
        self.reserved = None;
        if !matched {
            return Ok(false);
        }
        self.write_word(address, data, 0xffff_ffff)?;
        Ok(true)
    }
    fn read_csr(&mut self, csr_number: u32) -> Result<u32, MachineException> {
        if csr_number == 0x340 {
            Ok(self.mscratch)
        } else {
            Err(MachineException::IllegalInstruction)
        }
    }
    fn write_csr(&mut self, csr_number: u32, new_value: u32) -> Result<(), MachineException> {
        if csr_number == 0x340 {
            self.mscratch = new_value;
            Ok(())
        } else {
            Err(MachineException::IllegalInstruction)
        }
    }
    fn account_ifetch(&mut self, _pc: u32) {
        self.ifetches += 1;
    }
    fn account_generic_op(&mut self) {
        self.generic_ops += 1;
    }
    fn account_alu_op(&mut self) {
        self.alu_ops += 1;
    }
    fn account_mul_op(&mut self) {
        self.mul_ops += 1;
    }
    fn account_div_op(&mut self) {
        self.div_ops += 1;
    }
    fn account_amo_op(&mut self) {
        self.amo_ops += 1;
    }
    fn account_jump_op(&mut self) {
        self.jump_ops += 1;
    }
    fn account_branch_op(&mut self, _did_take: bool, _was_forward: bool) {
        self.branch_ops += 1;
    }
    fn account_memory_load(&mut self, _address: u32) {
        self.mem_loads += 1;
    }
    fn account_memory_store(&mut self, _address: u32) {
        self.mem_stores += 1;
    }
}

#[test]
fn addi_from_zero_register() {
    // ADDI x1, x0, 42 at PC 0x8000_0000.
    let mut env = CountEnv::new(0x8000_0000, 16);
    env.ram[0] = 0x02a0_0093;
    let mut cpu = Cpu::new();
    cpu.put_pc(0x8000_0000);
    assert!(cpu.step(&mut env).is_ok());
    assert_eq!(cpu.get_register(1), 42);
    assert_eq!(cpu.get_pc(), 0x8000_0004);
    assert_eq!(env.ifetches, 1);
    assert_eq!(env.alu_ops, 1);
    assert_eq!(env.generic_ops, 0);
}

#[test]
fn jal_links_and_jumps() {
    // JAL x1, +8 at PC 0x1000.
    let mut env = CountEnv::new(0x1000, 16);
    env.ram[0] = 0x0080_00ef;
    let mut cpu = Cpu::new();
    cpu.put_pc(0x1000);
    assert!(cpu.step(&mut env).is_ok());
    assert_eq!(cpu.get_register(1), 0x1004);
    assert_eq!(cpu.get_pc(), 0x1008);
    assert_eq!(env.jump_ops, 1);
    assert_eq!(env.ifetches, 1);
}

#[test]
fn lui_addi_sequence() {
    // LUI x5, 0xABCDE; ADDI x5, x5, -1 starting at PC 0.
    let mut env = CountEnv::new(0, 16);
    env.ram[0] = 0xabcd_e2b7;
    env.ram[1] = 0xfff2_8293;
    let mut cpu = Cpu::new();
    assert!(cpu.step(&mut env).is_ok());
    assert!(cpu.step(&mut env).is_ok());
    assert_eq!(cpu.get_register(5), 0xabcd_dfff);
    assert_eq!(cpu.get_pc(), 8);
}

#[test]
fn lr_sc_success_then_failure() {
    // LR.W x2, (x1); SC.W x3, x4, (x1); SC.W x3, x4, (x1) with
    // x1 = 0x1000, memory at 0x1000 = 0, x4 = 0x99.
    let mut env = CountEnv::new(0, 0x800);
    env.ram[0] = 0x1000_a12f; // LR.W x2, (x1)
    env.ram[1] = 0x1840_a1af; // SC.W x3, x4, (x1)
    env.ram[2] = 0x1840_a1af; // SC.W x3, x4, (x1)
    let mut cpu = Cpu::new();
    cpu.put_register(1, 0x1000);
    cpu.put_register(4, 0x99);
    assert!(cpu.step(&mut env).is_ok());
    assert_eq!(cpu.get_register(2), 0);
    assert_eq!(env.reserved, Some(0x1000));
    assert!(cpu.step(&mut env).is_ok());
    assert_eq!(cpu.get_register(3), 0, "store-conditional should succeed");
    assert_eq!(env.ram[0x400], 0x99);
    assert!(cpu.step(&mut env).is_ok());
    assert_eq!(cpu.get_register(3), 1, "second store-conditional must fail");
    assert_eq!(env.ram[0x400], 0x99);
    assert_eq!(env.amo_ops, 3);
}

#[test]
fn div_overflow_convention() {
    // DIV x1, x2, x3 with x2 = INT_MIN and x3 = -1.
    let mut env = CountEnv::new(0, 16);
    env.ram[0] = 0x0231_40b3;
    let mut cpu = Cpu::new();
    cpu.put_register(2, 0x8000_0000);
    cpu.put_register(3, 0xffff_ffff);
    assert!(cpu.step(&mut env).is_ok());
    assert_eq!(cpu.get_register(1), 0x8000_0000);
    assert_eq!(env.div_ops, 1);
}

#[test]
fn mul_counts_mul_op() {
    // MUL x1, x2, x3.
    let mut env = CountEnv::new(0, 16);
    env.ram[0] = 0x0231_00b3;
    let mut cpu = Cpu::new();
    cpu.put_register(2, 7);
    cpu.put_register(3, 6);
    assert!(cpu.step(&mut env).is_ok());
    assert_eq!(cpu.get_register(1), 42);
    assert_eq!(env.mul_ops, 1);
}

#[test]
fn mul_illegal_when_m_disabled() {
    let mut env = CountEnv::new(0, 16);
    env.ram[0] = 0x0231_00b3;
    env.m_on = false;
    let mut cpu = Cpu::new();
    assert_eq!(
        cpu.step(&mut env),
        Err((MachineException::IllegalInstruction, 0x0231_00b3))
    );
    assert_eq!(cpu.get_pc(), 0, "PC must not advance on an exception");
}

#[test]
fn amo_illegal_when_a_disabled() {
    let mut env = CountEnv::new(0, 16);
    env.ram[0] = 0x1000_a12f;
    env.a_on = false;
    let mut cpu = Cpu::new();
    assert_eq!(
        cpu.step(&mut env),
        Err((MachineException::IllegalInstruction, 0x1000_a12f))
    );
}

#[test]
fn amoadd_returns_old_value() {
    // AMOADD.W x2, x3, (x1) with memory 5 and x3 = 7.
    let mut env = CountEnv::new(0, 0x800);
    env.ram[0] = 0x0030_a12f;
    env.ram[0x400] = 5;
    let mut cpu = Cpu::new();
    cpu.put_register(1, 0x1000);
    cpu.put_register(3, 7);
    assert!(cpu.step(&mut env).is_ok());
    assert_eq!(cpu.get_register(2), 5);
    assert_eq!(env.ram[0x400], 12);
}

#[test]
fn branch_taken_and_not_taken() {
    // BEQ x1, x2, +8 twice: first taken, then (after making the
    // registers differ) not taken.
    let mut env = CountEnv::new(0, 16);
    env.ram[0] = 0x0020_8463; // BEQ x1, x2, +8
    env.ram[2] = 0x0020_8463; // BEQ x1, x2, +8 at PC 8
    let mut cpu = Cpu::new();
    assert!(cpu.step(&mut env).is_ok());
    assert_eq!(cpu.get_pc(), 8, "equal registers: branch taken");
    cpu.put_register(2, 1);
    assert!(cpu.step(&mut env).is_ok());
    assert_eq!(cpu.get_pc(), 12, "unequal registers: fall through");
    assert_eq!(env.branch_ops, 2);
}

#[test]
fn load_store_bytes_and_halves() {
    // SB x2, 64(x0); LBU x3, 64(x0); LB x4, 64(x0)
    let mut env = CountEnv::new(0, 32);
    env.ram[0] = 0x0420_0023; // SB x2, 64(x0)
    env.ram[1] = 0x0400_4183; // LBU x3, 64(x0)
    env.ram[2] = 0x0400_0203; // LB x4, 64(x0)
    let mut cpu = Cpu::new();
    cpu.put_register(2, 0xfe);
    assert!(cpu.step(&mut env).is_ok());
    assert!(cpu.step(&mut env).is_ok());
    assert!(cpu.step(&mut env).is_ok());
    assert_eq!(cpu.get_register(3), 0xfe, "LBU zero-extends");
    assert_eq!(cpu.get_register(4), 0xffff_fffe, "LB sign-extends");
    assert_eq!(env.mem_stores, 1);
    assert_eq!(env.mem_loads, 2);
}

#[test]
fn misaligned_load_faults_with_address() {
    // LW x1, 2(x0)
    let mut env = CountEnv::new(0, 16);
    env.ram[0] = 0x0020_2083;
    let mut cpu = Cpu::new();
    assert_eq!(
        cpu.step(&mut env),
        Err((MachineException::MisalignedLoad, 2))
    );
}

#[test]
fn fetch_outside_memory_faults() {
    let mut env = CountEnv::new(0, 16);
    let mut cpu = Cpu::new();
    cpu.put_pc(0x4000_0000);
    assert_eq!(
        cpu.step(&mut env),
        Err((MachineException::InstructionFault, 0x4000_0000))
    );
}

#[test]
fn ecall_and_ebreak_default_to_exceptions() {
    let mut env = CountEnv::new(0, 16);
    env.ram[0] = 0x0000_0073; // ECALL
    env.ram[1] = 0x0010_0073; // EBREAK
    let mut cpu = Cpu::new();
    assert_eq!(cpu.step(&mut env), Err((MachineException::EcallFromMmode, 0)));
    cpu.put_pc(4);
    assert_eq!(cpu.step(&mut env), Err((MachineException::Breakpoint, 0)));
}

#[test]
fn csr_read_write_cycle() {
    // CSRRW x1, mscratch, x2; CSRRS x3, mscratch, x0
    let mut env = CountEnv::new(0, 16);
    env.ram[0] = 0x3401_10f3; // CSRRW x1, 0x340, x2
    env.ram[1] = 0x3400_21f3; // CSRRS x3, 0x340, x0
    let mut cpu = Cpu::new();
    cpu.put_register(2, 0x1234);
    env.mscratch = 0x5678;
    assert!(cpu.step(&mut env).is_ok());
    assert_eq!(cpu.get_register(1), 0x5678, "CSRRW reads the old value");
    assert_eq!(env.mscratch, 0x1234, "CSRRW writes the operand");
    assert!(cpu.step(&mut env).is_ok());
    assert_eq!(cpu.get_register(3), 0x1234, "CSRRS with x0 reads only");
    assert_eq!(env.mscratch, 0x1234);
}

#[test]
fn csr_write_to_read_only_is_illegal() {
    // CSRRW x1, 0xC00 (cycle, read-only), x2
    let mut env = CountEnv::new(0, 16);
    env.ram[0] = 0xc001_10f3;
    let mut cpu = Cpu::new();
    assert_eq!(
        cpu.step(&mut env),
        Err((MachineException::IllegalInstruction, 0xc001_10f3))
    );
}

#[test]
fn unknown_csr_is_illegal() {
    // CSRRS x1, 0x341, x0 — the test environment only knows 0x340.
    let mut env = CountEnv::new(0, 16);
    env.ram[0] = 0x3410_20f3;
    let mut cpu = Cpu::new();
    assert_eq!(
        cpu.step(&mut env),
        Err((MachineException::IllegalInstruction, 0x3410_20f3))
    );
}

#[test]
fn fence_is_a_no_op() {
    let mut env = CountEnv::new(0, 16);
    env.ram[0] = 0x0ff0_000f; // FENCE
    env.ram[1] = 0x0000_100f; // FENCE.I
    let mut cpu = Cpu::new();
    assert!(cpu.step(&mut env).is_ok());
    assert!(cpu.step(&mut env).is_ok());
    assert_eq!(cpu.get_pc(), 8);
}

#[test]
fn compressed_li_expands_and_advances_by_two() {
    // C.LI x5, 3
    let mut env = CountEnv::new(0, 16);
    env.ram[0] = 0x0000_428d;
    let mut cpu = Cpu::new();
    assert!(cpu.step(&mut env).is_ok());
    assert_eq!(cpu.get_register(5), 3);
    assert_eq!(cpu.get_pc(), 2);
    assert_eq!(env.ifetches, 1);
}

#[test]
fn compressed_ebreak() {
    let mut env = CountEnv::new(0, 16);
    env.ram[0] = 0x0000_9002; // C.EBREAK
    let mut cpu = Cpu::new();
    assert_eq!(cpu.step(&mut env), Err((MachineException::Breakpoint, 0)));
}

#[test]
fn compressed_illegal_when_c_disabled() {
    let mut env = CountEnv::new(0, 16);
    env.ram[0] = 0x0000_428d;
    env.c_on = false;
    let mut cpu = Cpu::new();
    assert_eq!(
        cpu.step(&mut env),
        Err((MachineException::IllegalInstruction, 0x428d))
    );
}

#[test]
fn compressed_add_matches_expansion() {
    // C.ADD x5, x6 with x5 = 30, x6 = 12.
    let mut env = CountEnv::new(0, 16);
    env.ram[0] = 0x0000_929a;
    let mut cpu = Cpu::new();
    cpu.put_register(5, 30);
    cpu.put_register(6, 12);
    assert!(cpu.step(&mut env).is_ok());
    assert_eq!(cpu.get_register(5), 42);
    assert_eq!(cpu.get_pc(), 2);
}

#[test]
fn all_zero_compressed_word_is_illegal() {
    let mut env = CountEnv::new(0, 16);
    let mut cpu = Cpu::new();
    assert_eq!(
        cpu.step(&mut env),
        Err((MachineException::IllegalInstruction, 0))
    );
}

#[test]
fn srai_shifts_arithmetically() {
    // SRAI x1, x2, 4
    let mut env = CountEnv::new(0, 16);
    env.ram[0] = 0x4041_5093;
    let mut cpu = Cpu::new();
    cpu.put_register(2, 0x8000_0000);
    assert!(cpu.step(&mut env).is_ok());
    assert_eq!(cpu.get_register(1), 0xf800_0000);
}

#[test]
fn slli_with_nonzero_high_bits_is_illegal() {
    // SLLI with funct7 = 0b0100000 is not a defined encoding.
    let mut env = CountEnv::new(0, 16);
    env.ram[0] = 0x4041_1093;
    let mut cpu = Cpu::new();
    assert_eq!(
        cpu.step(&mut env),
        Err((MachineException::IllegalInstruction, 0x4041_1093))
    );
}

#[test]
fn jalr_masks_target_low_bit() {
    // JALR x1, 5(x2) with x2 = 0x100: target (0x105) & !1 = 0x104.
    let mut env = CountEnv::new(0, 0x100);
    env.ram[0] = 0x0051_00e7;
    let mut cpu = Cpu::new();
    cpu.put_register(2, 0x100);
    assert!(cpu.step(&mut env).is_ok());
    assert_eq!(cpu.get_pc(), 0x104);
    assert_eq!(cpu.get_register(1), 4);
}

#[test]
fn taken_branch_to_misaligned_target_faults_without_c() {
    // BEQ x0, x0, +2 with the C extension disabled: the taken target 2 is
    // not 4-byte aligned.
    let mut env = CountEnv::new(0, 16);
    env.ram[0] = 0x0000_0163;
    env.c_on = false;
    let mut cpu = Cpu::new();
    assert_eq!(cpu.step(&mut env), Err((MachineException::MisalignedPC, 2)));
    assert_eq!(cpu.get_pc(), 0, "PC stays on the faulting instruction");
    // With C enabled the same branch lands on the 2-byte aligned target.
    env.c_on = true;
    assert!(cpu.step(&mut env).is_ok());
    assert_eq!(cpu.get_pc(), 2);
}

#[test]
fn fence_i_illegal_when_zifence_disabled() {
    let mut env = CountEnv::new(0, 16);
    env.ram[0] = 0x0000_100f; // FENCE.I
    env.zifence_on = false;
    let mut cpu = Cpu::new();
    assert_eq!(
        cpu.step(&mut env),
        Err((MachineException::IllegalInstruction, 0x0000_100f))
    );
}

#[test]
fn csr_illegal_when_zicsr_disabled() {
    let mut env = CountEnv::new(0, 16);
    env.ram[0] = 0x3401_10f3; // CSRRW x1, 0x340, x2
    env.zicsr_on = false;
    let mut cpu = Cpu::new();
    assert_eq!(
        cpu.step(&mut env),
        Err((MachineException::IllegalInstruction, 0x3401_10f3))
    );
}

#[test]
fn compressed_jal_links_pc_plus_two() {
    // C.JAL +42 at PC 0x100: x1 must receive 0x102, not 0x104.
    // offset 42 = 0b0101010: imm[5]=1, imm[3]=1, imm[1]=1.
    let mut env = CountEnv::new(0, 0x100);
    env.ram[0x40] = 0x0000_202d;
    let mut cpu = Cpu::new();
    cpu.put_pc(0x100);
    assert!(cpu.step(&mut env).is_ok());
    assert_eq!(cpu.get_register(1), 0x102);
    assert_eq!(cpu.get_pc(), 0x100 + 42);
    assert_eq!(env.jump_ops, 1);
}
