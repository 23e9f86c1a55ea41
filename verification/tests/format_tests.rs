//! Unit tests of the decoder, the arithmetic helpers, the snapshot
//! format, the flat memory environment, and the image loader.

use rrv32::{
    alu_op, decode, divs, encode_instruction, expand_compressed, initial_program_load, m_op,
    mulh, mulhsu, mulhu, parse_elf_header, parse_elf_symbol, rems, sext16, sext8, Cpu, ElfError,
    ExecutionEnvironment, ExtensionStatus, FlatMemory, Instruction, IplError, MachineException,
    MemoryAccessFailure, SnapshotError, ARCH_ID, IMPLEMENTATION_ID, VENDOR_ID,
};

fn sample_elf_header() -> Vec<u8> {
    let mut b = vec![0u8; 52];
    b[0] = 0x7f;
    b[1] = b'E';
    b[2] = b'L';
    b[3] = b'F';
    b[4] = 1; // 32-bit
    b[5] = 1; // little-endian
    b[6] = 1; // version 1
    b[16] = 2; // executable
    b[18] = 243; // RISC-V
    b[20] = 1; // e_version
    b[24] = 0x00; // e_entry = 0x8000_0000
    b[27] = 0x80;
    b[40] = 52; // e_ehsize
    b[42] = 32; // e_phentsize
    b[44] = 2; // e_phnum
    b
}

#[test]
fn elf_header_parses_and_validates() {
    let b = sample_elf_header();
    let h = parse_elf_header(&b).expect("header must parse");
    assert_eq!(h.e_type, 2);
    assert_eq!(h.e_machine, 243);
    assert_eq!(h.e_entry, 0x8000_0000);
    assert_eq!(h.e_phentsize, 32);
    assert_eq!(h.e_phnum, 2);
}

#[test]
fn elf_header_rejects_bad_records() {
    let mut b = sample_elf_header();
    b[0] = 0x7e;
    assert_eq!(parse_elf_header(&b), Err(ElfError::BadMagic));
    let mut b = sample_elf_header();
    b[4] = 2;
    assert_eq!(parse_elf_header(&b), Err(ElfError::UnsupportedClass));
    let mut b = sample_elf_header();
    b[18] = 62;
    assert_eq!(parse_elf_header(&b), Err(ElfError::WrongMachine));
    assert_eq!(parse_elf_header(&vec![0u8; 10]), Err(ElfError::TooShort));
}

#[test]
fn elf_symbol_parses_little_endian_fields() {
    let mut b = vec![0u8; 16];
    b[4] = 0x78; // st_value = 0x12345678
    b[5] = 0x56;
    b[6] = 0x34;
    b[7] = 0x12;
    b[14] = 7;
    let s = parse_elf_symbol(&b).expect("symbol must parse");
    assert_eq!(s.st_value, 0x1234_5678);
    assert_eq!(s.st_shndx, 7);
}

#[test]
fn register_zero_always_reads_zero() {
    let mut cpu = Cpu::new();
    cpu.put_register(0, 0xdead_beef);
    assert_eq!(cpu.get_register(0), 0);
    for i in 1..32 {
        cpu.put_register(i, i);
        assert_eq!(cpu.get_register(0), 0);
    }
}

#[test]
fn put_pc_masks_low_bit() {
    let mut cpu = Cpu::new();
    cpu.put_pc(0x1001);
    assert_eq!(cpu.get_pc(), 0x1000);
    cpu.put_pc(0xffff_ffff);
    assert_eq!(cpu.get_pc(), 0xffff_fffe);
}

#[test]
fn registers_hold_their_values() {
    let mut cpu = Cpu::new();
    for i in 1..32 {
        cpu.put_register(i, i * 3 + 1);
    }
    for i in 1..32 {
        assert_eq!(cpu.get_register(i), i * 3 + 1);
    }
}

#[test]
fn decode_addi() {
    assert_eq!(
        decode(0x02a0_0093),
        Some(Instruction::OpImm {
            funct3: 0,
            rd: 1,
            rs1: 0,
            imm: 42
        })
    );
}

#[test]
fn decode_negative_immediate() {
    // ADDI x5, x5, -1 keeps the immediate sign-extended.
    assert_eq!(
        decode(0xfff2_8293),
        Some(Instruction::OpImm {
            funct3: 0,
            rd: 5,
            rs1: 5,
            imm: 0xffff_ffff
        })
    );
}

#[test]
fn decode_branch_offset() {
    // BEQ x1, x2, +8
    assert_eq!(
        decode(0x0020_8463),
        Some(Instruction::Branch {
            funct3: 0,
            rs1: 1,
            rs2: 2,
            imm: 8
        })
    );
}

#[test]
fn decode_rejects_compressed_and_unknown() {
    assert_eq!(decode(0x0000_0001), None);
    assert_eq!(decode(0xffff_ffff), None);
    // Branch funct3 2 and 3 are not defined.
    assert_eq!(decode(0x0020_a463), None);
}

#[test]
fn decode_rejects_lr_with_nonzero_rs2() {
    // LR.W with rs2 != 0 is reserved.
    assert_eq!(decode(0x1030_a12f), None);
    assert_eq!(decode(0x1000_a12f).is_some(), true);
}

#[test]
fn alu_op_basics() {
    assert_eq!(alu_op(false, 0, 7, 3), Ok(10));
    assert_eq!(alu_op(true, 0, 3, 7), Ok(0xffff_fffc));
    assert_eq!(alu_op(false, 1, 1, 33), Ok(2), "shift amount is masked to 5 bits");
    assert_eq!(alu_op(false, 2, 0xffff_ffff, 0), Ok(1), "-1 < 0 signed");
    assert_eq!(alu_op(false, 3, 0xffff_ffff, 0), Ok(0), "max > 0 unsigned");
    assert_eq!(alu_op(false, 4, 0b1100, 0b1010), Ok(0b0110));
    assert_eq!(alu_op(false, 5, 0x8000_0000, 4), Ok(0x0800_0000));
    assert_eq!(alu_op(true, 5, 0x8000_0000, 4), Ok(0xf800_0000));
    assert_eq!(alu_op(false, 6, 0b1100, 0b1010), Ok(0b1110));
    assert_eq!(alu_op(false, 7, 0b1100, 0b1010), Ok(0b1000));
    assert_eq!(
        alu_op(true, 4, 1, 1),
        Err(MachineException::IllegalInstruction)
    );
}

#[test]
fn multiply_high_words() {
    assert_eq!(mulhu(0xffff_ffff, 0xffff_ffff), 0xffff_fffe);
    assert_eq!(mulh(0x8000_0000, 0x8000_0000), 0x4000_0000);
    assert_eq!(mulh(0xffff_ffff, 0xffff_ffff), 0, "(-1) * (-1) = 1");
    assert_eq!(mulh(2, 0x8000_0000), 0xffff_ffff, "2 * INT_MIN < 0");
    assert_eq!(mulhsu(0xffff_ffff, 0xffff_ffff), 0xffff_ffff, "-1 * max unsigned");
    assert_eq!(m_op(0, 0x0001_0000, 0x0001_0000), 0, "MUL keeps the low word");
}

#[test]
fn division_conventions() {
    assert_eq!(divs(0x8000_0000, 0xffff_ffff), 0x8000_0000, "overflow");
    assert_eq!(rems(0x8000_0000, 0xffff_ffff), 0, "overflow remainder");
    assert_eq!(divs(1, 0), 0xffff_ffff, "divide by zero");
    assert_eq!(rems(7, 0), 7, "remainder by zero keeps the dividend");
    assert_eq!(divs(0xffff_fff9, 2), 0xffff_fffd, "-7 / 2 = -3 toward zero");
    assert_eq!(rems(0xffff_fff9, 2), 0xffff_ffff, "-7 % 2 = -1");
    assert_eq!(m_op(5, 7, 0), 0xffff_ffff, "DIVU by zero");
    assert_eq!(m_op(7, 7, 0), 7, "REMU by zero");
    assert_eq!(m_op(5, 42, 5), 8);
    assert_eq!(m_op(7, 42, 5), 2);
}

#[test]
fn sign_extension_helpers() {
    assert_eq!(sext8(0x7f), 0x7f);
    assert_eq!(sext8(0x80), 0xffff_ff80);
    assert_eq!(sext16(0x7fff), 0x7fff);
    assert_eq!(sext16(0x8000), 0xffff_8000);
}

#[test]
fn expand_compressed_forms() {
    // C.LI x5, 3 -> ADDI x5, x0, 3
    assert_eq!(expand_compressed(0x428d), Some(0x0030_0293));
    // C.EBREAK -> EBREAK
    assert_eq!(expand_compressed(0x9002), Some(0x0010_0073));
    // The all-zero halfword is defined illegal.
    assert_eq!(expand_compressed(0x0000), None);
    // C.ADDI16SP with a zero immediate is reserved.
    assert_eq!(expand_compressed(0x6101), None);
}

#[test]
fn expansions_decode() {
    // Every expansion a sweep of halfwords produces must itself decode.
    for h in 0..=0xffffu32 {
        if let Some(w) = expand_compressed(h as u16) {
            assert!(
                decode(w).is_some(),
                "expansion {w:#010x} of {h:#06x} must decode"
            );
        }
    }
}

#[test]
fn decode_encode_round_trip() {
    // Re-encoding a successfully decoded word reproduces it bit for bit:
    // representative formats first, then a sweep across the word space.
    let words = [
        0x02a0_0093u32, // ADDI
        0xabcd_e2b7,    // LUI
        0x0080_00ef,    // JAL
        0x0051_00e7,    // JALR
        0x0020_8463,    // BEQ
        0x0050_4183,    // LBU
        0x0020_02a3,    // SB
        0x0231_40b3,    // DIV
        0x1000_a12f,    // LR.W
        0x3401_10f3,    // CSRRW
        0x0ff0_000f,    // FENCE
        0xfff2_8293,    // ADDI with a negative immediate
    ];
    for w in words {
        let d = decode(w).expect("test words are defined encodings");
        assert_eq!(encode_instruction(d), w);
    }
    let mut w: u32 = 3;
    while w < 0xffff_0000 {
        if let Some(d) = decode(w) {
            assert_eq!(encode_instruction(d), w, "round trip of {w:#010x}");
        }
        w = w.wrapping_add(99_991); // a prime stride covering all opcodes
    }
}

#[test]
fn snapshot_round_trip() {
    let mut cpu = Cpu::new();
    cpu.put_pc(0x8000_0120);
    for i in 1..32 {
        cpu.put_register(i, 0x1111_0000u32.wrapping_add(i * 7));
    }
    let s = cpu.to_serialized();
    assert_eq!(s.registers.len(), 128);
    assert_eq!(s.float_bytes, 0);
    let back = Cpu::from_serialized(&s).expect("snapshot must load");
    assert_eq!(back.get_pc(), cpu.get_pc());
    for i in 0..32 {
        assert_eq!(back.get_register(i), cpu.get_register(i));
    }
}

#[test]
fn snapshot_rejects_wrong_float_width() {
    let mut s = Cpu::new().to_serialized();
    s.float_bytes = 4;
    assert!(matches!(Cpu::from_serialized(&s), Err(SnapshotError::InvalidValue)));
}

#[test]
fn snapshot_rejects_wrong_length() {
    let mut s = Cpu::new().to_serialized();
    s.registers.pop();
    assert!(matches!(Cpu::from_serialized(&s), Err(SnapshotError::InvalidLength)));
}

#[test]
fn snapshot_stores_big_endian_words() {
    let mut cpu = Cpu::new();
    cpu.put_register(1, 0x0102_0304);
    let s = cpu.to_serialized();
    assert_eq!(&s.registers[4..8], &[0x01, 0x02, 0x03, 0x04]);
}

#[test]
fn flat_memory_byte_round_trip() {
    // Writing a byte and reading it back works in every lane of a word.
    let mut mem = FlatMemory::new(16);
    for a in 0..8u32 {
        assert_eq!(mem.write_byte(a, (0xa0 + a) as u8), Ok(()));
        assert_eq!(mem.read_byte(a), Ok((0xa0 + a) as u8));
    }
    // Neighbouring bytes are untouched.
    assert_eq!(mem.read_byte(1), Ok(0xa1));
}

#[test]
fn flat_memory_word_access() {
    let mut mem = FlatMemory::new(16);
    assert_eq!(mem.write_word(8, 0xdead_beef, 0xffff_ffff), Ok(()));
    assert_eq!(mem.read_word(8, 0xffff_ffff), Ok(0xdead_beef));
    assert_eq!(mem.read_word(2, 0xffff_ffff), Err(MemoryAccessFailure::Unaligned));
    assert_eq!(mem.read_word(0x100, 0xffff_ffff), Err(MemoryAccessFailure::AccessFault));
    // A masked write changes only the selected lanes.
    assert_eq!(mem.write_word(8, 0x0000_1200, 0x0000_ff00), Ok(()));
    assert_eq!(mem.read_word(8, 0xffff_ffff), Ok(0xdead_12ef));
}

#[test]
fn flat_memory_reservation_lifecycle() {
    let mut mem = FlatMemory::new(16);
    // A store-conditional after load-reserved succeeds exactly once.
    assert_eq!(mem.load_reserved_word(4), Ok(0));
    assert_eq!(mem.store_reserved_word(4, 7), Ok(true));
    assert_eq!(mem.ram_word(1), 7);
    assert_eq!(mem.store_reserved_word(4, 9), Ok(false));
    assert_eq!(mem.ram_word(1), 7);
    // An intervening write to the reserved address kills the reservation.
    assert_eq!(mem.load_reserved_word(4), Ok(7));
    assert_eq!(mem.write_word(4, 8, 0xffff_ffff), Ok(()));
    assert_eq!(mem.store_reserved_word(4, 9), Ok(false));
    assert_eq!(mem.ram_word(1), 8);
}

#[test]
fn ipl_loads_counts_and_values() {
    let mut buf = vec![0u32; 8];
    let lines: Vec<Vec<u8>> = vec![
        b"v2.0 raw".to_vec(),
        b"3*deadbeef".to_vec(),
        b"  42  ".to_vec(),
    ];
    assert_eq!(initial_program_load(&mut buf, &lines), Ok(()));
    assert_eq!(buf, vec![0xdead_beef, 0xdead_beef, 0xdead_beef, 0x42, 0, 0, 0, 0]);
}

#[test]
fn ipl_rejects_missing_header() {
    let mut buf = vec![0u32; 8];
    let lines: Vec<Vec<u8>> = vec![b"v3.0 raw".to_vec()];
    assert_eq!(
        initial_program_load(&mut buf, &lines),
        Err(IplError::InvalidHeader)
    );
}

#[test]
fn ipl_rejects_empty_input() {
    let mut buf = vec![0u32; 8];
    let lines: Vec<Vec<u8>> = vec![];
    assert_eq!(
        initial_program_load(&mut buf, &lines),
        Err(IplError::UnexpectedEof)
    );
}

#[test]
fn ipl_rejects_bad_count_and_value() {
    let mut buf = vec![0u32; 8];
    let lines: Vec<Vec<u8>> = vec![b"v2.0 raw".to_vec(), b"x*1".to_vec()];
    assert_eq!(
        initial_program_load(&mut buf, &lines),
        Err(IplError::BadCount)
    );
    let lines: Vec<Vec<u8>> = vec![b"v2.0 raw".to_vec(), b"zz".to_vec()];
    assert_eq!(
        initial_program_load(&mut buf, &lines),
        Err(IplError::BadValue)
    );
    let lines: Vec<Vec<u8>> = vec![b"v2.0 raw".to_vec(), b"123456789".to_vec()];
    assert_eq!(
        initial_program_load(&mut buf, &lines),
        Err(IplError::BadValue),
        "values wider than 32 bits overflow"
    );
}

#[test]
fn ipl_rejects_overlong_image() {
    let mut buf = vec![0u32; 2];
    let lines: Vec<Vec<u8>> = vec![b"v2.0 raw".to_vec(), b"3*1".to_vec()];
    assert_eq!(
        initial_program_load(&mut buf, &lines),
        Err(IplError::TooLong)
    );
}

#[test]
fn machine_exception_mcause_values() {
    assert_eq!(MachineException::MisalignedPC.mcause(), 0);
    assert_eq!(MachineException::IllegalInstruction.mcause(), 2);
    assert_eq!(MachineException::EcallFromMmode.mcause(), 11);
    assert_eq!(MachineException::StorePageFault.mcause(), 15);
}

#[test]
fn extension_status_bits_round_trip() {
    for s in [
        ExtensionStatus::Disabled,
        ExtensionStatus::Initialized,
        ExtensionStatus::Clean,
        ExtensionStatus::Dirty,
    ] {
        assert_eq!(ExtensionStatus::from_bits(s.to_bits()), s);
    }
    assert_eq!(ExtensionStatus::from_bits(0x17), ExtensionStatus::Dirty);
}

#[test]
fn host_facing_constants() {
    assert_eq!(VENDOR_ID, 0);
    assert_eq!(ARCH_ID, 45);
    assert_eq!(IMPLEMENTATION_ID, 0x0000_0100);
}
