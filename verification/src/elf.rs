//! ELF32 record parsing: the fixed-size headers a little-endian ELF
//! executable is made of, decoded from raw bytes.
//!
//! Only the record layout lives here. Walking a file — seeking to each
//! header, streaming section contents — is host I/O and stays with the
//! embedder, which hands each record's bytes to these functions.

use vstd::prelude::*;

verus! {

/// The 16-bit little-endian value at byte offset `i`.
pub open spec fn le16_at(bytes: Seq<u8>, i: int) -> u16 {
    ((bytes[i] as u16) | ((bytes[i + 1] as u16) << 8)) as u16
}

/// The 32-bit little-endian value at byte offset `i`.
pub open spec fn le32_at(bytes: Seq<u8>, i: int) -> u32 {
    (bytes[i] as u32) | ((bytes[i + 1] as u32) << 8) | ((bytes[i + 2] as u32) << 16) | ((bytes[i
        + 3] as u32) << 24)
}

/// Why an ELF image was rejected.
#[derive(Clone, Copy, Debug, PartialEq, Eq, Structural)]
pub enum ElfError {
    /// The record is shorter than its fixed layout.
    TooShort,
    /// The file does not begin with the ELF magic number.
    BadMagic,
    /// Not a 32-bit ELF.
    UnsupportedClass,
    /// Not a two's complement little-endian ELF.
    UnsupportedEncoding,
    /// Not a version 1 ELF.
    UnsupportedVersion,
    /// Not an executable ELF.
    NotExecutable,
    /// Not a RISC-V ELF.
    WrongMachine,
    /// The main header declares a size smaller than its own layout.
    HeaderTooSmall,
}

/// The fields of an ELF32 main header, minus the identification bytes.
#[derive(Clone, Copy, Debug, PartialEq, Eq, Structural)]
pub struct ElfHeader {
    pub e_type: u16,
    pub e_machine: u16,
    pub e_version: u32,
    pub e_entry: u32,
    pub e_phoff: u32,
    pub e_shoff: u32,
    pub e_flags: u32,
    pub e_ehsize: u16,
    pub e_phentsize: u16,
    pub e_phnum: u16,
    pub e_shentsize: u16,
    pub e_shnum: u16,
    pub e_shstrndx: u16,
}

/// One ELF32 program header.
#[derive(Clone, Copy, Debug, PartialEq, Eq, Structural)]
pub struct ElfProgramHeader {
    pub p_type: u32,
    pub p_offset: u32,
    pub p_vaddr: u32,
    pub p_paddr: u32,
    pub p_filesz: u32,
    pub p_memsz: u32,
    pub p_flags: u32,
    pub p_align: u32,
}

/// One ELF32 section header.
#[derive(Clone, Copy, Debug, PartialEq, Eq, Structural)]
pub struct ElfSectionHeader {
    pub sh_name: u32,
    pub sh_type: u32,
    pub sh_flags: u32,
    pub sh_addr: u32,
    pub sh_offset: u32,
    pub sh_size: u32,
    pub sh_link: u32,
    pub sh_info: u32,
    pub sh_addralign: u32,
    pub sh_entsize: u32,
}

/// One ELF32 symbol table entry.
#[derive(Clone, Copy, Debug, PartialEq, Eq, Structural)]
pub struct ElfSymbol {
    pub st_name: u32,
    pub st_value: u32,
    pub st_size: u32,
    pub st_info: u8,
    pub st_other: u8,
    pub st_shndx: u16,
}

/// Whether the 52 header bytes carry the identification and type fields
/// this core's embedders accept: a 32-bit little-endian version 1
/// executable for RISC-V, with a main header at least 52 bytes long.
pub open spec fn elf_header_acceptable(b: Seq<u8>) -> bool {
    &&& b[0] == 0x7f && b[1] == 0x45 && b[2] == 0x4c && b[3] == 0x46
    &&& b[4] == 0x01
    &&& b[5] == 0x01
    &&& b[6] == 0x01
    &&& le16_at(b, 16) == 2
    &&& le16_at(b, 18) == 243
    &&& le16_at(b, 40) >= 52
}

/// The 16-bit little-endian value at `i`.
fn le16(bytes: &Vec<u8>, i: usize) -> (r: u16)
    requires
        i + 2 <= bytes@.len(),
    ensures
        r == le16_at(bytes@, i as int),
{
    // Reading the length as a usize bounds the index arithmetic below.
    let _n: usize = bytes.len();
    (bytes[i] as u16) | ((bytes[i + 1] as u16) << 8)
}

/// The 32-bit little-endian value at `i`.
fn le32(bytes: &Vec<u8>, i: usize) -> (r: u32)
    requires
        i + 4 <= bytes@.len(),
    ensures
        r == le32_at(bytes@, i as int),
{
    // Reading the length as a usize bounds the index arithmetic below.
    let _n: usize = bytes.len();
    (bytes[i] as u32) | ((bytes[i + 1] as u32) << 8) | ((bytes[i + 2] as u32) << 16) | ((bytes[i
        + 3] as u32) << 24)
}

/// Parse and validate the 52-byte ELF32 main header.
///
/// Success is owed exactly when the record is long enough and
/// [`elf_header_acceptable`] holds of it; each check that fails is
/// reported with its own error, first failing check first.
pub fn parse_elf_header(bytes: &Vec<u8>) -> (r: Result<ElfHeader, ElfError>)
    ensures
        bytes@.len() < 52 ==> r == Err::<ElfHeader, ElfError>(ElfError::TooShort),
        bytes@.len() >= 52 ==> (r is Ok <==> elf_header_acceptable(bytes@)),
        bytes@.len() >= 52 ==> ({
            let b = bytes@;
            let magic_ok = b[0] == 0x7f && b[1] == 0x45 && b[2] == 0x4c && b[3] == 0x46;
            let class_ok = b[4] == 0x01;
            let data_ok = b[5] == 0x01;
            let version_ok = b[6] == 0x01;
            let type_ok = le16_at(b, 16) == 2;
            let machine_ok = le16_at(b, 18) == 243;
            &&& !magic_ok ==> r == Err::<ElfHeader, ElfError>(ElfError::BadMagic)
            &&& magic_ok && !class_ok ==> r == Err::<ElfHeader, ElfError>(
                ElfError::UnsupportedClass,
            )
            &&& magic_ok && class_ok && !data_ok ==> r == Err::<ElfHeader, ElfError>(
                ElfError::UnsupportedEncoding,
            )
            &&& magic_ok && class_ok && data_ok && !version_ok ==> r == Err::<ElfHeader, ElfError>(
                ElfError::UnsupportedVersion,
            )
            &&& magic_ok && class_ok && data_ok && version_ok && !type_ok ==> r == Err::<
                ElfHeader,
                ElfError,
            >(ElfError::NotExecutable)
            &&& magic_ok && class_ok && data_ok && version_ok && type_ok && !machine_ok ==> r
                == Err::<ElfHeader, ElfError>(ElfError::WrongMachine)
            &&& magic_ok && class_ok && data_ok && version_ok && type_ok && machine_ok && le16_at(
                b,
                40,
            ) < 52 ==> r == Err::<ElfHeader, ElfError>(ElfError::HeaderTooSmall)
        }),
        r matches Ok(h) ==> {
            &&& h.e_type == le16_at(bytes@, 16)
            &&& h.e_machine == le16_at(bytes@, 18)
            &&& h.e_version == le32_at(bytes@, 20)
            &&& h.e_entry == le32_at(bytes@, 24)
            &&& h.e_phoff == le32_at(bytes@, 28)
            &&& h.e_shoff == le32_at(bytes@, 32)
            &&& h.e_flags == le32_at(bytes@, 36)
            &&& h.e_ehsize == le16_at(bytes@, 40)
            &&& h.e_phentsize == le16_at(bytes@, 42)
            &&& h.e_phnum == le16_at(bytes@, 44)
            &&& h.e_shentsize == le16_at(bytes@, 46)
            &&& h.e_shnum == le16_at(bytes@, 48)
            &&& h.e_shstrndx == le16_at(bytes@, 50)
        },
{
    if bytes.len() < 52 {
        return Err(ElfError::TooShort);
    }
    if !(bytes[0] == 0x7f && bytes[1] == 0x45 && bytes[2] == 0x4c && bytes[3] == 0x46) {
        return Err(ElfError::BadMagic);
    }
    if bytes[4] != 0x01 {
        return Err(ElfError::UnsupportedClass);
    }
    if bytes[5] != 0x01 {
        return Err(ElfError::UnsupportedEncoding);
    }
    if bytes[6] != 0x01 {
        return Err(ElfError::UnsupportedVersion);
    }
    let e_type = le16(bytes, 16);
    if e_type != 2 {
        return Err(ElfError::NotExecutable);
    }
    let e_machine = le16(bytes, 18);
    if e_machine != 243 {
        return Err(ElfError::WrongMachine);
    }
    let e_ehsize = le16(bytes, 40);
    if e_ehsize < 52 {
        return Err(ElfError::HeaderTooSmall);
    }
    Ok(
        ElfHeader {
            e_type,
            e_machine,
            e_version: le32(bytes, 20),
            e_entry: le32(bytes, 24),
            e_phoff: le32(bytes, 28),
            e_shoff: le32(bytes, 32),
            e_flags: le32(bytes, 36),
            e_ehsize,
            e_phentsize: le16(bytes, 42),
            e_phnum: le16(bytes, 44),
            e_shentsize: le16(bytes, 46),
            e_shnum: le16(bytes, 48),
            e_shstrndx: le16(bytes, 50),
        },
    )
}

/// Parse one 32-byte ELF32 program header.
pub fn parse_elf_program_header(bytes: &Vec<u8>) -> (r: Result<ElfProgramHeader, ElfError>)
    ensures
        bytes@.len() < 32 ==> r == Err::<ElfProgramHeader, ElfError>(ElfError::TooShort),
        bytes@.len() >= 32 ==> (r matches Ok(h) && {
            &&& h.p_type == le32_at(bytes@, 0)
            &&& h.p_offset == le32_at(bytes@, 4)
            &&& h.p_vaddr == le32_at(bytes@, 8)
            &&& h.p_paddr == le32_at(bytes@, 12)
            &&& h.p_filesz == le32_at(bytes@, 16)
            &&& h.p_memsz == le32_at(bytes@, 20)
            &&& h.p_flags == le32_at(bytes@, 24)
            &&& h.p_align == le32_at(bytes@, 28)
        }),
{
    if bytes.len() < 32 {
        return Err(ElfError::TooShort);
    }
    Ok(
        ElfProgramHeader {
            p_type: le32(bytes, 0),
            p_offset: le32(bytes, 4),
            p_vaddr: le32(bytes, 8),
            p_paddr: le32(bytes, 12),
            p_filesz: le32(bytes, 16),
            p_memsz: le32(bytes, 20),
            p_flags: le32(bytes, 24),
            p_align: le32(bytes, 28),
        },
    )
}

/// Parse one 40-byte ELF32 section header.
pub fn parse_elf_section_header(bytes: &Vec<u8>) -> (r: Result<ElfSectionHeader, ElfError>)
    ensures
        bytes@.len() < 40 ==> r == Err::<ElfSectionHeader, ElfError>(ElfError::TooShort),
        bytes@.len() >= 40 ==> (r matches Ok(h) && {
            &&& h.sh_name == le32_at(bytes@, 0)
            &&& h.sh_type == le32_at(bytes@, 4)
            &&& h.sh_flags == le32_at(bytes@, 8)
            &&& h.sh_addr == le32_at(bytes@, 12)
            &&& h.sh_offset == le32_at(bytes@, 16)
            &&& h.sh_size == le32_at(bytes@, 20)
            &&& h.sh_link == le32_at(bytes@, 24)
            &&& h.sh_info == le32_at(bytes@, 28)
            &&& h.sh_addralign == le32_at(bytes@, 32)
            &&& h.sh_entsize == le32_at(bytes@, 36)
        }),
{
    if bytes.len() < 40 {
        return Err(ElfError::TooShort);
    }
    Ok(
        ElfSectionHeader {
            sh_name: le32(bytes, 0),
            sh_type: le32(bytes, 4),
            sh_flags: le32(bytes, 8),
            sh_addr: le32(bytes, 12),
            sh_offset: le32(bytes, 16),
            sh_size: le32(bytes, 20),
            sh_link: le32(bytes, 24),
            sh_info: le32(bytes, 28),
            sh_addralign: le32(bytes, 32),
            sh_entsize: le32(bytes, 36),
        },
    )
}

/// Parse one 16-byte ELF32 symbol table entry.
pub fn parse_elf_symbol(bytes: &Vec<u8>) -> (r: Result<ElfSymbol, ElfError>)
    ensures
        bytes@.len() < 16 ==> r == Err::<ElfSymbol, ElfError>(ElfError::TooShort),
        bytes@.len() >= 16 ==> (r matches Ok(s) && {
            &&& s.st_name == le32_at(bytes@, 0)
            &&& s.st_value == le32_at(bytes@, 4)
            &&& s.st_size == le32_at(bytes@, 8)
            &&& s.st_info == bytes@[12]
            &&& s.st_other == bytes@[13]
            &&& s.st_shndx == le16_at(bytes@, 14)
        }),
{
    if bytes.len() < 16 {
        return Err(ElfError::TooShort);
    }
    Ok(
        ElfSymbol {
            st_name: le32(bytes, 0),
            st_value: le32(bytes, 4),
            st_size: le32(bytes, 8),
            st_info: bytes[12],
            st_other: bytes[13],
            st_shndx: le16(bytes, 14),
        },
    )
}

} // verus!
