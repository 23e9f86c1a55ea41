//! A flat word-addressed RAM execution environment.
//!
//! Addresses `0 .. 4 * word_count` are backed by RAM; every other address
//! faults. One load-reserved reservation is tracked, and any overlapping
//! word write invalidates it.

use vstd::prelude::*;

use crate::env::{
    ExecutionEnvironment, byte_lane_mask, byte_of_word, byte_splat, extract_byte, lane_mask,
    masked, splat,
};
use crate::exception::MemoryAccessFailure;

verus! {

/// The byte that `address` refers to within word-addressed memory.
pub open spec fn byte_in_mem(mem: Seq<u32>, address: u32) -> u8 {
    byte_of_word(mem[(address >> 2) as int], address)
}

/// Word-addressed memory with the byte at `address` replaced by `b`.
pub open spec fn mem_with_byte(mem: Seq<u32>, address: u32, b: u8) -> Seq<u32> {
    mem.update((address >> 2) as int, masked(mem[(address >> 2) as int], splat(b), lane_mask(address)))
}

/// The result of a word read: unaligned addresses fault, in-range aligned
/// addresses read, everything else is an access fault.
pub open spec fn read_word_result(mem: Seq<u32>, address: u32) -> Result<u32, MemoryAccessFailure> {
    if address & 3 != 0 {
        Err(MemoryAccessFailure::Unaligned)
    } else if (address >> 2) < mem.len() {
        Ok(mem[(address >> 2) as int])
    } else {
        Err(MemoryAccessFailure::AccessFault)
    }
}

/// The state transition of a masked word write: the new memory, the new
/// reservation, and the result. A write to the reserved address clears the
/// reservation even when the write itself faults.
pub open spec fn write_word_spec(
    mem: Seq<u32>,
    resv: Option<u32>,
    address: u32,
    data: u32,
    mask: u32,
) -> (Seq<u32>, Option<u32>, Result<(), MemoryAccessFailure>) {
    if address & 3 != 0 {
        (mem, resv, Err(MemoryAccessFailure::Unaligned))
    } else {
        let resv2: Option<u32> = if resv == Some(address) {
            None
        } else {
            resv
        };
        if (address >> 2) < mem.len() {
            (
                mem.update((address >> 2) as int, masked(mem[(address >> 2) as int], data, mask)),
                resv2,
                Ok(()),
            )
        } else {
            (mem, resv2, Err(MemoryAccessFailure::AccessFault))
        }
    }
}

/// The state transition of a load-reserved: on success the word is read
/// and the reservation is set to its address.
pub open spec fn lr_spec(mem: Seq<u32>, resv: Option<u32>, address: u32) -> (
    Option<u32>,
    Result<u32, MemoryAccessFailure>,
) {
    if address & 3 != 0 {
        (resv, Err(MemoryAccessFailure::Unaligned))
    } else if (address >> 2) < mem.len() {
        (Some(address), Ok(mem[(address >> 2) as int]))
    } else {
        (resv, Err(MemoryAccessFailure::AccessFault))
    }
}

/// The state transition of a store-conditional: it writes only if the
/// reservation matches the address, reports success as a flag, and always
/// clears the reservation.
pub open spec fn sc_spec(mem: Seq<u32>, resv: Option<u32>, address: u32, data: u32) -> (
    Seq<u32>,
    Option<u32>,
    Result<bool, MemoryAccessFailure>,
) {
    if address & 3 != 0 {
        (mem, resv, Err(MemoryAccessFailure::Unaligned))
    } else if resv != Some(address) {
        (mem, None, Ok(false))
    } else if (address >> 2) < mem.len() {
        (mem.update((address >> 2) as int, data), None, Ok(true))
    } else {
        (mem, None, Err(MemoryAccessFailure::AccessFault))
    }
}

/// A flat RAM environment: `word_count` words of zero-initialized memory
/// and one load-reserved reservation.
pub struct FlatMemory {
    ram: Vec<u32>,
    reserved: Option<u32>,
}

/// A lane shift, eight times the low two address bits, is a legal 32-bit
/// shift amount.
proof fn lemma_lane_shift(address: u32)
    by (bit_vector)
    ensures
        (address & 3) << 3 < 32u32,
        (address & !3) & 3 == 0u32,
        (address & !3) >> 2 == address >> 2,
        (address & !3) & 3 == 0 ==> ((address & !3) & 3) << 3 == 0u32,
{
}

impl FlatMemory {
    /// The memory contents, one 32-bit word per address multiple of four.
    pub closed spec fn mem(&self) -> Seq<u32> {
        self.ram@
    }

    /// The current load-reserved reservation, if any.
    pub closed spec fn reservation(&self) -> Option<u32> {
        self.reserved
    }

    /// A zeroed RAM of `word_count` words with no reservation.
    pub fn new(word_count: usize) -> (r: FlatMemory)
        ensures
            r.mem().len() == word_count,
            forall|i: int| 0 <= i < word_count ==> r.mem()[i] == 0,
            r.reservation() is None,
    {
        let mut ram: Vec<u32> = Vec::new();
        let mut i: usize = 0;
        while i < word_count
            invariant
                i <= word_count,
                ram@.len() == i,
                forall|j: int| 0 <= j < i ==> ram@[j] == 0,
            decreases word_count - i,
        {
            ram.push(0);
            i = i + 1;
        }
        FlatMemory { ram, reserved: None }
    }

    /// How many words of RAM are present.
    pub fn word_count(&self) -> (r: usize)
        ensures
            r == self.mem().len(),
    {
        self.ram.len()
    }

    /// Read RAM directly by word index, without touching the reservation.
    pub fn ram_word(&self, index: usize) -> (r: u32)
        requires
            index < self.mem().len(),
        ensures
            r == self.mem()[index as int],
    {
        self.ram[index]
    }

    /// Overwrite RAM directly by word index, e.g. to load a program image.
    /// The reservation is left alone.
    pub fn set_ram_word(&mut self, index: usize, value: u32)
        requires
            index < old(self).mem().len(),
        ensures
            final(self).mem() == old(self).mem().update(index as int, value),
            final(self).reservation() == old(self).reservation(),
    {
        self.ram.set(index, value);
    }
}

impl ExecutionEnvironment for FlatMemory {
    fn read_word(&mut self, address: u32, mask: u32) -> (r: Result<u32, MemoryAccessFailure>)
        ensures
            final(self).mem() == old(self).mem(),
            final(self).reservation() == old(self).reservation(),
            r == read_word_result(old(self).mem(), address),
    {
        if address & 3 != 0 {
            return Err(MemoryAccessFailure::Unaligned);
        }
        let index = (address >> 2) as usize;
        if index < self.ram.len() {
            Ok(self.ram[index])
        } else {
            Err(MemoryAccessFailure::AccessFault)
        }
    }

    fn write_word(&mut self, address: u32, data: u32, mask: u32) -> (r: Result<
        (),
        MemoryAccessFailure,
    >)
        ensures
            (final(self).mem(), final(self).reservation(), r) == write_word_spec(
                old(self).mem(),
                old(self).reservation(),
                address,
                data,
                mask,
            ),
    {
        if address & 3 != 0 {
            return Err(MemoryAccessFailure::Unaligned);
        }
        let clear = match self.reserved {
            Some(a) => a == address,
            None => false,
        };
        if clear {
            self.reserved = None;
        }
        let index = (address >> 2) as usize;
        if index < self.ram.len() {
            let old_word = self.ram[index];
            self.ram.set(index, (old_word & !mask) | (data & mask));
            Ok(())
        } else {
            Err(MemoryAccessFailure::AccessFault)
        }
    }

    fn load_reserved_word(&mut self, address: u32) -> (r: Result<u32, MemoryAccessFailure>)
        ensures
            final(self).mem() == old(self).mem(),
            (final(self).reservation(), r) == lr_spec(
                old(self).mem(),
                old(self).reservation(),
                address,
            ),
    {
        if address & 3 != 0 {
            return Err(MemoryAccessFailure::Unaligned);
        }
        let index = (address >> 2) as usize;
        if index < self.ram.len() {
            self.reserved = Some(address);
            Ok(self.ram[index])
        } else {
            Err(MemoryAccessFailure::AccessFault)
        }
    }

    fn store_reserved_word(&mut self, address: u32, data: u32) -> (r: Result<
        bool,
        MemoryAccessFailure,
    >)
        ensures
            (final(self).mem(), final(self).reservation(), r) == sc_spec(
                old(self).mem(),
                old(self).reservation(),
                address,
                data,
            ),
    {
        if address & 3 != 0 {
            return Err(MemoryAccessFailure::Unaligned);
        }
        let matches_reservation = match self.reserved {
            Some(a) => a == address,
            None => false,
        };
        self.reserved = None;
        if !matches_reservation {
            return Ok(false);
        }
        let index = (address >> 2) as usize;
        if index < self.ram.len() {
            self.ram.set(index, data);
            Ok(true)
        } else {
            Err(MemoryAccessFailure::AccessFault)
        }
    }

    fn read_byte(&mut self, address: u32) -> (r: Result<u8, MemoryAccessFailure>)
        ensures
            final(self).mem() == old(self).mem(),
            final(self).reservation() == old(self).reservation(),
            (address >> 2) < old(self).mem().len() ==> r == Ok::<u8, MemoryAccessFailure>(
                byte_in_mem(old(self).mem(), address),
            ),
            (address >> 2) >= old(self).mem().len() ==> r == Err::<u8, MemoryAccessFailure>(
                MemoryAccessFailure::AccessFault,
            ),
    {
        proof {
            lemma_lane_shift(address);
        }
        let word = match self.read_word(address & !3, byte_lane_mask(address)) {
            Ok(w) => w,
            Err(e) => {
                return Err(e);
            },
        };
        Ok(extract_byte(word, address))
    }

    fn write_byte(&mut self, address: u32, data: u8) -> (r: Result<(), MemoryAccessFailure>)
        ensures
            (address >> 2) < old(self).mem().len() ==> {
                &&& r == Ok::<(), MemoryAccessFailure>(())
                &&& final(self).mem() == mem_with_byte(old(self).mem(), address, data)
            },
            (address >> 2) >= old(self).mem().len() ==> {
                &&& r == Err::<(), MemoryAccessFailure>(MemoryAccessFailure::AccessFault)
                &&& final(self).mem() == old(self).mem()
            },
            final(self).reservation() == (if old(self).reservation() == Some(address & !3) {
                None
            } else {
                old(self).reservation()
            }),
    {
        proof {
            lemma_lane_shift(address);
        }
        self.write_word(address & !3, byte_splat(data), byte_lane_mask(address))
    }
}

/// Writing a byte and reading it back at the same address yields the byte
/// just written, whatever lane of its word the address selects.
pub proof fn lemma_byte_write_read(mem: Seq<u32>, address: u32, b: u8)
    requires
        (address >> 2) < mem.len(),
    ensures
        byte_in_mem(mem_with_byte(mem, address, b), address) == b,
{
    let w = mem[(address >> 2) as int];
    assert(((masked(w, splat(b), 0xffu32 << ((address & 3) << 3)) >> ((address & 3) << 3)) & 0xff)
        as u8 == b) by (bit_vector);
}

/// The load-reserved / store-conditional lifecycle: after a load-reserved
/// of an in-range aligned address, a store-conditional to it succeeds
/// exactly once and writes the word; a second store-conditional fails, and
/// so does one separated from the load-reserved by any word write to that
/// address.
pub proof fn lemma_lr_sc_lifecycle(
    mem: Seq<u32>,
    resv: Option<u32>,
    address: u32,
    d1: u32,
    d2: u32,
    wd: u32,
    wm: u32,
)
    requires
        address & 3 == 0,
        (address >> 2) < mem.len(),
    ensures
        ({
            let (resv1, r1) = lr_spec(mem, resv, address);
            &&& r1 == Ok::<u32, MemoryAccessFailure>(mem[(address >> 2) as int])
            &&& resv1 == Some(address)
            &&& {
                let (mem2, resv2, r2) = sc_spec(mem, resv1, address, d1);
                &&& r2 == Ok::<bool, MemoryAccessFailure>(true)
                &&& mem2 == mem.update((address >> 2) as int, d1)
                &&& sc_spec(mem2, resv2, address, d2).2 == Ok::<bool, MemoryAccessFailure>(false)
                &&& sc_spec(mem2, resv2, address, d2).0 == mem2
            }
            &&& {
                let (mem3, resv3, r3) = write_word_spec(mem, resv1, address, wd, wm);
                &&& resv3 is None
                &&& sc_spec(mem3, resv3, address, d1).2 == Ok::<bool, MemoryAccessFailure>(false)
                &&& sc_spec(mem3, resv3, address, d1).0 == mem3
            }
        }),
{
}

} // verus!
