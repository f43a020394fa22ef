use vstd::prelude::*;
use crate::fault::Fault;

verus! {

/// Number of bytes in the address space.
pub const MEMORY_SIZE: usize = 65536;

/// The little-endian word made of four bytes, least significant first.
pub open spec fn word_of_bytes(b0: u8, b1: u8, b2: u8, b3: u8) -> u32 {
    (b0 as int + 0x100 * (b1 as int) + 0x1_0000 * (b2 as int) + 0x100_0000 * (b3 as int)) as u32
}

/// Byte `i` (0 is the least significant) of a word.
pub open spec fn byte_of_word(value: u32, i: int) -> u8 {
    if i == 0 {
        (value as int % 0x100) as u8
    } else if i == 1 {
        (value as int / 0x100 % 0x100) as u8
    } else if i == 2 {
        (value as int / 0x1_0000 % 0x100) as u8
    } else {
        (value as int / 0x100_0000 % 0x100) as u8
    }
}

/// Whether a word access at `addr` stays inside a memory of `len` bytes.
pub open spec fn word_in_bounds(len: int, addr: int) -> bool {
    0 <= addr && addr + 3 < len
}

/// The word stored at `addr`.
pub open spec fn read_word_spec(mem: Seq<u8>, addr: int) -> u32
    recommends
        word_in_bounds(mem.len() as int, addr),
{
    word_of_bytes(mem[addr], mem[addr + 1], mem[addr + 2], mem[addr + 3])
}

/// The memory after storing `value` at `addr`: four bytes change, the rest stays.
pub open spec fn write_word_spec(mem: Seq<u8>, addr: int, value: u32) -> Seq<u8>
    recommends
        word_in_bounds(mem.len() as int, addr),
{
    mem.update(addr, byte_of_word(value, 0)).update(addr + 1, byte_of_word(value, 1)).update(
        addr + 2,
        byte_of_word(value, 2),
    ).update(addr + 3, byte_of_word(value, 3))
}

/// The memory after copying `bytes` to addresses `0..bytes.len()`.
pub open spec fn load_spec(mem: Seq<u8>, bytes: Seq<u8>) -> Seq<u8>
    recommends
        bytes.len() <= mem.len(),
{
    Seq::new(mem.len(), |i: int| if i < bytes.len() { bytes[i] } else { mem[i] })
}

/// Splitting a word into its four bytes and putting them together again gives the word back.
pub proof fn lemma_word_bytes_round_trip(value: u32)
    ensures
        word_of_bytes(
            byte_of_word(value, 0),
            byte_of_word(value, 1),
            byte_of_word(value, 2),
            byte_of_word(value, 3),
        ) == value,
{
}

/// Putting four bytes together and splitting the word again gives the bytes back.
pub proof fn lemma_bytes_word_round_trip(b0: u8, b1: u8, b2: u8, b3: u8)
    ensures
        byte_of_word(word_of_bytes(b0, b1, b2, b3), 0) == b0,
        byte_of_word(word_of_bytes(b0, b1, b2, b3), 1) == b1,
        byte_of_word(word_of_bytes(b0, b1, b2, b3), 2) == b2,
        byte_of_word(word_of_bytes(b0, b1, b2, b3), 3) == b3,
{
}

/// A word written at any valid address is read back unchanged.
pub proof fn lemma_write_then_read_word(mem: Seq<u8>, addr: int, value: u32)
    requires
        word_in_bounds(mem.len() as int, addr),
    ensures
        read_word_spec(write_word_spec(mem, addr, value), addr) == value,
        write_word_spec(mem, addr, value).len() == mem.len(),
{
    lemma_word_bytes_round_trip(value);
}

/// A word write leaves every byte outside its four addresses as it was.
pub proof fn lemma_write_word_frame(mem: Seq<u8>, addr: int, value: u32, other: int)
    requires
        word_in_bounds(mem.len() as int, addr),
        0 <= other < mem.len(),
        other < addr || other > addr + 3,
    ensures
        write_word_spec(mem, addr, value)[other] == mem[other],
{
}

/// Flat byte-addressable store of `MEMORY_SIZE` bytes.
pub struct MemoryManagementUnit {
    memory: Vec<u8>,
}

impl View for MemoryManagementUnit {
    type V = Seq<u8>;

    closed spec fn view(&self) -> Seq<u8> {
        self.memory@
    }
}

impl MemoryManagementUnit {
    #[verifier::type_invariant]
    spec fn well_formed(&self) -> bool {
        self.memory@.len() == MEMORY_SIZE
    }

    /// A memory of `MEMORY_SIZE` zero bytes.
    pub fn new() -> (mmu: Self)
        ensures
            mmu@ == Seq::new(MEMORY_SIZE as nat, |i: int| 0u8),
            mmu@.len() == MEMORY_SIZE,
    {
        let mut memory: Vec<u8> = Vec::new();
        while memory.len() < MEMORY_SIZE
            invariant
                memory@.len() <= MEMORY_SIZE,
                forall|i: int| 0 <= i < memory@.len() ==> memory@[i] == 0u8,
            decreases MEMORY_SIZE - memory@.len(),
        {
            memory.push(0u8);
        }
        assert(memory@ =~= Seq::new(MEMORY_SIZE as nat, |i: int| 0u8));
        MemoryManagementUnit { memory }
    }

    /// The number of bytes in the store.
    pub fn capacity(&self) -> (size: usize)
        ensures
            size == MEMORY_SIZE,
            self@.len() == MEMORY_SIZE,
    {
        proof {
            use_type_invariant(&*self);
        }
        self.memory.len()
    }

    /// Reads the byte at `address`.
    pub fn read_byte(&self, address: usize) -> (r: Result<u8, Fault>)
        ensures
            self@.len() == MEMORY_SIZE,
            address < MEMORY_SIZE ==> r == Ok::<u8, Fault>(self@[address as int]),
            address >= MEMORY_SIZE ==> r == Err::<u8, Fault>(Fault::OutOfBounds),
    {
        proof {
            use_type_invariant(&*self);
        }
        if address < MEMORY_SIZE {
            Ok(self.memory[address])
        } else {
            Err(Fault::OutOfBounds)
        }
    }

    /// Overwrites the byte at `address`, and nothing else.
    pub fn write_byte(&mut self, address: usize, value: u8) -> (r: Result<(), Fault>)
        ensures
            final(self)@.len() == MEMORY_SIZE,
            address < MEMORY_SIZE ==> r == Ok::<(), Fault>(()) && final(self)@ == old(self)@.update(
                address as int,
                value,
            ),
            address >= MEMORY_SIZE ==> r == Err::<(), Fault>(Fault::OutOfBounds) && final(self)@
                == old(self)@,
    {
        proof {
            use_type_invariant(&*self);
        }
        if address < MEMORY_SIZE {
            self.memory[address] = value;
            Ok(())
        } else {
            Err(Fault::OutOfBounds)
        }
    }

    /// Reads the little-endian word whose least significant byte is at `address`.
    pub fn read_word(&self, address: usize) -> (r: Result<u32, Fault>)
        ensures
            self@.len() == MEMORY_SIZE,
            word_in_bounds(MEMORY_SIZE as int, address as int) ==> r == Ok::<u32, Fault>(
                read_word_spec(self@, address as int),
            ),
            !word_in_bounds(MEMORY_SIZE as int, address as int) ==> r == Err::<u32, Fault>(
                Fault::OutOfBounds,
            ),
    {
        proof {
            use_type_invariant(&*self);
        }
        if address < MEMORY_SIZE - 3 {
            let b0: u32 = self.memory[address] as u32;
            let b1: u32 = self.memory[address + 1] as u32;
            let b2: u32 = self.memory[address + 2] as u32;
            let b3: u32 = self.memory[address + 3] as u32;
            Ok(b0 + 0x100 * b1 + 0x1_0000 * b2 + 0x100_0000 * b3)
        } else {
            Err(Fault::OutOfBounds)
        }
    }

    /// Writes `value` as four little-endian bytes starting at `address`.
    pub fn write_word(&mut self, address: usize, value: u32) -> (r: Result<(), Fault>)
        ensures
            final(self)@.len() == MEMORY_SIZE,
            word_in_bounds(MEMORY_SIZE as int, address as int) ==> r == Ok::<(), Fault>(())
                && final(self)@ == write_word_spec(old(self)@, address as int, value),
            !word_in_bounds(MEMORY_SIZE as int, address as int) ==> r == Err::<(), Fault>(
                Fault::OutOfBounds,
            ) && final(self)@ == old(self)@,
    {
        proof {
            use_type_invariant(&*self);
        }
        if address < MEMORY_SIZE - 3 {
            self.memory[address] = (value % 0x100) as u8;
            self.memory[address + 1] = (value / 0x100 % 0x100) as u8;
            self.memory[address + 2] = (value / 0x1_0000 % 0x100) as u8;
            self.memory[address + 3] = (value / 0x100_0000 % 0x100) as u8;
            Ok(())
        } else {
            Err(Fault::OutOfBounds)
        }
    }

    /// Copies `bytes` to addresses `0..bytes.len()`; the rest of the memory stays.
    /// An image longer than the memory is refused and nothing is written.
    pub fn load_program(&mut self, bytes: &[u8]) -> (r: Result<(), Fault>)
        ensures
            final(self)@.len() == MEMORY_SIZE,
            bytes@.len() <= MEMORY_SIZE ==> r == Ok::<(), Fault>(()) && final(self)@ == load_spec(
                old(self)@,
                bytes@,
            ),
            bytes@.len() > MEMORY_SIZE ==> r == Err::<(), Fault>(Fault::OutOfBounds) && final(self)@
                == old(self)@,
    {
        proof {
            use_type_invariant(&*self);
        }
        let n: usize = bytes.len();
        if n > MEMORY_SIZE {
            return Err(Fault::OutOfBounds);
        }
        let mut i: usize = 0;
        while i < n
            invariant
                n == bytes@.len(),
                n <= MEMORY_SIZE,
                i <= n,
                self.memory@.len() == MEMORY_SIZE,
                forall|j: int| 0 <= j < i ==> self.memory@[j] == bytes@[j],
                forall|j: int| i <= j < MEMORY_SIZE ==> self.memory@[j] == old(self).memory@[j],
            decreases n - i,
        {
            self.memory[i] = bytes[i];
            i += 1;
        }
        assert(self.memory@ =~= load_spec(old(self)@, bytes@));
        Ok(())
    }
}

} // verus!
