//! The 64 KiB address space: byte cells and little-endian words, with
//! addresses that wrap modulo 65536.

use vstd::prelude::*;

verus! {

/// The address that follows `addr`, wrapping from 0xFFFF to 0.
pub open spec fn next_addr(addr: u16) -> u16 {
    if addr == 0xFFFF {
        0
    } else {
        (addr + 1) as u16
    }
}

/// The 16-bit word with low byte `lo` and high byte `hi`.
pub open spec fn word_of(lo: u8, hi: u8) -> u16 {
    (lo as int + 256 * (hi as int)) as u16
}

pub open spec fn low_byte(word: u16) -> u8 {
    (word % 256) as u8
}

pub open spec fn high_byte(word: u16) -> u8 {
    (word / 256) as u8
}

/// The little-endian word stored at `addr` and the address after it.
pub open spec fn read_word(mem: Seq<u8>, addr: u16) -> u16 {
    word_of(mem[addr as int], mem[next_addr(addr) as int])
}

/// `mem` with `word` stored little-endian at `addr` and the address after it.
pub open spec fn write_word(mem: Seq<u8>, addr: u16, word: u16) -> Seq<u8> {
    mem.update(addr as int, low_byte(word)).update(next_addr(addr) as int, high_byte(word))
}

/// A word written at any address, the last one included, is the word read
/// back from that address.
pub proof fn lemma_word_round_trip(mem: Seq<u8>, addr: u16, word: u16)
    requires
        mem.len() == 65536,
    ensures
        read_word(write_word(mem, addr, word), addr) == word,
        write_word(mem, addr, word).len() == 65536,
{
}

/// Writing a word changes no cell but the two it occupies.
pub proof fn lemma_word_write_is_local(mem: Seq<u8>, addr: u16, word: u16, other: u16)
    requires
        mem.len() == 65536,
        other != addr,
        other != next_addr(addr),
    ensures
        write_word(mem, addr, word)[other as int] == mem[other as int],
{
}

/// Flat byte-addressable memory of 65536 cells.
pub struct Memory {
    cells: [u8; 65536],
}

impl Memory {
    /// The cells in address order.
    pub closed spec fn view(&self) -> Seq<u8> {
        self.cells@
    }

    /// Every memory has exactly 65536 cells.
    pub proof fn lemma_size(&self)
        ensures
            self@.len() == 65536,
    {
    }

    /// Memory with every cell zero.
    pub fn new() -> (r: Memory)
        ensures
            r@ =~= Seq::new(65536, |i: int| 0u8),
    {
        Memory { cells: [0u8; 65536] }
    }

    pub fn read(&self, addr: u16) -> (r: u8)
        ensures
            r == self@[addr as int],
    {
        self.cells[addr as usize]
    }

    pub fn write(&mut self, addr: u16, data: u8)
        ensures
            final(self)@ == old(self)@.update(addr as int, data),
    {
        self.cells[addr as usize] = data;
    }

    /// Reads the low byte at `addr` and the high byte at the next address.
    pub fn read_u16(&self, addr: u16) -> (r: u16)
        ensures
            r == read_word(self@, addr),
    {
        let lo: u8 = self.read(addr);
        let hi: u8 = self.read(addr.wrapping_add(1));
        (lo as u16) + 256 * (hi as u16)
    }

    /// Writes the low byte at `addr`, then the high byte at the next address.
    pub fn write_u16(&mut self, addr: u16, data: u16)
        ensures
            final(self)@ == write_word(old(self)@, addr, data),
            read_word(final(self)@, addr) == data,
    {
        let lo: u8 = (data % 256) as u8;
        let hi: u8 = (data / 256) as u8;
        self.write(addr, lo);
        self.write(addr.wrapping_add(1), hi);
    }
}

} // verus!
