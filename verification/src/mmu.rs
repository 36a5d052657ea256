//! Byte-addressed memory with whole-word access, and a flat memory unit
//! that implements it.
use vstd::prelude::*;

verus! {

/// A byte-addressed memory. `contents` maps each address the memory serves
/// to the byte a read there returns; `write_spec` says what a write does to
/// the contents.
pub trait Memory {
    spec fn contents(&self) -> Map<u16, u8>;

    spec fn write_spec(contents: Map<u16, u8>, address: u16, data: u8) -> Map<u16, u8>;

    fn mem_read(&self, address: u16) -> (r: u8)
        requires
            self.contents().contains_key(address),
        ensures
            r == self.contents()[address],
    ;

    /// The little-endian word at `address` and `address + 1`.
    fn mem_read_16(&self, address: u16) -> (r: u16)
        requires
            address < 0xFFFF,
            self.contents().contains_key(address),
            self.contents().contains_key((address + 1) as u16),
        ensures
            r == self.contents()[address] + 256 * self.contents()[(address + 1) as u16],
    {
        let lo = self.mem_read(address) as u16;
        let hi = self.mem_read(address + 1) as u16;
        proof {
            crate::bits::lemma_word_join(hi as u8, lo as u8);
        }
        hi << 8 | lo
    }

    fn mem_write(&mut self, address: u16, data: u8)
        requires
            old(self).contents().contains_key(address),
        ensures
            final(self).contents() == Self::write_spec(old(self).contents(), address, data),
            final(self).contents().dom() == old(self).contents().dom(),
    ;

    /// Writes `data` little-endian at `address` and `address + 1`.
    fn mem_write_16(&mut self, address: u16, data: u16)
        requires
            address < 0xFFFF,
            old(self).contents().contains_key(address),
            old(self).contents().contains_key((address + 1) as u16),
        ensures
            final(self).contents() == Self::write_spec(
                Self::write_spec(old(self).contents(), address, (data % 256) as u8),
                (address + 1) as u16,
                (data / 256) as u8,
            ),
            final(self).contents().dom() == old(self).contents().dom(),
    {
        proof {
            crate::bits::lemma_word_split(data);
        }
        let hi = (data >> 8) as u8;
        let lo = (data & 0xff) as u8;
        self.mem_write(address, lo);
        self.mem_write(address + 1, hi);
    }
}

/// A flat memory: the interrupt registers IF (0xFF0F) and IE (0xFFFF) and
/// RAM for every other address.
pub struct Mmu {
    pub interrupt_flag: u8,
    pub interrupt_enable: u8,
    pub memory: Vec<u8>,
}

impl Mmu {
    /// The memory unit's invariant: RAM covers the addresses below 0xFFFF.
    pub open spec fn wf(self) -> bool {
        self.memory@.len() == 0xFFFF
    }

    /// The byte at `address`.
    pub open spec fn byte(self, address: u16) -> u8 {
        if address == 0xFF0F {
            self.interrupt_flag
        } else if address == 0xFFFF {
            self.interrupt_enable
        } else {
            self.memory@[address as int]
        }
    }

    /// Everything cleared.
    pub fn new() -> (r: Mmu)
        ensures
            r.wf(),
            forall|a: u16| r.byte(a) == 0,
    {
        Mmu { interrupt_flag: 0, interrupt_enable: 0, memory: vec![0; 0xFFFF] }
    }
}

impl Memory for Mmu {
    /// Every address, when the memory unit is well formed.
    open spec fn contents(&self) -> Map<u16, u8> {
        Map::new(|a: u16| self.wf(), |a: u16| self.byte(a))
    }

    open spec fn write_spec(contents: Map<u16, u8>, address: u16, data: u8) -> Map<u16, u8> {
        contents.insert(address, data)
    }

    fn mem_read(&self, address: u16) -> (r: u8) {
        match address {
            0xFF0F => self.interrupt_flag,
            0xFFFF => self.interrupt_enable,
            _ => self.memory[address as usize],
        }
    }

    fn mem_write(&mut self, address: u16, data: u8) {
        match address {
            0xFF0F => self.interrupt_flag = data,
            0xFFFF => self.interrupt_enable = data,
            _ => self.memory.set(address as usize, data),
        }
        assert(self.contents() =~= old(self).contents().insert(address, data));
    }
}

/// A read of the flat memory gives back the last byte written at that
/// address, and a write changes no other address.
pub proof fn lemma_mmu_read_after_write(m: Map<u16, u8>, address: u16, other: u16, data: u8)
    ensures
        <Mmu as Memory>::write_spec(m, address, data)[address] == data,
        other != address ==> <Mmu as Memory>::write_spec(m, address, data)[other] == m[other],
{
}

} // verus!
