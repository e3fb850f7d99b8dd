//! A flat, zero-initialised, byte-addressable store of fixed size.
use vstd::prelude::*;

use crate::error::CpuError;

verus! {

/// Number of bytes of memory.
pub const MEMORY_SIZE: usize = 8192;

/// Reading `address` from memory whose bytes are `mem`; an address past the
/// capacity is a fault.
pub open spec fn load(mem: Seq<u8>, address: u16) -> Result<u8, CpuError> {
    if (address as int) < MEMORY_SIZE {
        Ok(mem[address as int])
    } else {
        Err(CpuError::MemoryOutOfBounds { address })
    }
}

/// Writing `value` at `address`; an address past the capacity is a fault.
pub open spec fn store(mem: Seq<u8>, address: u16, value: u8) -> Result<Seq<u8>, CpuError> {
    if (address as int) < MEMORY_SIZE {
        Ok(mem.update(address as int, value))
    } else {
        Err(CpuError::MemoryOutOfBounds { address })
    }
}

pub struct Memory {
    pub memory: [u8; 8192],
}

impl Memory {
    /// The bytes, in address order.
    pub open spec fn bytes(&self) -> Seq<u8> {
        self.memory@
    }

    pub fn new() -> (m: Memory)
        ensures
            m.bytes() == Seq::new(MEMORY_SIZE as nat, |i: int| 0u8),
    {
        let m = Memory { memory: [0u8; 8192] };
        assert(m.bytes() =~= Seq::new(MEMORY_SIZE as nat, |i: int| 0u8));
        m
    }

    pub fn get_value_at_memory_address(&self, memory_address: u16) -> (r: u8)
        requires
            (memory_address as int) < MEMORY_SIZE,
        ensures
            r == self.bytes()[memory_address as int],
    {
        self.memory[memory_address as usize]
    }

    pub fn set_value_at_memory_address(&mut self, memory_address: u16, value: u8)
        requires
            (memory_address as int) < MEMORY_SIZE,
        ensures
            final(self).bytes() == old(self).bytes().update(memory_address as int, value),
    {
        self.memory[memory_address as usize] = value;
    }

    /// Reads a byte, reporting an address past the capacity.
    pub fn load(&self, address: u16) -> (r: Result<u8, CpuError>)
        ensures
            r == load(self.bytes(), address),
    {
        if (address as usize) < MEMORY_SIZE {
            Ok(self.get_value_at_memory_address(address))
        } else {
            Err(CpuError::MemoryOutOfBounds { address })
        }
    }

    /// Writes a byte, reporting an address past the capacity; on a fault
    /// nothing is written.
    pub fn store(&mut self, address: u16, value: u8) -> (r: Result<(), CpuError>)
        ensures
            match store(old(self).bytes(), address, value) {
                Ok(mem) => r is Ok && final(self).bytes() == mem,
                Err(e) => r == Err::<(), CpuError>(e) && final(self).bytes() == old(self).bytes(),
            },
    {
        if (address as usize) < MEMORY_SIZE {
            self.set_value_at_memory_address(address, value);
            Ok(())
        } else {
            Err(CpuError::MemoryOutOfBounds { address })
        }
    }
}

impl Default for Memory {
    fn default() -> (m: Memory)
        ensures
            m.bytes() == Seq::new(MEMORY_SIZE as nat, |i: int| 0u8),
    {
        Memory::new()
    }
}

} // verus!
