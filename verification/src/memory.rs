//! A plain random-access memory behind the [`Bus`] trait: a zero-filled
//! byte buffer mapping the addresses below its size, all of them writable.

use vstd::prelude::*;

use crate::error::BusError;
use crate::mos6502::Bus;

verus! {

/// A flat byte memory. Addresses below the buffer's length are mapped and
/// writable; all others refuse both reads and writes.
#[derive(Clone)]
pub struct Ram {
    size: usize,
    buffer: Vec<u8>,
}

impl Ram {
    /// How many bytes the memory maps; addresses from here up are unmapped.
    pub closed spec fn spec_size(&self) -> int {
        self.buffer@.len() as int
    }

    /// A zero-filled memory of `size` bytes. Only the first 65536 bytes can
    /// ever be addressed over the 16-bit bus.
    pub fn new(size: usize) -> (ram: Ram)
        ensures
            ram.spec_size() == size,
            forall|a: u16| ram.mem().dom().contains(a) <==> (a as int) < size,
            forall|a: u16| (a as int) < size ==> ram.mem()[a] == 0u8,
            forall|a: u16| ram.writable().contains(a) <==> (a as int) < size,
    {
        let mut buffer: Vec<u8> = Vec::new();
        while buffer.len() < size
            invariant
                buffer@.len() <= size,
                forall|i: int| 0 <= i < buffer@.len() ==> buffer@[i] == 0u8,
            decreases size - buffer@.len(),
        {
            buffer.push(0);
        }
        Ram { size, buffer }
    }
}

impl Bus for Ram {
    closed spec fn mem(&self) -> Map<u16, u8> {
        Map::new(|a: u16| (a as int) < self.buffer@.len(), |a: u16| self.buffer@[a as int])
    }

    closed spec fn writable(&self) -> Set<u16> {
        Set::new(|a: u16| (a as int) < self.buffer@.len())
    }

    fn read(&mut self, address: u16) -> (r: Result<u8, BusError>) {
        if (address as usize) < self.buffer.len() {
            Ok(self.buffer[address as usize])
        } else {
            Err(BusError::InvalidRead(address))
        }
    }

    fn write(&mut self, address: u16, value: u8) -> (r: Result<(), BusError>) {
        if (address as usize) < self.buffer.len() {
            self.buffer.set(address as usize, value);
            proof {
                assert(self.mem() =~= old(self).mem().insert(address, value));
                assert(self.writable() =~= old(self).writable());
            }
            Ok(())
        } else {
            Err(BusError::InvalidWrite(address))
        }
    }
}

} // verus!
