//! The system bus: a flat byte-addressed memory with a fixed per-access
//! timing cost. Accesses outside the mapped range fail with a reportable bus
//! error instead of faulting; 16-bit accesses are little-endian.

use vstd::prelude::*;

verus! {

/// A failed bus access.
#[derive(Clone, Copy, Debug, PartialEq, Eq, Structural)]
pub enum BusError {
    /// The address (or, for a 16-bit access, its second byte) lies outside
    /// the mapped range.
    OutOfRange,
}

/// The 16-bit word two adjacent memory bytes hold, little-endian.
pub open spec fn word_of(lo: u8, hi: u8) -> u16 {
    (lo + hi * 0x100) as u16
}

/// A flat memory bus. Every access reports the same timing cost, fixed at
/// construction, which callers propagate for cycle accounting.
pub struct Bus {
    pub mem: Vec<u8>,
    pub access_cost: u32,
}

impl Bus {
    /// A bus mapping `size` zeroed bytes, reporting `access_cost` per access.
    pub fn new(size: usize, access_cost: u32) -> (r: Bus)
        ensures
            r.mem@.len() == size,
            forall|i: int| 0 <= i < size ==> r.mem@[i] == 0u8,
            r.access_cost == access_cost,
    {
        let mut mem: Vec<u8> = Vec::new();
        let mut i: usize = 0;
        while i < size
            invariant
                i <= size,
                mem@.len() == i,
                forall|j: int| 0 <= j < i ==> mem@[j] == 0u8,
            decreases size - i,
        {
            mem.push(0);
            i = i + 1;
        }
        Bus { mem, access_cost }
    }

    /// Reads one byte, returning it with the access cost, or a bus error
    /// when the address is unmapped.
    pub fn read_u8(&self, address: usize) -> (r: Result<(u8, u32), BusError>)
        ensures
            address < self.mem@.len() ==> r == Ok::<(u8, u32), BusError>(
                (self.mem@[address as int], self.access_cost),
            ),
            address >= self.mem@.len() ==> r == Err::<(u8, u32), BusError>(BusError::OutOfRange),
    {
        if address < self.mem.len() {
            Ok((self.mem[address], self.access_cost))
        } else {
            Err(BusError::OutOfRange)
        }
    }

    /// Reads a little-endian 16-bit word, returning it with the access cost,
    /// or a bus error when either byte is unmapped.
    pub fn read_u16(&self, address: usize) -> (r: Result<(u16, u32), BusError>)
        ensures
            address + 1 < self.mem@.len() ==> r == Ok::<(u16, u32), BusError>(
                (word_of(self.mem@[address as int], self.mem@[address + 1]), self.access_cost),
            ),
            address + 1 >= self.mem@.len() ==> r == Err::<(u16, u32), BusError>(
                BusError::OutOfRange,
            ),
    {
        if address < self.mem.len() && address + 1 < self.mem.len() {
            let lo = self.mem[address];
            let hi = self.mem[address + 1];
            Ok(((lo as u16) + (hi as u16) * 0x100, self.access_cost))
        } else {
            Err(BusError::OutOfRange)
        }
    }

    /// Writes one byte and returns the access cost, or a bus error (leaving
    /// memory unchanged) when the address is unmapped.
    pub fn write_u8(&mut self, address: usize, value: u8) -> (r: Result<u32, BusError>)
        ensures
            final(self).access_cost == old(self).access_cost,
            address < old(self).mem@.len() ==> {
                &&& final(self).mem@ == old(self).mem@.update(address as int, value)
                &&& r == Ok::<u32, BusError>(old(self).access_cost)
            },
            address >= old(self).mem@.len() ==> {
                &&& final(self).mem@ == old(self).mem@
                &&& r == Err::<u32, BusError>(BusError::OutOfRange)
            },
    {
        if address < self.mem.len() {
            self.mem.set(address, value);
            Ok(self.access_cost)
        } else {
            Err(BusError::OutOfRange)
        }
    }

    /// Writes a little-endian 16-bit word and returns the access cost, or a
    /// bus error (leaving memory unchanged) when either byte is unmapped.
    pub fn write_u16(&mut self, address: usize, value: u16) -> (r: Result<u32, BusError>)
        ensures
            final(self).access_cost == old(self).access_cost,
            address + 1 < old(self).mem@.len() ==> {
                &&& final(self).mem@ == old(self).mem@.update(
                    address as int,
                    (value % 0x100) as u8,
                ).update(address + 1, (value / 0x100) as u8)
                &&& r == Ok::<u32, BusError>(old(self).access_cost)
            },
            address + 1 >= old(self).mem@.len() ==> {
                &&& final(self).mem@ == old(self).mem@
                &&& r == Err::<u32, BusError>(BusError::OutOfRange)
            },
    {
        if address < self.mem.len() && address + 1 < self.mem.len() {
            self.mem.set(address, (value % 0x100) as u8);
            self.mem.set(address + 1, (value / 0x100) as u8);
            Ok(self.access_cost)
        } else {
            Err(BusError::OutOfRange)
        }
    }
}

} // verus!
