//! Read-only memory: an immutable sequence of bytes.
use vstd::prelude::*;

verus! {

pub struct ROM {
    data: Vec<u8>,
}

impl View for ROM {
    type V = Seq<u8>;

    closed spec fn view(&self) -> Seq<u8> {
        self.data@
    }
}

impl ROM {
    pub fn new(data: Vec<u8>) -> (rom: Self)
        ensures
            rom@ == data@,
    {
        ROM { data }
    }

    pub fn read(&self, address: u16) -> (value: u8)
        requires
            (address as int) < self@.len(),
        ensures
            value == self@[address as int],
    {
        self.data[address as usize]
    }

    pub fn size(&self) -> (size: usize)
        ensures
            size == self@.len(),
    {
        self.data.len()
    }
}

} // verus!
