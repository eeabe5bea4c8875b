//! Fixed-size read/write memory of `N` bytes.
use vstd::prelude::*;

verus! {

pub struct RAM<const N: usize> {
    data: [u8; N],
}

impl<const N: usize> View for RAM<N> {
    type V = Seq<u8>;

    closed spec fn view(&self) -> Seq<u8> {
        self.data@
    }
}

/// The contents of a freshly made or reset memory of `n` bytes.
pub open spec fn zeroed(n: nat) -> Seq<u8> {
    Seq::new(n, |i: int| 0u8)
}

impl<const N: usize> Default for RAM<N> {
    fn default() -> (ram: Self)
        ensures
            ram@ == zeroed(N as nat),
    {
        let ram = RAM { data: [0u8; N] };
        assert(ram@ =~= zeroed(N as nat));
        ram
    }
}

impl<const N: usize> RAM<N> {
    /// A memory always holds exactly `N` bytes.
    pub proof fn lemma_len(&self)
        ensures
            self@.len() == N,
    {
    }

    pub fn read(&self, address: u16) -> (value: u8)
        requires
            (address as int) < N,
        ensures
            value == self@[address as int],
    {
        self.data[address as usize]
    }

    pub fn write(&mut self, address: u16, data: u8)
        requires
            (address as int) < N,
        ensures
            final(self)@ == old(self)@.update(address as int, data),
    {
        self.data[address as usize] = data;
    }

    pub fn reset(&mut self)
        ensures
            final(self)@ == zeroed(N as nat),
    {
        self.data = [0u8; N];
        assert(self@ =~= zeroed(N as nat));
    }
}

/// A byte written to a cell is the byte read back from it, and every other
/// cell keeps its contents.
pub proof fn lemma_write_then_read(memory: Seq<u8>, address: int, other: int, data: u8)
    requires
        0 <= address < memory.len(),
        0 <= other < memory.len(),
    ensures
        memory.update(address, data)[address] == data,
        other != address ==> memory.update(address, data)[other] == memory[other],
        memory.update(address, data).len() == memory.len(),
{
}

} // verus!
