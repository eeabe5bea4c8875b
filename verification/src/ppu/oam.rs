//! Object attribute memory: 64 sprite records of 4 bytes each.
use vstd::prelude::*;
use crate::ram::zeroed;

verus! {

pub struct OAM {
    data: [u8; 256],
}

impl View for OAM {
    type V = Seq<u8>;

    closed spec fn view(&self) -> Seq<u8> {
        self.data@
    }
}

/// The four bytes of sprite record `index`: y, tile id, attribute, x.
pub open spec fn sprite_record(oam: Seq<u8>, index: int) -> Seq<u8> {
    oam.subrange(index * 4, index * 4 + 4)
}

impl Default for OAM {
    fn default() -> (oam: Self)
        ensures
            oam@ == zeroed(256),
    {
        let oam = OAM { data: [0u8; 256] };
        assert(oam@ =~= zeroed(256));
        oam
    }
}

impl OAM {
    /// Object attribute memory always holds 256 bytes.
    pub proof fn lemma_len(&self)
        ensures
            self@.len() == 256,
    {
    }

    pub fn write(&mut self, addr: u8, data: u8)
        ensures
            final(self)@ == old(self)@.update(addr as int, data),
    {
        self.data[addr as usize] = data;
    }

    pub fn read(&self, addr: u8) -> (value: u8)
        ensures
            value == self@[addr as int],
    {
        self.data[addr as usize]
    }

    pub fn head_y(&self) -> (y: u8)
        ensures
            y == self@[0],
    {
        self.data[0]
    }

    pub fn iter(&self) -> (iterator: OAMIterator<'_>)
        ensures
            iterator.memory() == self@,
            iterator.position() == 0,
    {
        OAMIterator { oam: self, entry_index: 0 }
    }
}

/// A cursor over the 64 sprite records, first to last.
pub struct OAMIterator<'a> {
    oam: &'a OAM,
    entry_index: usize,
}

impl<'a> OAMIterator<'a> {
    /// The memory that the cursor walks over.
    pub closed spec fn memory(&self) -> Seq<u8> {
        self.oam@
    }

    /// The number of records handed out so far, capped at 64.
    pub closed spec fn position(&self) -> int {
        if self.entry_index >= 64 {
            64
        } else {
            self.entry_index as int
        }
    }

    pub fn next(&mut self) -> (record: Option<[u8; 4]>)
        ensures
            final(self).memory() == old(self).memory(),
            old(self).position() < 64 ==> record is Some && record->0@ == sprite_record(
                old(self).memory(),
                old(self).position(),
            ) && final(self).position() == old(self).position() + 1,
            old(self).position() >= 64 ==> record is None && final(self).position() == 64,
            0 <= final(self).position() <= 64,
    {
        if self.entry_index >= 64 {
            return None;
        }
        let data = [
            self.oam.data[self.entry_index * 4],
            self.oam.data[self.entry_index * 4 + 1],
            self.oam.data[self.entry_index * 4 + 2],
            self.oam.data[self.entry_index * 4 + 3],
        ];
        assert(data@ =~= sprite_record(self.oam@, self.entry_index as int));
        self.entry_index += 1;
        Some(data)
    }
}

} // verus!
