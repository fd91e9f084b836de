//! The guest's linear memory as an arena of regions behind handles.
//!
//! A region is a run of bytes that was granted as a whole and is released as a
//! whole. A pointer is the handle of a region; a handle is never granted twice.

use vstd::prelude::*;

verus! {

/// The regions that are granted and not yet released.
pub struct Memory {
    regions: Vec<Option<Vec<u8>>>,
}

/// A copy of `bytes`.
pub fn copy_bytes(bytes: &Vec<u8>) -> (copy: Vec<u8>)
    ensures
        copy@ == bytes@,
{
    let mut copy: Vec<u8> = Vec::with_capacity(bytes.len());
    let mut i: usize = 0;
    while i < bytes.len()
        invariant
            i <= bytes.len(),
            copy@ == bytes@.subrange(0, i as int),
        decreases bytes.len() - i,
    {
        copy.push(bytes[i]);
        i += 1;
        assert(copy@ =~= bytes@.subrange(0, i as int));
    }
    assert(bytes@.subrange(0, bytes.len() as int) =~= bytes@);
    copy
}

/// `len` bytes, each of them zero.
pub fn zeroed(len: usize) -> (bytes: Vec<u8>)
    ensures
        bytes@ == Seq::new(len as nat, |i: int| 0u8),
{
    let mut bytes: Vec<u8> = Vec::with_capacity(len);
    let mut i: usize = 0;
    while i < len
        invariant
            i <= len,
            bytes@ == Seq::new(i as nat, |j: int| 0u8),
        decreases len - i,
    {
        bytes.push(0u8);
        i += 1;
        assert(bytes@ =~= Seq::new(i as nat, |j: int| 0u8));
    }
    bytes
}

impl View for Memory {
    type V = Map<usize, Seq<u8>>;

    /// The live regions: each pointer with the bytes of its region.
    closed spec fn view(&self) -> Map<usize, Seq<u8>> {
        Map::new(
            |p: usize| p < self.regions@.len() && self.regions@[p as int] is Some,
            |p: usize| self.regions@[p as int].unwrap()@,
        )
    }
}

impl Memory {
    /// How many pointers were granted so far, released ones included.
    pub closed spec fn granted(&self) -> nat {
        self.regions@.len()
    }

    /// A pointer that was never granted is not live.
    pub proof fn lemma_live_was_granted(&self, pointer: usize)
        requires
            self@.contains_key(pointer),
        ensures
            pointer < self.granted(),
    {
    }

    /// A memory without regions.
    pub fn new() -> (memory: Self)
        ensures
            memory@ == Map::<usize, Seq<u8>>::empty(),
            memory.granted() == 0,
    {
        let memory = Memory { regions: Vec::new() };
        assert(memory@ =~= Map::<usize, Seq<u8>>::empty());
        memory
    }

    /// Makes `bytes` a region of its own and returns its pointer, which was
    /// never granted before. No other region changes.
    pub fn store(&mut self, bytes: Vec<u8>) -> (pointer: usize)
        ensures
            pointer == old(self).granted(),
            final(self).granted() == old(self).granted() + 1,
            !old(self)@.contains_key(pointer),
            final(self)@ == old(self)@.insert(pointer, bytes@),
    {
        let pointer: usize = self.regions.len();
        self.regions.push(Some(bytes));
        assert(self@ =~= old(self)@.insert(pointer, bytes@));
        pointer
    }

    /// The length of the region at `pointer`, if it is live.
    pub fn size_of(&self, pointer: usize) -> (size: Option<usize>)
        ensures
            size is Some <==> self@.contains_key(pointer),
            size is Some ==> size.unwrap() == self@[pointer].len(),
    {
        if pointer < self.regions.len() {
            match &self.regions[pointer] {
                Some(bytes) => Some(bytes.len()),
                None => None,
            }
        } else {
            None
        }
    }

    /// A copy of the bytes of the region at `pointer`, if it is live. The
    /// region stays as it is.
    pub fn read(&self, pointer: usize) -> (bytes: Option<Vec<u8>>)
        ensures
            bytes is Some <==> self@.contains_key(pointer),
            bytes is Some ==> bytes.unwrap()@ == self@[pointer],
    {
        if pointer < self.regions.len() {
            match &self.regions[pointer] {
                Some(bytes) => Some(copy_bytes(bytes)),
                None => None,
            }
        } else {
            None
        }
    }

    /// Overwrites the region at `pointer` with `bytes` and returns `true`, if
    /// the region is live and `bytes` fills it exactly. Otherwise nothing
    /// changes and the result is `false`.
    pub fn write(&mut self, pointer: usize, bytes: Vec<u8>) -> (written: bool)
        ensures
            written == (old(self)@.contains_key(pointer) && old(self)@[pointer].len()
                == bytes@.len()),
            written ==> final(self)@ == old(self)@.insert(pointer, bytes@),
            !written ==> final(self)@ == old(self)@,
            final(self).granted() == old(self).granted(),
    {
        match self.size_of(pointer) {
            Some(size) => {
                if size == bytes.len() {
                    self.regions.set(pointer, Some(bytes));
                    assert(self@ =~= old(self)@.insert(pointer, bytes@));
                    true
                } else {
                    false
                }
            },
            None => false,
        }
    }

    /// Releases the region at `pointer`. No other region changes.
    pub fn release(&mut self, pointer: usize)
        requires
            old(self)@.contains_key(pointer),
        ensures
            final(self)@ == old(self)@.remove(pointer),
            final(self).granted() == old(self).granted(),
    {
        self.regions.set(pointer, None);
        assert(self@ =~= old(self)@.remove(pointer));
    }
}

} // verus!
