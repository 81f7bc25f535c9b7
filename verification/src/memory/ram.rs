//! The memory chip: a passive store of 64 KiB in which every address is valid.

use vstd::prelude::*;
use crate::util::constants::MEMORY_SIZE;
use crate::util::types::{Address, Byte};

verus! {

/// A memory of `MEMORY_SIZE` bytes.
#[derive(Clone, Copy)]
pub struct Ram {
    memory: [Byte; MEMORY_SIZE],
}

impl View for Ram {
    type V = Seq<Byte>;

    /// The contents, indexed by address.
    closed spec fn view(&self) -> Seq<Byte> {
        self.memory@
    }
}

/// A memory in which every byte is zero.
pub open spec fn blank() -> Seq<Byte> {
    Seq::new(MEMORY_SIZE as nat, |i: int| 0u8)
}

/// The address that lies `i` bytes after `offset`, going round from the last
/// address to the first.
pub open spec fn wrapped(offset: Address, i: int) -> int {
    (offset + i) % (MEMORY_SIZE as int)
}

/// The memory after the bytes of `data` were written one by one, in order,
/// from `offset` on.
pub open spec fn loaded(memory: Seq<Byte>, data: Seq<Byte>, offset: Address) -> Seq<Byte>
    decreases data.len(),
{
    if data.len() == 0 {
        memory
    } else {
        loaded(memory, data.drop_last(), offset).update(
            wrapped(offset, data.len() - 1),
            data.last(),
        )
    }
}

impl Ram {
    /// A memory in which every byte is zero.
    pub fn new() -> (ram: Ram)
        ensures
            ram@ == blank(),
    {
        let ram = Ram { memory: [0; MEMORY_SIZE] };
        assert(ram@ =~= blank());
        ram
    }

    /// Every memory has exactly `MEMORY_SIZE` bytes.
    pub proof fn lemma_size(&self)
        ensures
            self@.len() == MEMORY_SIZE,
    {
    }

    /// The byte at `address`.
    pub fn read(&self, address: Address) -> (byte: Byte)
        ensures
            byte == self@[address as int],
    {
        self.memory[address as usize]
    }

    /// Stores `data` at `address`, and changes no other byte.
    pub fn write(&mut self, address: Address, data: Byte)
        ensures
            final(self)@ == old(self)@.update(address as int, data),
    {
        self.memory[address as usize] = data;
    }

    /// Copies `data` into the memory from `offset` on. A copy that runs past the
    /// last address goes on at the first.
    pub fn load(&mut self, data: &[u8], offset: Address)
        ensures
            final(self)@ == loaded(old(self)@, data@, offset),
    {
        let mut i: usize = 0;
        let mut address: Address = offset;
        while i < data.len()
            invariant
                i <= data.len(),
                address == wrapped(offset, i as int),
                self@ == loaded(old(self)@, data@.take(i as int), offset),
            decreases data.len() - i,
        {
            self.write(address, data[i]);
            address = address.wrapping_add(1);
            i += 1;
            proof {
                let written = data@.take(i as int);
                assert(written.drop_last() =~= data@.take(i - 1));
                assert(written.last() == data@[i - 1]);
            }
        }
        assert(data@.take(data.len() as int) =~= data@);
    }

    /// Zeroes every byte.
    pub fn reset(&mut self)
        ensures
            final(self)@ == blank(),
    {
        self.memory = [0; MEMORY_SIZE];
        assert(self@ =~= blank());
    }

    /// The `len` bytes from `offset` on.
    pub fn dump(&self, offset: Address, len: usize) -> (bytes: Vec<u8>)
        requires
            offset + len <= MEMORY_SIZE,
        ensures
            bytes@ == self@.subrange(offset as int, offset + len),
    {
        let start: usize = offset as usize;
        let mut bytes: Vec<u8> = Vec::new();
        let mut i: usize = 0;
        while i < len
            invariant
                i <= len,
                start + len <= MEMORY_SIZE,
                bytes@ == self@.subrange(start as int, start + i),
            decreases len - i,
        {
            bytes.push(self.memory[start + i]);
            i += 1;
            assert(bytes@ =~= self@.subrange(start as int, start + i));
        }
        bytes
    }
}

/// What a load leaves in the memory, address by address, when the data is no
/// longer than the memory: the byte `i` of the data is `i` places after
/// `offset`, counted round the end of the memory, and every place further
/// from `offset` than the data reaches is as it was.
pub proof fn lemma_loaded(memory: Seq<Byte>, data: Seq<Byte>, offset: Address)
    requires
        memory.len() == MEMORY_SIZE,
        data.len() <= MEMORY_SIZE,
    ensures
        loaded(memory, data, offset).len() == MEMORY_SIZE,
        forall|i: int|
            0 <= i < data.len() ==> #[trigger] loaded(memory, data, offset)[wrapped(offset, i)]
                == data[i],
        forall|k: int|
            0 <= k < MEMORY_SIZE && wrapped(0, k - offset) >= data.len() ==> #[trigger] loaded(
                memory,
                data,
                offset,
            )[k] == memory[k],
    decreases data.len(),
{
    if data.len() > 0 {
        let before = data.drop_last();
        lemma_loaded(memory, before, offset);
        let last = data.len() - 1;
        assert forall|i: int| 0 <= i < data.len() implies #[trigger] loaded(
            memory,
            data,
            offset,
        )[wrapped(offset, i)] == data[i] by {
            if i < last {
                assert(wrapped(offset, i) != wrapped(offset, last));
                assert(loaded(memory, before, offset)[wrapped(offset, i)] == before[i]);
            }
        }
        assert forall|k: int|
            0 <= k < MEMORY_SIZE && wrapped(0, k - offset) >= data.len() implies #[trigger] loaded(
            memory,
            data,
            offset,
        )[k] == memory[k] by {
            assert(k != wrapped(offset, last));
        }
    }
}

} // verus!
