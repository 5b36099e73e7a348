//! The scratch memory of the accelerator and the one way to touch it.
//!
//! An access names a byte address and a number of words. It is refused
//! unless the address is a multiple of four and the whole range lies inside
//! the scratch memory. Words travel one at a time, and a buffer is stored
//! back to front: its last word lands at the lowest address.

use vstd::prelude::*;
use crate::layout::{RAM_LIMIT, RAM_START, RAM_WORDS};

verus! {

/// Why an access to the scratch memory was refused.
#[derive(Clone, Copy, Debug, PartialEq, Eq, Structural)]
pub enum AccessError {
    /// The address is not a multiple of four.
    Misaligned,
    /// Part of the range lies outside the scratch memory.
    OutOfBounds,
}

/// One word on the bus: the address it moves at and the buffer index it
/// belongs to.
#[derive(Clone, Copy, Debug, PartialEq, Eq, Structural)]
pub(crate) struct Transfer {
    pub address: usize,
    pub index: usize,
}

/// The address is a multiple of the word size.
pub open spec fn aligned(offset: int) -> bool {
    offset % 4 == 0
}

/// `words` words from `offset` on lie inside the scratch memory.
pub open spec fn within(offset: int, words: int) -> bool {
    RAM_START <= offset && offset + 4 * words < RAM_LIMIT
}

/// The reason for which an access is refused, if it is. Alignment is looked
/// at first.
pub open spec fn refusal(offset: int, words: int) -> Option<AccessError> {
    if !aligned(offset) {
        Some(AccessError::Misaligned)
    } else if !within(offset, words) {
        Some(AccessError::OutOfBounds)
    } else {
        None
    }
}

/// Index, among the words of the scratch memory, of the word at `address`.
pub open spec fn word_index(address: int) -> int {
    (address - RAM_START) / 4
}

/// Address of the `k`-th word that an access at `offset` moves.
pub open spec fn transfer_address(offset: int, k: int) -> int {
    offset + 4 * k
}

/// Buffer index of the `k`-th word that an access of `words` words moves.
pub open spec fn transfer_index(words: int, k: int) -> int {
    words - 1 - k
}

/// The memory after `values` has been stored at `offset`.
pub open spec fn stored(mem: Seq<u32>, offset: int, values: Seq<u32>) -> Seq<u32> {
    Seq::new(
        mem.len(),
        |i: int|
            {
                let k = i - word_index(offset);
                if 0 <= k < values.len() {
                    values[transfer_index(values.len() as int, k)]
                } else {
                    mem[i]
                }
            },
    )
}

/// The buffer of `words` words that a load at `offset` fills.
pub open spec fn loaded(mem: Seq<u32>, offset: int, words: nat) -> Seq<u32> {
    Seq::new(words, |j: int| mem[word_index(offset) + transfer_index(words as int, j)])
}

/// Decides whether an access of `words` words at `offset` may go ahead.
pub fn check_access(offset: usize, words: usize) -> (r: Result<(), AccessError>)
    ensures
        r == match refusal(offset as int, words as int) {
            Some(e) => Err::<(), AccessError>(e),
            None => Ok::<(), AccessError>(()),
        },
{
    if offset % 4 != 0 {
        return Err(AccessError::Misaligned);
    }
    if offset < RAM_START || offset >= RAM_LIMIT {
        return Err(AccessError::OutOfBounds);
    }
    let room: usize = RAM_LIMIT - offset;
    if words > (room - 1) / 4 {
        return Err(AccessError::OutOfBounds);
    }
    Ok(())
}

/// The `k`-th bus transfer of an access of `words` words at `offset` that
/// [`check_access`] lets through.
pub(crate) fn transfer(offset: usize, words: usize, k: usize) -> (t: Transfer)
    requires
        refusal(offset as int, words as int) is None,
        k < words,
    ensures
        t.address == transfer_address(offset as int, k as int),
        t.index == transfer_index(words as int, k as int),
        refusal(t.address as int, 1) is None,
{
    Transfer { address: offset + 4 * k, index: words - 1 - k }
}

/// The scratch memory as the accelerator sees it: a row of words that only
/// checked, word-wise accesses reach.
#[derive(Clone, Debug, PartialEq, Eq)]
pub struct ScratchRam {
    words: Vec<u32>,
}

impl ScratchRam {
    /// The words of the memory, lowest address first.
    pub closed spec fn view(&self) -> Seq<u32> {
        self.words@
    }

    /// The memory has its full size.
    pub open spec fn wf(&self) -> bool {
        self@.len() == RAM_WORDS
    }

    /// A memory of zero words.
    pub fn new() -> (ram: Self)
        ensures
            ram.wf(),
            forall|i: int| 0 <= i < RAM_WORDS ==> ram@[i] == 0,
    {
        let mut words: Vec<u32> = Vec::new();
        let mut i: usize = 0;
        while i < RAM_WORDS
            invariant
                i <= RAM_WORDS,
                words@.len() == i,
                forall|j: int| 0 <= j < i ==> words@[j] == 0,
            decreases RAM_WORDS - i,
        {
            words.push(0);
            i = i + 1;
        }
        ScratchRam { words }
    }

    /// Moves one word into the memory, at an address that was checked.
    fn put(&mut self, address: usize, value: u32)
        requires
            old(self).wf(),
            refusal(address as int, 1) is None,
        ensures
            final(self).wf(),
            final(self)@ == old(self)@.update(word_index(address as int), value),
    {
        let i: usize = (address - RAM_START) / 4;
        self.words.set(i, value);
    }

    /// Moves one word out of the memory, from an address that was checked.
    fn get(&self, address: usize) -> (word: u32)
        requires
            self.wf(),
            refusal(address as int, 1) is None,
        ensures
            word == self@[word_index(address as int)],
    {
        let i: usize = (address - RAM_START) / 4;
        self.words[i]
    }

    /// Stores one word.
    pub fn store(&mut self, address: usize, value: u32) -> (r: Result<(), AccessError>)
        requires
            old(self).wf(),
        ensures
            final(self).wf(),
            match refusal(address as int, 1) {
                Some(e) => r == Err::<(), AccessError>(e) && final(self)@ == old(self)@,
                None => r is Ok && final(self)@ == old(self)@.update(
                    word_index(address as int),
                    value,
                ),
            },
    {
        match check_access(address, 1) {
            Err(e) => Err(e),
            Ok(()) => {
                self.put(address, value);
                Ok(())
            },
        }
    }

    /// Loads one word.
    pub fn load(&self, address: usize) -> (r: Result<u32, AccessError>)
        requires
            self.wf(),
        ensures
            r == match refusal(address as int, 1) {
                Some(e) => Err::<u32, AccessError>(e),
                None => Ok::<u32, AccessError>(self@[word_index(address as int)]),
            },
    {
        match check_access(address, 1) {
            Err(e) => Err(e),
            Ok(()) => Ok(self.get(address)),
        }
    }

    /// Stores `buf` at `offset`, last word first, or refuses and leaves the
    /// memory as it was.
    pub fn write_ram(&mut self, offset: usize, buf: &[u32]) -> (r: Result<(), AccessError>)
        requires
            old(self).wf(),
        ensures
            final(self).wf(),
            match refusal(offset as int, buf@.len() as int) {
                Some(e) => r == Err::<(), AccessError>(e) && final(self)@ == old(self)@,
                None => r is Ok && final(self)@ == stored(old(self)@, offset as int, buf@),
            },
    {
        let n: usize = buf.len();
        match check_access(offset, n) {
            Err(e) => {
                return Err(e);
            },
            Ok(()) => {},
        }
        let base: usize = (offset - RAM_START) / 4;
        let mut k: usize = 0;
        while k < n
            invariant
                k <= n,
                n == buf@.len(),
                refusal(offset as int, n as int) is None,
                base == word_index(offset as int),
                self.wf(),
                forall|i: int|
                    0 <= i < RAM_WORDS ==> self@[i] == if 0 <= i - base < k {
                        buf@[transfer_index(n as int, i - base)]
                    } else {
                        old(self)@[i]
                    },
            decreases n - k,
        {
            let t = transfer(offset, n, k);
            self.put(t.address, buf[t.index]);
            k = k + 1;
        }
        assert(self@ =~= stored(old(self)@, offset as int, buf@));
        Ok(())
    }

    /// Fills `buf` from `offset`, last word first, or refuses and leaves the
    /// buffer as it was.
    pub fn read_ram(&self, offset: usize, buf: &mut [u32]) -> (r: Result<(), AccessError>)
        requires
            self.wf(),
        ensures
            match refusal(offset as int, old(buf)@.len() as int) {
                Some(e) => r == Err::<(), AccessError>(e) && final(buf)@ == old(buf)@,
                None => r is Ok && final(buf)@ == loaded(self@, offset as int, old(buf)@.len()),
            },
    {
        let n: usize = buf.len();
        match check_access(offset, n) {
            Err(e) => {
                return Err(e);
            },
            Ok(()) => {},
        }
        let base: usize = (offset - RAM_START) / 4;
        let mut k: usize = 0;
        while k < n
            invariant
                k <= n,
                n == buf@.len(),
                n == old(buf)@.len(),
                refusal(offset as int, n as int) is None,
                base == word_index(offset as int),
                self.wf(),
                forall|j: int|
                    0 <= j < n ==> buf@[j] == if n - 1 - j < k {
                        self@[base + transfer_index(n as int, j)]
                    } else {
                        old(buf)@[j]
                    },
            decreases n - k,
        {
            let t = transfer(offset, n, k);
            buf[t.index] = self.get(t.address);
            k = k + 1;
        }
        assert(buf@ =~= loaded(self@, offset as int, n as nat));
        Ok(())
    }
}

/// A buffer that was stored comes back word for word from a load of the same
/// length at the same place: the reversed order on the bus cancels out.
pub proof fn lemma_load_after_store(mem: Seq<u32>, offset: int, values: Seq<u32>)
    requires
        mem.len() == RAM_WORDS,
        refusal(offset, values.len() as int) is None,
    ensures
        loaded(stored(mem, offset, values), offset, values.len()) == values,
{
    let after = stored(mem, offset, values);
    let back = loaded(after, offset, values.len());
    assert forall|j: int| 0 <= j < values.len() implies back[j] == values[j] by {
        let k = transfer_index(values.len() as int, j);
        assert(after[word_index(offset) + k] == values[transfer_index(values.len() as int, k)]);
    }
    assert(back =~= values);
}

/// A store changes no word outside the range that it names.
pub proof fn lemma_store_leaves_rest(mem: Seq<u32>, offset: int, values: Seq<u32>, address: int)
    requires
        mem.len() == RAM_WORDS,
        refusal(offset, values.len() as int) is None,
        refusal(address, 1) is None,
        address < offset || address >= offset + 4 * values.len(),
    ensures
        stored(mem, offset, values)[word_index(address)] == mem[word_index(address)],
{
}

/// Storing a buffer is storing its words one by one, the last word at the
/// lowest address.
pub proof fn lemma_store_word_by_word(mem: Seq<u32>, offset: int, values: Seq<u32>, k: int)
    requires
        mem.len() == RAM_WORDS,
        refusal(offset, values.len() as int) is None,
        0 <= k < values.len(),
    ensures
        stored(mem, offset, values)[word_index(transfer_address(offset, k))]
            == values[transfer_index(values.len() as int, k)],
{
}

} // verus!
