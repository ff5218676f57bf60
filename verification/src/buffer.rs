//! The byte buffer: its model, its invariant and its operations.

use vstd::prelude::*;

verus! {

/// A growable run of bytes.
///
/// `data` is the block of slots owned by the buffer, `capacity` the number of
/// slots in it and `length` the number of slots, counted from the start, that
/// hold valid bytes.
pub struct Uint8Array {
    data: Vec<u8>,
    length: usize,
    capacity: usize,
}

/// `n` freshly allocated slots: every slot of a new block holds zero.
pub open spec fn fresh_slots(n: nat) -> Seq<u8> {
    Seq::new(n, |i: int| 0u8)
}

/// The message of the error that `get` and `set` return for an index at or
/// past the length.
pub const OUT_OF_RANGE: &'static str = "Index out of range!";

/// The number of slots by which `push` grows a buffer of `len` valid bytes in
/// `cap` slots: none while a slot is free, ten for a buffer without a block,
/// and as many as there are once the block is full.
pub open spec fn push_growth(len: nat, cap: nat) -> nat {
    if len < cap {
        0
    } else if cap == 0 {
        10
    } else {
        cap
    }
}

/// The number of slots by which `insert` grows a buffer of `len` valid bytes
/// in `cap` slots: one when the block is full, none otherwise.
pub open spec fn insert_growth(len: nat, cap: nat) -> nat {
    if len < cap {
        0
    } else {
        1
    }
}

/// What `pop` returns for a buffer whose valid bytes are `bytes`: the last
/// byte, or nothing when there is none.
pub open spec fn pop_result(bytes: Seq<u8>) -> Option<u8> {
    if bytes.len() == 0 {
        None
    } else {
        Some(bytes.last())
    }
}

/// The valid bytes that `pop` leaves of `bytes`: all but the last, or
/// `bytes` itself when it is empty.
pub open spec fn pop_rest(bytes: Seq<u8>) -> Seq<u8> {
    if bytes.len() == 0 {
        bytes
    } else {
        bytes.drop_last()
    }
}

impl View for Uint8Array {
    type V = Seq<u8>;

    /// The valid bytes, in order: the first `length` slots of the block.
    open spec fn view(&self) -> Seq<u8> {
        self.storage().take(self.spec_len() as int)
    }
}

impl Uint8Array {
    /// Every slot of the block, valid or not.
    pub closed spec fn storage(&self) -> Seq<u8> {
        self.data@
    }

    /// The number of valid bytes.
    pub closed spec fn spec_len(&self) -> usize {
        self.length
    }

    /// The number of slots the buffer records as allocated.
    pub closed spec fn spec_cap(&self) -> usize {
        self.capacity
    }

    /// The invariant of a buffer: the valid bytes fit in the block, the block
    /// has exactly `capacity` slots, and the capacity can serve as a signed
    /// offset.
    pub open spec fn wf(&self) -> bool {
        &&& self.spec_len() <= self.spec_cap()
        &&& self.spec_cap() == self.storage().len()
        &&& self.spec_cap() <= isize::MAX
    }

    /// An empty buffer. Nothing is allocated.
    pub fn new() -> (a: Self)
        ensures
            a.wf(),
            a.spec_len() == 0,
            a.spec_cap() == 0,
            a.storage() == Seq::<u8>::empty(),
            a@ == Seq::<u8>::empty(),
    {
        Self { data: Vec::new(), length: 0, capacity: 0 }
    }

    /// A buffer over the block `block`, of which the first `length` slots
    /// hold valid bytes. The capacity is the number of slots of `block`.
    pub fn from_block(block: Vec<u8>, length: usize) -> (a: Self)
        requires
            length <= block@.len() <= isize::MAX,
        ensures
            a.wf(),
            a.storage() == block@,
            a.spec_len() == length,
            a.spec_cap() == block@.len(),
            a@ == block@.take(length as int),
    {
        let capacity = block.len();
        Self { data: block, length, capacity }
    }

    /// Gives up the buffer for its block and its length.
    pub fn into_block(self) -> (parts: (Vec<u8>, usize))
        requires
            self.wf(),
        ensures
            parts.0@ == self.storage(),
            parts.1 == self.spec_len(),
    {
        (self.data, self.length)
    }

    /// The number of valid bytes.
    #[verifier::when_used_as_spec(spec_len)]
    pub fn len(&self) -> (n: usize)
        requires
            self.spec_len() <= isize::MAX,
        ensures
            n == self.spec_len(),
    {
        self.length
    }

    /// The number of allocated slots.
    #[verifier::when_used_as_spec(spec_cap)]
    pub fn cap(&self) -> (n: usize)
        requires
            self.spec_cap() <= isize::MAX,
        ensures
            n == self.spec_cap(),
    {
        self.capacity
    }

    /// Records `len` as the number of valid bytes and touches nothing else.
    ///
    /// The caller keeps the invariant: `len` may not exceed the capacity. The
    /// bytes of the slots that become valid are those the block already
    /// holds.
    pub fn set_len(&mut self, len: usize)
        requires
            old(self).spec_len() <= isize::MAX,
            len <= old(self).spec_cap(),
        ensures
            final(self).spec_len() == len,
            final(self).spec_cap() == old(self).spec_cap(),
            final(self).storage() == old(self).storage(),
            old(self).wf() ==> final(self).wf(),
    {
        self.length = len;
    }

    /// Records `cap` as the number of allocated slots and touches nothing
    /// else.
    ///
    /// The caller keeps the invariant: the block must hold exactly `cap`
    /// slots, and `cap` may neither fall below the length nor exceed the
    /// largest signed offset.
    pub fn set_cap(&mut self, cap: usize)
        requires
            old(self).spec_cap() <= isize::MAX,
            old(self).spec_len() <= cap <= isize::MAX,
            cap == old(self).storage().len(),
        ensures
            final(self).spec_cap() == cap,
            final(self).spec_len() == old(self).spec_len(),
            final(self).storage() == old(self).storage(),
            final(self).wf(),
    {
        self.capacity = cap;
    }

    /// Replaces the block by one with `size` more slots.
    ///
    /// The new block starts with the bytes of the old one, slot for slot,
    /// followed by `size` fresh slots. The length does not change, so the
    /// valid bytes are the same as before.
    pub fn grow(&mut self, size: usize)
        requires
            old(self).wf(),
            old(self).spec_cap() + size <= isize::MAX,
        ensures
            final(self).wf(),
            final(self).spec_cap() == old(self).spec_cap() + size,
            final(self).spec_len() == old(self).spec_len(),
            final(self).storage() == old(self).storage() + fresh_slots(size as nat),
            final(self)@ == old(self)@,
    {
        let cap = self.cap();
        let mut block: Vec<u8> = vec![0u8; cap + size];
        if cap != 0 {
            let mut i: usize = 0;
            while i < cap
                invariant
                    i <= cap,
                    cap == self.data@.len(),
                    block@.len() == cap + size,
                    forall|j: int| 0 <= j < i ==> block@[j] == self.data@[j],
                    forall|j: int| i <= j < cap + size ==> block@[j] == 0u8,
                decreases cap - i,
            {
                block[i] = self.data[i];
                i += 1;
            }
        }
        self.data = block;
        self.set_cap(cap + size);
    }

    /// Appends `val`, growing the block first when it is full.
    pub fn push(&mut self, val: u8)
        requires
            old(self).wf(),
            old(self).spec_cap() + push_growth(old(self).spec_len() as nat, old(self).spec_cap() as nat)
                <= isize::MAX,
        ensures
            final(self).wf(),
            final(self)@ == old(self)@.push(val),
            final(self).spec_len() == old(self).spec_len() + 1,
            final(self).spec_cap() == old(self).spec_cap() + push_growth(
                old(self).spec_len() as nat,
                old(self).spec_cap() as nat,
            ),
            final(self).storage() == (old(self).storage() + fresh_slots(
                push_growth(old(self).spec_len() as nat, old(self).spec_cap() as nat),
            )).update(old(self).spec_len() as int, val),
    {
        if self.len() == self.cap() {
            if self.cap() == 0 {
                self.grow(10);
            } else {
                self.grow(self.cap());
            }
        }
        let len = self.len();
        self.data[len] = val;
        self.set_len(len + 1);
    }

    /// Removes the last byte and returns it, or returns `None` and changes
    /// nothing when the buffer is empty.
    pub fn pop(&mut self) -> (r: Option<u8>)
        requires
            old(self).wf(),
        ensures
            final(self).wf(),
            r == pop_result(old(self)@),
            final(self)@ == pop_rest(old(self)@),
            final(self).spec_len() == pop_rest(old(self)@).len(),
            final(self).spec_cap() == old(self).spec_cap(),
            final(self).storage() == old(self).storage(),
            old(self).spec_len() == 0 ==> *final(self) == *old(self),
    {
        if self.len() == 0 {
            None
        } else {
            let len = self.len();
            self.set_len(len - 1);
            Some(self.data[self.len()])
        }
    }

    /// Inserts `element` at `index` and moves the bytes from `index` on one
    /// slot to the right, growing the block by one slot first when it is
    /// full.
    pub fn insert(&mut self, index: usize, element: u8)
        requires
            old(self).wf(),
            index <= old(self).spec_len(),
            old(self).spec_cap() + insert_growth(
                old(self).spec_len() as nat,
                old(self).spec_cap() as nat,
            ) <= isize::MAX,
        ensures
            final(self).wf(),
            final(self)@ == old(self)@.insert(index as int, element),
            final(self).spec_len() == old(self).spec_len() + 1,
            final(self).spec_cap() == old(self).spec_cap() + insert_growth(
                old(self).spec_len() as nat,
                old(self).spec_cap() as nat,
            ),
            final(self).storage() == final(self)@ + (old(self).storage() + fresh_slots(
                insert_growth(old(self).spec_len() as nat, old(self).spec_cap() as nat),
            )).skip(old(self).spec_len() + 1),
    {
        if self.len() == self.cap() {
            self.grow(1);
        }
        let len = self.len();
        let ghost block = self.data@;
        let mut i: usize = len;
        while i > index
            invariant
                index <= i <= len,
                len < self.data@.len(),
                self.data@.len() == block.len(),
                self.length == len,
                self.capacity == block.len(),
                forall|j: int| 0 <= j <= i ==> self.data@[j] == block[j],
                forall|j: int| i < j <= len ==> self.data@[j] == block[j - 1],
                forall|j: int| len < j < block.len() ==> self.data@[j] == block[j],
            decreases i,
        {
            self.data[i] = self.data[i - 1];
            i -= 1;
        }
        self.data[index] = element;
        self.set_len(len + 1);
    }

    /// Removes the byte at `index` and moves the bytes after it one slot to
    /// the left. The slot that held the last byte keeps it, outside the
    /// valid bytes.
    pub fn remove(&mut self, index: usize)
        requires
            old(self).wf(),
            index < old(self).spec_len(),
        ensures
            final(self).wf(),
            final(self)@ == old(self)@.remove(index as int),
            final(self).spec_len() == old(self).spec_len() - 1,
            final(self).spec_cap() == old(self).spec_cap(),
            final(self).storage() == final(self)@ + old(self).storage().skip(
                old(self).spec_len() - 1,
            ),
    {
        let len = self.len();
        let ghost block = self.data@;
        let mut i: usize = index;
        while i + 1 < len
            invariant
                index <= i < len,
                len <= self.data@.len(),
                self.data@.len() == block.len(),
                self.length == len,
                self.capacity == block.len(),
                forall|j: int| 0 <= j < index ==> self.data@[j] == block[j],
                forall|j: int| index <= j < i ==> self.data@[j] == block[j + 1],
                forall|j: int| i <= j < block.len() ==> self.data@[j] == block[j],
            decreases len - i,
        {
            self.data[i] = self.data[i + 1];
            i += 1;
        }
        self.set_len(len - 1);
    }

    /// The byte at `index`, or the out-of-range error when `index` is not
    /// below the length.
    pub fn get(&self, index: usize) -> (r: Result<u8, &'static str>)
        requires
            self.wf(),
        ensures
            index < self.spec_len() ==> r == Ok::<u8, &'static str>(self@[index as int]),
            index >= self.spec_len() ==> r == Err::<u8, &'static str>(OUT_OF_RANGE),
    {
        if index < self.len() {
            Ok(self.data[index])
        } else {
            Err(OUT_OF_RANGE)
        }
    }

    /// Overwrites the byte at `index`, or returns the out-of-range error and
    /// changes nothing when `index` is not below the length.
    pub fn set(&mut self, index: usize, element: u8) -> (r: Result<(), &'static str>)
        requires
            old(self).wf(),
        ensures
            final(self).wf(),
            final(self).spec_len() == old(self).spec_len(),
            final(self).spec_cap() == old(self).spec_cap(),
            index < old(self).spec_len() ==> r == Ok::<(), &'static str>(())
                && final(self).storage() == old(self).storage().update(index as int, element)
                && final(self)@ == old(self)@.update(index as int, element),
            index >= old(self).spec_len() ==> r == Err::<(), &'static str>(OUT_OF_RANGE)
                && *final(self) == *old(self),
    {
        if index >= self.len() {
            Err(OUT_OF_RANGE)
        } else {
            self.data[index] = element;
            Ok(())
        }
    }

    /// Appends all of `buffer`, after growing the block by exactly as many
    /// slots as `buffer` has bytes, whether or not slots were free.
    pub fn write(&mut self, buffer: &[u8])
        requires
            old(self).wf(),
            old(self).spec_cap() + buffer@.len() <= isize::MAX,
        ensures
            final(self).wf(),
            final(self)@ == old(self)@ + buffer@,
            final(self).spec_len() == old(self).spec_len() + buffer@.len(),
            final(self).spec_cap() == old(self).spec_cap() + buffer@.len(),
            final(self).storage() == final(self)@ + (old(self).storage() + fresh_slots(
                buffer@.len(),
            )).skip(old(self).spec_len() + buffer@.len()),
    {
        let n = buffer.len();
        self.grow(n);
        let len = self.len();
        let ghost block = self.data@;
        let mut i: usize = 0;
        while i < n
            invariant
                i <= n,
                n == buffer@.len(),
                len + n <= block.len(),
                self.data@.len() == block.len(),
                self.length == len,
                self.capacity == block.len(),
                forall|j: int| 0 <= j < len ==> self.data@[j] == block[j],
                forall|j: int| len <= j < len + i ==> self.data@[j] == buffer@[j - len],
                forall|j: int| len + i <= j < block.len() ==> self.data@[j] == block[j],
            decreases n - i,
        {
            self.data[len + i] = buffer[i];
            i += 1;
        }
        self.set_len(len + n);
    }

    /// The valid bytes as a slice.
    pub fn as_slice(&self) -> (s: &[u8])
        requires
            self.wf(),
        ensures
            s@ == self@,
    {
        vstd::slice::slice_subrange(self.data.as_slice(), 0, self.len())
    }

    /// The valid bytes as an array of `N` bytes, for a buffer that holds
    /// exactly `N`.
    pub fn as_array<const N: usize>(&self) -> (a: [u8; N])
        requires
            self.wf(),
            self.spec_len() == N,
        ensures
            a@ == self@,
    {
        let mut a = [0u8; N];
        let mut i: usize = 0;
        while i < N
            invariant
                i <= N,
                N == self.length,
                self.length <= self.data@.len(),
                forall|j: int| 0 <= j < i ==> a@[j] == self.data@[j],
            decreases N - i,
        {
            a[i] = self.data[i];
            i += 1;
        }
        a
    }
}

} // verus!
