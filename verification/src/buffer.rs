//! The reusable byte buffer and the read techniques that fill it.
//!
//! A buffer has a fixed capacity, a region of initialized bytes and a logical
//! length: the leading part of the region that counts as valid data. A file
//! is read from a byte source, the bytes that reading it from the start
//! delivers.

use vstd::prelude::*;
use vstd::math::min;
use vstd::slice::slice_subrange;
use crate::report::Failure;

verus! {

/// An owned byte region that is allocated once and reused.
pub struct Buffer {
    store: Vec<u8>,
    len: usize,
    capacity: usize,
}

/// A window into a buffer's region: `len` bytes starting at `offset`.
#[derive(Clone, Copy, Debug, PartialEq, Eq, Structural)]
pub struct Window {
    pub offset: usize,
    pub len: usize,
}

impl Window {
    /// Whether the window lies within the initialized region of `buffer`.
    pub open spec fn fits(&self, buffer: &Buffer) -> bool {
        self.offset + self.len <= buffer.region().len()
    }

    /// A window whose bounds are not tested when it is made. Whoever reads
    /// through it has to know that it fits.
    pub fn trusted(offset: usize, len: usize) -> (window: Window)
        ensures
            window == (Window { offset, len }),
    {
        Window { offset, len }
    }
}

impl View for Buffer {
    type V = Seq<u8>;

    /// The valid data: the first `spec_len()` bytes of the region.
    open spec fn view(&self) -> Seq<u8> {
        self.region().take(self.spec_len() as int)
    }
}

/// The bytes that a source limited to `limit` bytes delivers.
pub open spec fn limited(source: Seq<u8>, limit: nat) -> Seq<u8> {
    source.take(min(limit as int, source.len() as int))
}

/// A region in which the `len` bytes from `offset` on are replaced by the
/// first `len` bytes of `source`.
pub open spec fn overwritten(region: Seq<u8>, offset: nat, len: nat, source: Seq<u8>) -> Seq<u8> {
    region.take(offset as int) + source.take(len as int) + region.skip((offset + len) as int)
}

/// Limits a source to its first `bound` bytes.
pub fn limit(source: &[u8], bound: usize) -> (head: &[u8])
    ensures
        head@ == limited(source@, bound as nat),
{
    if bound < source.len() {
        slice_subrange(source, 0, bound)
    } else {
        assert(source@.take(source@.len() as int) =~= source@);
        source
    }
}

impl Buffer {
    /// All initialized bytes, valid or not.
    pub closed spec fn region(&self) -> Seq<u8> {
        self.store@
    }

    /// The logical length.
    pub closed spec fn spec_len(&self) -> nat {
        self.len as nat
    }

    /// The capacity that the buffer was allocated with.
    pub closed spec fn spec_capacity(&self) -> nat {
        self.capacity as nat
    }

    /// The invariant: the valid data lies in the initialized region, which
    /// lies within the capacity.
    pub open spec fn wf(&self) -> bool {
        self.spec_len() <= self.region().len() <= self.spec_capacity()
    }

    /// Whether every byte of the capacity is initialized.
    pub open spec fn is_presized(&self) -> bool {
        self.region().len() == self.spec_capacity()
    }

    /// A buffer with `capacity` reserved and no data in it.
    pub fn reserved(capacity: usize) -> (buffer: Buffer)
        ensures
            buffer.wf(),
            buffer.spec_capacity() == capacity,
            buffer.region() == Seq::<u8>::empty(),
            buffer.spec_len() == 0,
    {
        Buffer { store: Vec::with_capacity(capacity), len: 0, capacity }
    }

    /// A buffer of `capacity` bytes, each of them zero and all of them valid.
    pub fn zeroed(capacity: usize) -> (buffer: Buffer)
        ensures
            buffer.wf(),
            buffer.is_presized(),
            buffer.spec_capacity() == capacity,
            buffer.region() == Seq::new(capacity as nat, |i: int| 0u8),
            buffer.spec_len() == capacity,
    {
        let mut store: Vec<u8> = Vec::with_capacity(capacity);
        while store.len() < capacity
            invariant
                store.len() <= capacity,
                forall|i: int| 0 <= i < store.len() ==> store@[i] == 0u8,
            decreases capacity - store.len(),
        {
            store.push(0u8);
        }
        assert(store@ =~= Seq::new(capacity as nat, |i: int| 0u8));
        Buffer { store, len: capacity, capacity }
    }

    /// The capacity.
    pub fn capacity(&self) -> (capacity: usize)
        ensures
            capacity == self.spec_capacity(),
    {
        self.capacity
    }

    /// The logical length.
    pub fn len(&self) -> (len: usize)
        ensures
            len == self.spec_len(),
    {
        self.len
    }

    /// The number of initialized bytes.
    pub fn initialized(&self) -> (len: usize)
        ensures
            len == self.region().len(),
    {
        self.store.len()
    }

    /// The valid data.
    pub fn as_slice(&self) -> (bytes: &[u8])
        requires
            self.wf(),
        ensures
            bytes@ == self@,
    {
        slice_subrange(self.store.as_slice(), 0, self.len)
    }

    /// The whole initialized region, whatever the logical length.
    pub fn whole(&self) -> (bytes: &[u8])
        ensures
            bytes@ == self.region(),
    {
        self.store.as_slice()
    }

    /// Drops all data: the logical length becomes zero and no byte stays
    /// initialized. The capacity stays.
    pub fn clear(&mut self)
        requires
            old(self).wf(),
        ensures
            final(self).wf(),
            final(self).spec_capacity() == old(self).spec_capacity(),
            final(self).region() == Seq::<u8>::empty(),
            final(self).spec_len() == 0,
    {
        self.store.clear();
        self.len = 0;
    }

    /// Declares the first `len` bytes of the region valid, without touching
    /// a byte. The caller has to know that so many bytes are initialized.
    pub fn set_len(&mut self, len: usize)
        requires
            old(self).wf(),
            len <= old(self).region().len(),
        ensures
            final(self).wf(),
            final(self).spec_capacity() == old(self).spec_capacity(),
            final(self).region() == old(self).region(),
            final(self).spec_len() == len,
    {
        self.len = len;
    }

    /// Makes a window after testing that it lies within the initialized
    /// region.
    pub fn window(&self, offset: usize, len: usize) -> (window: Option<Window>)
        ensures
            window == (if offset + len <= self.region().len() {
                Some(Window { offset, len })
            } else {
                None
            }),
    {
        let end: usize = self.store.len();
        if len <= end && offset <= end - len {
            Some(Window { offset, len })
        } else {
            None
        }
    }

    /// Reads the source to its end, appending to the valid data, as far as
    /// the capacity goes. Returns the number of bytes appended. Bytes of the
    /// region behind the valid data are given up.
    pub fn read_to_end(&mut self, source: &[u8]) -> (count: usize)
        requires
            old(self).wf(),
        ensures
            final(self).wf(),
            final(self).spec_capacity() == old(self).spec_capacity(),
            count == min(source@.len() as int, old(self).spec_capacity() - old(self).spec_len()),
            final(self)@ == old(self)@ + source@.take(count as int),
            final(self).region() == final(self)@,
    {
        self.store.truncate(self.len);
        let mut count: usize = 0;
        while count < source.len() && self.store.len() < self.capacity
            invariant
                self.capacity == old(self).capacity,
                self.store.len() == old(self).len + count,
                self.store.len() <= self.capacity,
                count <= source@.len(),
                self.store@ == old(self)@ + source@.take(count as int),
            decreases source@.len() - count,
        {
            self.store.push(source[count]);
            count = count + 1;
            assert(self.store@ =~= old(self)@ + source@.take(count as int));
        }
        self.len = self.store.len();
        assert(self.store@.take(self.len as int) =~= self.store@);
        count
    }

    /// Replaces the `len` bytes from `offset` on by the first `len` bytes of
    /// the source.
    fn overwrite(&mut self, source: &[u8], offset: usize, len: usize)
        requires
            old(self).wf(),
            offset + len <= old(self).region().len(),
            len <= source@.len(),
        ensures
            final(self).wf(),
            final(self).spec_capacity() == old(self).spec_capacity(),
            final(self).spec_len() == old(self).spec_len(),
            final(self).region() == overwritten(
                old(self).region(),
                offset as nat,
                len as nat,
                source@,
            ),
    {
        let mut done: usize = 0;
        while done < len
            invariant
                self.capacity == old(self).capacity,
                self.len == old(self).len,
                done <= len <= source@.len(),
                offset + len <= old(self).store.len(),
                self.store@ == overwritten(old(self).store@, offset as nat, done as nat, source@),
            decreases len - done,
        {
            self.store.set(offset + done, source[done]);
            done = done + 1;
            assert(self.store@ =~= overwritten(
                old(self).store@,
                offset as nat,
                done as nat,
                source@,
            ));
        }
    }

    /// Fills the window with exactly as many bytes from the source as it
    /// holds. Where the source ends before that, nothing is written and the
    /// read fails as a short read.
    pub fn read_exact(&mut self, source: &[u8], window: Window) -> (result: Result<(), Failure>)
        requires
            old(self).wf(),
            window.fits(old(self)),
        ensures
            final(self).wf(),
            final(self).spec_capacity() == old(self).spec_capacity(),
            final(self).spec_len() == old(self).spec_len(),
            source@.len() < window.len ==> result == Err::<(), Failure>(Failure::ShortRead)
                && final(self).region() == old(self).region(),
            source@.len() >= window.len ==> result == Ok::<(), Failure>(())
                && final(self).region() == overwritten(
                old(self).region(),
                window.offset as nat,
                window.len as nat,
                source@,
            ),
    {
        if source.len() < window.len {
            Err(Failure::ShortRead)
        } else {
            self.overwrite(source, window.offset, window.len);
            Ok(())
        }
    }

    /// Reads once into the whole region: as many bytes as the source has, or
    /// as the region holds where that is fewer. Returns their number.
    pub fn read(&mut self, source: &[u8]) -> (count: usize)
        requires
            old(self).wf(),
        ensures
            final(self).wf(),
            final(self).spec_capacity() == old(self).spec_capacity(),
            final(self).spec_len() == old(self).spec_len(),
            count == min(source@.len() as int, old(self).region().len() as int),
            final(self).region() == overwritten(old(self).region(), 0, count as nat, source@),
    {
        let room: usize = self.store.len();
        let count: usize = if source.len() < room { source.len() } else { room };
        self.overwrite(source, 0, count);
        count
    }
}

} // verus!
