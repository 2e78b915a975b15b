use vstd::prelude::*;

verus! {

pub open spec fn min_nat(a: nat, b: nat) -> nat {
    if a <= b {
        a
    } else {
        b
    }
}

/// Copies as much of `src` as fits into `dst_left` followed by `dst_right`.
pub fn copy_to_split<T: Copy>(src: &[T], dst_left: &mut [T], dst_right: &mut [T]) -> (copied: usize)
    ensures
        copied == min_nat(src@.len(), old(dst_left)@.len() + old(dst_right)@.len()),
        final(dst_left)@.len() == old(dst_left)@.len(),
        final(dst_right)@.len() == old(dst_right)@.len(),
        final(dst_left)@ + final(dst_right)@ == src@.take(copied as int) + (old(dst_left)@ + old(dst_right)@).skip(copied as int),
{
    let nleft = if src.len() < dst_left.len() { src.len() } else { dst_left.len() };
    let mut i: usize = 0;
    while i < nleft
        invariant
            i <= nleft <= src@.len(),
            nleft <= dst_left@.len(),
            dst_left@.len() == old(dst_left)@.len(),
            dst_left@ == src@.take(i as int) + old(dst_left)@.skip(i as int),
        decreases nleft - i,
    {
        dst_left[i] = src[i];
        i += 1;
    }
    let rest = src.len() - nleft;
    let nright = if rest < dst_right.len() { rest } else { dst_right.len() };
    let mut j: usize = 0;
    while j < nright
        invariant
            j <= nright <= dst_right@.len(),
            nleft + nright <= src@.len() <= usize::MAX,
            dst_right@.len() == old(dst_right)@.len(),
            dst_right@ == src@.subrange(nleft as int, nleft + j) + old(dst_right)@.skip(j as int),
        decreases nright - j,
    {
        dst_right[j] = src[nleft + j];
        j += 1;
    }
    nleft + nright
}

/// Copies as much of `src_left` followed by `src_right` as fits into `dst`.
pub fn copy_from_split<T: Copy>(src_left: &[T], src_right: &[T], dst: &mut [T]) -> (copied: usize)
    ensures
        copied == min_nat(old(dst)@.len(), src_left@.len() + src_right@.len()),
        final(dst)@.len() == old(dst)@.len(),
        final(dst)@ == (src_left@ + src_right@).take(copied as int) + old(dst)@.skip(copied as int),
{
    let nleft = if dst.len() < src_left.len() { dst.len() } else { src_left.len() };
    let mut i: usize = 0;
    while i < nleft
        invariant
            i <= nleft <= src_left@.len(),
            nleft <= dst@.len(),
            dst@.len() == old(dst)@.len(),
            dst@ == src_left@.take(i as int) + old(dst)@.skip(i as int),
        decreases nleft - i,
    {
        dst[i] = src_left[i];
        i += 1;
    }
    let rest = dst.len() - nleft;
    let nright = if rest < src_right.len() { rest } else { src_right.len() };
    let mut j: usize = 0;
    while j < nright
        invariant
            j <= nright <= src_right@.len(),
            nleft <= src_left@.len(),
            nleft + nright <= dst@.len() <= usize::MAX,
            nright > 0 ==> nleft == src_left@.len(),
            dst@.len() == old(dst)@.len(),
            dst@ == src_left@.take(nleft as int) + src_right@.take(j as int) + old(dst)@.skip(
                nleft + j,
            ),
        decreases nright - j,
    {
        dst[nleft + j] = src_right[j];
        j += 1;
    }
    nleft + nright
}

/// The position `offset` places after `start` in a ring of `len` places.
pub open spec fn ring_index(start: int, offset: int, len: int) -> int {
    if start + offset < len {
        start + offset
    } else {
        start + offset - len
    }
}

/// What a ring of `capacity` places holds after `data` is written to it:
/// as much of `data` as there is space for is appended, and nothing that
/// waited to be read is touched.
pub open spec fn ring_write<T>(items: Seq<T>, capacity: nat, data: Seq<T>) -> Seq<T> {
    items + data.take(min_nat(data.len(), (capacity - 1 - items.len()) as nat) as int)
}

/// What a ring holds after the chunks are written one after another.
pub open spec fn ring_write_all<T>(items: Seq<T>, capacity: nat, chunks: Seq<Seq<T>>) -> Seq<T>
    decreases chunks.len(),
{
    if chunks.len() == 0 {
        items
    } else {
        ring_write(ring_write_all(items, capacity, chunks.drop_last()), capacity, chunks.last())
    }
}

/// The chunks laid end to end.
pub open spec fn concat<T>(chunks: Seq<Seq<T>>) -> Seq<T>
    decreases chunks.len(),
{
    if chunks.len() == 0 {
        Seq::empty()
    } else {
        concat(chunks.drop_last()) + chunks.last()
    }
}

/// What a read of up to `want` items hands out.
pub open spec fn ring_read<T>(items: Seq<T>, want: nat) -> Seq<T> {
    items.take(min_nat(want, items.len()) as int)
}

/// Chunks whose lengths add up to less than the ring's capacity all fit
/// into an empty ring, and a read of that total length hands back the same
/// items in the same order.
pub proof fn lemma_write_then_read_round_trip<T>(capacity: nat, chunks: Seq<Seq<T>>)
    requires
        concat(chunks).len() < capacity,
    ensures
        ring_write_all(Seq::<T>::empty(), capacity, chunks) == concat(chunks),
        ring_read(ring_write_all(Seq::<T>::empty(), capacity, chunks), concat(chunks).len())
            == concat(chunks),
    decreases chunks.len(),
{
    if chunks.len() > 0 {
        lemma_write_then_read_round_trip(capacity, chunks.drop_last());
        let before = concat(chunks.drop_last());
        assert(chunks.last().take(chunks.last().len() as int) =~= chunks.last());
    }
    let all = concat(chunks);
    assert(all.take(all.len() as int) =~= all);
}

/// A write to a full ring takes nothing and leaves what waits to be read as
/// it is.
pub proof fn lemma_write_to_full_ring<T>(items: Seq<T>, capacity: nat, data: Seq<T>)
    requires
        items.len() + 1 == capacity,
    ensures
        ring_write(items, capacity, data) == items,
        min_nat(data.len(), (capacity - 1 - items.len()) as nat) == 0,
{
    assert(items + data.take(0) =~= items);
}

/// A write never changes an item that waited to be read, whatever is
/// written.
pub proof fn lemma_write_keeps_unread<T>(items: Seq<T>, capacity: nat, data: Seq<T>, i: int)
    requires
        0 <= i < items.len(),
    ensures
        ring_write(items, capacity, data)[i] == items[i],
        ring_write(items, capacity, data).len() >= items.len(),
{
}

/// A fixed-capacity ring of `N` places with a read cursor and a write
/// cursor. The ring is empty when the cursors meet, so it holds at most
/// `N - 1` items.
pub struct RingBuffer<T, const N: usize> {
    reader: usize,
    writer: usize,
    buffer: [T; N],
}

impl<const N: usize> RingBuffer<u8, N> {
    /// An empty ring of bytes.
    pub fn new() -> (ring: Self)
        ensures
            N > 0 ==> ring.wf(),
            ring@.len() == 0,
    {
        Self::new_with_buffer([0u8;N])
    }
}

impl<T: Copy, const N: usize> RingBuffer<T, N> {
    /// Both cursors point at a place of the ring.
    pub closed spec fn wf(&self) -> bool {
        &&& N > 0
        &&& self.reader < N
        &&& self.writer < N
    }

    /// How many items wait to be read.
    pub closed spec fn count(&self) -> nat {
        if self.reader <= self.writer {
            (self.writer - self.reader) as nat
        } else {
            (self.writer + N - self.reader) as nat
        }
    }

    /// The items that wait to be read, oldest first.
    pub closed spec fn view(&self) -> Seq<T> {
        Seq::new(self.count(), |i: int| self.buffer@[ring_index(self.reader as int, i, N as int)])
    }

    /// How many items a write can still add.
    pub open spec fn space(&self) -> nat {
        (N - 1 - self@.len()) as nat
    }

    pub proof fn lemma_len_bound(&self)
        requires
            self.wf(),
        ensures
            self@.len() <= N - 1,
    {
    }

    /// An empty ring over the given storage.
    pub fn new_with_buffer(buffer: [T; N]) -> (ring: Self)
        ensures
            N > 0 ==> ring.wf(),
            ring@.len() == 0,
    {
        RingBuffer { reader: 0, writer: 0, buffer }
    }

    /// Forgets everything that waits to be read.
    pub fn reset(&mut self)
        ensures
            N > 0 ==> final(self).wf(),
            final(self)@.len() == 0,
    {
        self.reader = 0;
        self.writer = 0;
    }

    /// The number of places in the ring.
    pub fn buffer_len(&self) -> (len: usize)
        ensures
            len == N,
    {
        N
    }

    /// The items that wait to be read, as the two contiguous runs in which
    /// the ring stores them.
    pub(crate) fn reader_slices(&self) -> (slices: (&[T], &[T]))
        requires
            self.wf(),
        ensures
            slices.0@ + slices.1@ == self@,
    {
        // we use <= here because start == end means there is no data in the
        // ringbuffer, and so nothing to read:
        if self.reader <= self.writer {
            // simple contiguous case, no wraparound
            let left = &self.buffer[self.reader..self.writer];
            let right = &self.buffer[0..0];
            assert(left@ + right@ =~= self@);
            (left, right)
        } else {
            // handle wraparound
            // there are two sections: start til len, 0 til end
            let left = &self.buffer[self.reader..N];
            let right = &self.buffer[0..self.writer];
            assert(left@ + right@ =~= self@);
            (left, right)
        }
    }

    /// The places that hold nothing to be read, as the two contiguous runs
    /// in which they lie, starting at the write cursor.
    fn writer_slices(&mut self) -> (slices: (&mut [T], &mut [T]))
        requires
            old(self).wf(),
        ensures
            slices.0@.len() + slices.1@.len() == N - old(self)@.len(),
            final(self).reader == old(self).reader,
            final(self).writer == old(self).writer,
            final(slices.0)@.len() == slices.0@.len() && final(slices.1)@.len() == slices.1@.len()
                ==> forall|i: int|
                0 <= i < N - old(self)@.len() ==> #[trigger] final(self).buffer@[ring_index(
                    old(self).writer as int,
                    i,
                    N as int,
                )] == (final(slices.0)@ + final(slices.1)@)[i],
            final(slices.0)@.len() == slices.0@.len() && final(slices.1)@.len() == slices.1@.len()
                ==> forall|i: int|
                0 <= i < old(self)@.len() ==> #[trigger] final(self).buffer@[ring_index(
                    old(self).reader as int,
                    i,
                    N as int,
                )] == old(self)@[i],
    {
        let writer = self.writer;
        let reader = self.reader;
        if writer < reader {
            // simple contiguous case, no wraparound
            let (low, high) = self.buffer.split_at_mut(writer);
            let (left, _) = high.split_at_mut(reader - writer);
            let (right, _) = low.split_at_mut(0);
            (left, right)
        } else {
            // handle wraparound
            // there are two sections: start til len, 0 til end
            let (low, left) = self.buffer.split_at_mut(writer);
            let (right, _) = low.split_at_mut(reader);
            (left, right)
        }
    }

    /// Moves the read cursor past `copied` items.
    pub(crate) fn advance_reader(&mut self, copied: usize)
        requires
            old(self).wf(),
            copied <= old(self)@.len(),
        ensures
            final(self).wf(),
            final(self)@ == old(self)@.skip(copied as int),
    {
        let room = N - self.reader;
        let reader = if copied < room {
            self.reader + copied
        } else {
            copied - room
        };
        self.reader = reader;
        assert(self@ =~= old(self)@.skip(copied as int));
    }

    /// Moves the write cursor past `copied` places.
    fn advance_writer(&mut self, copied: usize)
        requires
            old(self).wf(),
            copied <= old(self).space(),
        ensures
            final(self).wf(),
            final(self).reader == old(self).reader,
            final(self).buffer == old(self).buffer,
            final(self).writer == ring_index(old(self).writer as int, copied as int, N as int),
            final(self)@.len() == old(self)@.len() + copied,
    {
        let room = N - self.writer;
        let writer = if copied < room {
            self.writer + copied
        } else {
            copied - room
        };
        self.writer = writer;
    }

    /// The place `offset` items behind the read cursor is the place
    /// `offset - count` places behind the write cursor.
    proof fn lemma_ring_index_shift(&self, offset: int)
        requires
            self.wf(),
            self@.len() <= offset < N,
        ensures
            ring_index(self.reader as int, offset, N as int) == ring_index(
                self.writer as int,
                offset - self@.len(),
                N as int,
            ),
    {
    }

    /// Copies the oldest waiting items into `data`, as many as fit, and
    /// removes them from the ring. Returns how many were copied.
    pub fn read(&mut self, data: &mut [T]) -> (copied: usize)
        requires
            old(self).wf(),
        ensures
            final(self).wf(),
            copied == min_nat(old(data)@.len(), old(self)@.len()),
            final(data)@ == old(self)@.take(copied as int) + old(data)@.skip(copied as int),
            final(data)@.take(copied as int) == ring_read(old(self)@, old(data)@.len()),
            final(self)@ == old(self)@.skip(copied as int),
    {
        let (left, right) = self.reader_slices();
        let copied = copy_from_split(left, right, data);
        self.advance_reader(copied);
        copied
    }

    /// Hands the waiting items to `func` as two runs, oldest first, and
    /// removes from the ring as many items as `func` says it has used.
    pub fn read_in_place<F: FnOnce(&[T], &[T]) -> usize>(&mut self, func: F) -> (copied: usize)
        requires
            old(self).wf(),
            forall|left: &[T], right: &[T]|
                left@ + right@ == old(self)@ ==> func.requires((left, right)),
            forall|left: &[T], right: &[T], used: usize|
                func.ensures((left, right), used) ==> used <= left@.len() + right@.len(),
        ensures
            final(self).wf(),
            copied <= old(self)@.len(),
            exists|left: &[T], right: &[T]|
                left@ + right@ == old(self)@ && func.ensures((left, right), copied),
            final(self)@ == old(self)@.skip(copied as int),
    {
        let (left, right) = self.reader_slices();
        let copied = func(left, right);
        self.advance_reader(copied);
        copied
    }

    /// Appends the items of `data`, as many as there is space for, and
    /// returns how many were appended. What waits to be read is never
    /// overwritten: a full ring takes nothing.
    pub fn write(&mut self, data: &[T]) -> (copied: usize)
        requires
            old(self).wf(),
        ensures
            final(self).wf(),
            copied == min_nat(data@.len(), old(self).space()),
            final(self)@ == old(self)@ + data@.take(copied as int),
            final(self)@ == ring_write(old(self)@, N as nat, data@),
    {
        let ghost before = *self;
        let (left, right) = self.writer_slices();
        let available = left.len() + right.len();

        let part = if data.len() >= available {
            // we need to never fill up the entire ringbuffer, since
            // reader == writer indicates that it is empty. so, if we would
            // fill the ring buffer, slice data so that we don't
            &data[0..(available.saturating_sub(1))]
        } else {
            data
        };

        let copied = copy_to_split(part, left, right);
        let ghost written = left@ + right@;
        let ghost filled = *self;
        self.advance_writer(copied);
        proof {
            let expected = before@ + data@.take(copied as int);
            assert forall|i: int| 0 <= i < expected.len() implies self@[i] == expected[i] by {
                if i < before@.len() {
                    assert(filled.buffer@[ring_index(before.reader as int, i, N as int)]
                        == before@[i]);
                } else {
                    let k = i - before@.len();
                    before.lemma_ring_index_shift(i);
                    assert(filled.buffer@[ring_index(before.writer as int, k, N as int)]
                        == written[k]);
                }
            }
            assert(self@ =~= expected);
        }
        copied
    }

    /// Fills all the space that is left with copies of `value`.
    pub fn fill(&mut self, value: T)
        requires
            old(self).wf(),
        ensures
            final(self).wf(),
            final(self)@ == old(self)@ + Seq::new(old(self).space(), |i: int| value),
    {
        let ghost before = *self;
        let (left, right) = self.writer_slices();
        let nleft = left.len();
        let nright = right.len();
        let mut i: usize = 0;
        while i < nleft
            invariant
                i <= nleft == left@.len(),
                forall|k: int| 0 <= k < i ==> left@[k] == value,
            decreases nleft - i,
        {
            left[i] = value;
            i += 1;
        }
        let mut j: usize = 0;
        while j < nright
            invariant
                j <= nright == right@.len(),
                forall|k: int| 0 <= k < j ==> right@[k] == value,
            decreases nright - j,
        {
            right[j] = value;
            j += 1;
        }
        let ghost written = left@ + right@;
        let ghost filled = *self;
        let copied = (nleft + nright).saturating_sub(1);
        self.advance_writer(copied);
        proof {
            let expected = before@ + Seq::new(before.space(), |i: int| value);
            assert forall|i: int| 0 <= i < expected.len() implies self@[i] == expected[i] by {
                if i < before@.len() {
                    assert(filled.buffer@[ring_index(before.reader as int, i, N as int)]
                        == before@[i]);
                } else {
                    let k = i - before@.len();
                    before.lemma_ring_index_shift(i);
                    assert(filled.buffer@[ring_index(before.writer as int, k, N as int)]
                        == written[k]);
                }
            }
            assert(self@ =~= expected);
        }
    }
}

} // verus!
