use vstd::prelude::*;

verus! {

/// How a staging buffer is made: the bytes it starts out holding, and the least
/// capacity it is given.
pub struct BufCfg {
    initial_data: Vec<u8>,
    min_capacity: usize,
}

impl BufCfg {
    /// The bytes a buffer built from this configuration starts out holding.
    pub closed spec fn seed(&self) -> Seq<u8> {
        self.initial_data@
    }

    /// The capacity asked for, before the seed is taken into account.
    pub closed spec fn least_capacity(&self) -> nat {
        self.min_capacity as nat
    }

    /// The capacity of a buffer built from this configuration: the greater of
    /// the seed's length and the capacity asked for.
    pub open spec fn capacity(&self) -> nat {
        if self.seed().len() > self.least_capacity() {
            self.seed().len()
        } else {
            self.least_capacity()
        }
    }

    /// The capacity of a buffer built from this configuration.
    pub fn resulting_capacity(&self) -> (r: usize)
        ensures
            r == self.capacity(),
    {
        if self.initial_data.len() > self.min_capacity {
            self.initial_data.len()
        } else {
            self.min_capacity
        }
    }

    /// Configure an empty buffer with the given capacity.
    pub fn with_capacity(capacity: usize) -> (r: Self)
        ensures
            r.seed() == Seq::<u8>::empty(),
            r.least_capacity() == capacity,
    {
        BufCfg { initial_data: Vec::new(), min_capacity: capacity }
    }

    /// Configure a buffer that starts out holding `initial_data`. Its capacity is
    /// the greater of `initial_data.len()` and `min_capacity`.
    pub fn with_data(initial_data: Vec<u8>, min_capacity: usize) -> (r: Self)
        ensures
            r.seed() == initial_data@,
            r.least_capacity() == min_capacity,
    {
        BufCfg { initial_data, min_capacity }
    }
}

/// Two drains in a row, each taking bytes from the front of what is pending,
/// hand out every byte once and in order: what they handed out, followed by what
/// stays, is what was pending before.
pub proof fn lemma_drains_partition(
    before: Seq<u8>,
    first: Seq<u8>,
    between: Seq<u8>,
    second: Seq<u8>,
    after: Seq<u8>,
)
    requires
        first.len() <= before.len(),
        first == before.take(first.len() as int),
        between == before.skip(first.len() as int),
        second.len() <= between.len(),
        second == between.take(second.len() as int),
        after == between.skip(second.len() as int),
    ensures
        first + second + after == before,
{
    assert(first + second + after =~= before);
}

/// What a staging buffer has let out, followed by what it still holds, is what it
/// was seeded with followed by what it took in. Appending (`read_from`, `write`)
/// and draining (`read`, `write_to`) each keep this, so over any sequence of calls
/// every byte leaves once, in the order it came in.
pub proof fn lemma_stream_conserved(
    sent: Seq<u8>,
    pending: Seq<u8>,
    arrived: Seq<u8>,
    appended: Seq<u8>,
    drained: nat,
)
    requires
        sent + pending == arrived,
        drained <= pending.len() + appended.len(),
    ensures
        sent + (pending + appended) == arrived + appended,
        (sent + (pending + appended).take(drained as int)) + (pending + appended).skip(
            drained as int,
        ) == arrived + appended,
{
    assert(sent + (pending + appended) =~= arrived + appended);
    assert((sent + (pending + appended).take(drained as int)) + (pending + appended).skip(
        drained as int,
    ) =~= sent + (pending + appended));
}

/// Fixed storage with a window `[start, end)` of pending bytes.
struct Internals {
    buf: Vec<u8>,
    start: usize,
    end: usize,
}

impl Internals {
    spec fn wf(&self) -> bool {
        &&& self.start <= self.end <= self.buf@.len()
        &&& self.buf@.len() >= 1
        &&& self.start == self.end ==> self.end == 0
    }

    spec fn pending(&self) -> Seq<u8> {
        self.buf@.subrange(self.start as int, self.end as int)
    }

    fn build_from(cfg: BufCfg) -> (r: Self)
        requires
            cfg.capacity() >= 1,
        ensures
            r.wf(),
            r.start == 0,
            r.end == cfg.seed().len(),
            r.buf@.len() == cfg.capacity(),
            r.pending() == cfg.seed(),
    {
        let mut buf: Vec<u8> = cfg.initial_data;
        let end = buf.len();
        if buf.len() < cfg.min_capacity {
            buf.resize(cfg.min_capacity, 0u8);
        }
        assert(buf@.subrange(0, end as int) == cfg.seed());
        Internals { buf, start: 0, end }
    }

    fn is_empty(&self) -> (r: bool)
        ensures
            r == (self.end == 0),
    {
        self.end == 0
    }

    fn is_full(&self) -> (r: bool)
        ensures
            r == (self.end == self.buf@.len()),
    {
        self.end == self.buf.len()
    }

    /// Drop `delta` pending bytes from the front; once none are left, both
    /// cursors go back to the beginning of the storage.
    fn advance_start(&mut self, delta: usize)
        requires
            old(self).wf(),
            delta <= old(self).end - old(self).start,
        ensures
            final(self).wf(),
            final(self).buf@ == old(self).buf@,
            final(self).pending() == old(self).pending().skip(delta as int),
            old(self).start + delta == old(self).end ==> final(self).end == 0,
            old(self).start + delta < old(self).end ==> final(self).start == old(self).start
                + delta && final(self).end == old(self).end,
    {
        self.start = self.start + delta;
        if self.start == self.end {
            self.start = 0;
            self.end = 0;
        }
        assert(self.pending() =~= old(self).pending().skip(delta as int));
    }

    fn copy_pending(&self) -> (r: Vec<u8>)
        requires
            self.wf(),
        ensures
            r@ == self.pending(),
    {
        let mut out: Vec<u8> = Vec::new();
        let mut i: usize = self.start;
        while i < self.end
            invariant
                self.wf(),
                self.start <= i <= self.end,
                out@ == self.pending().take(i - self.start),
            decreases self.end - i,
        {
            out.push(self.buf[i]);
            i = i + 1;
            assert(out@ =~= self.pending().take(i - self.start));
        }
        assert(out@ =~= self.pending());
        out
    }

    /// Copy the first `n` bytes of `src` after the pending ones.
    fn append(&mut self, src: &[u8], n: usize)
        requires
            old(self).wf(),
            n <= src@.len(),
            old(self).end + n <= old(self).buf@.len(),
        ensures
            final(self).wf(),
            final(self).buf@.len() == old(self).buf@.len(),
            final(self).pending() == old(self).pending() + src@.take(n as int),
            n > 0 ==> final(self).start == old(self).start,
            final(self).end == old(self).end + n,
    {
        if n == 0 {
            assert(self.pending() =~= old(self).pending() + src@.take(0));
            return;
        }
        let ghost before = self.buf@;
        let cap = self.buf.len();
        let end = self.end;
        let mut i: usize = 0;
        while i < n
            invariant
                0 <= i <= n,
                n <= src@.len(),
                end + n <= self.buf@.len(),
                self.buf@.len() == before.len(),
                before.len() == cap,
                self.end == end,
                self.start == old(self).start,
                forall|k: int| 0 <= k < end ==> self.buf@[k] == before[k],
                forall|k: int| 0 <= k < i ==> self.buf@[end + k] == src@[k],
            decreases n - i,
        {
            self.buf.set(end + i, src[i]);
            i = i + 1;
        }
        self.end = end + n;
        assert(self.pending() =~= old(self).pending() + src@.take(n as int));
    }
}

/// Staging buffer for bytes that came in from the transport and wait to be
/// handed to the engine.
pub struct ReadBuffer {
    internals: Internals,
}

impl View for ReadBuffer {
    type V = Seq<u8>;

    /// The pending bytes, oldest first.
    closed spec fn view(&self) -> Seq<u8> {
        self.internals.pending()
    }
}

impl ReadBuffer {
    pub closed spec fn wf(&self) -> bool {
        self.internals.wf()
    }

    /// Offset of the oldest pending byte in the storage.
    pub closed spec fn start_index(&self) -> nat {
        self.internals.start as nat
    }

    /// Offset just past the newest pending byte in the storage.
    pub closed spec fn end_index(&self) -> nat {
        self.internals.end as nat
    }

    pub closed spec fn capacity(&self) -> nat {
        self.internals.buf@.len()
    }

    /// Room left for bytes from the transport.
    pub open spec fn free_space(&self) -> nat {
        (self.capacity() - self.end_index()) as nat
    }

    /// The cursors stay in order and inside the storage.
    pub proof fn lemma_cursors(&self)
        requires
            self.wf(),
        ensures
            self.start_index() <= self.end_index() <= self.capacity(),
            self.capacity() >= 1,
            self@.len() == self.end_index() - self.start_index(),
            self.end_index() == 0 <==> self@.len() == 0,
    {
    }

    /// Once every pending byte has left, both cursors are back at the beginning and
    /// the whole capacity is free for the next bytes.
    pub proof fn lemma_drained_reclaims(&self)
        requires
            self.wf(),
            self@.len() == 0,
        ensures
            self.start_index() == 0,
            self.end_index() == 0,
            self.free_space() == self.capacity(),
    {
    }

    /// A buffer that holds the configuration's seed, with the configuration's capacity.
    pub fn build_from(cfg: BufCfg) -> (r: Self)
        requires
            cfg.capacity() >= 1,
        ensures
            r.wf(),
            r@ == cfg.seed(),
            r.capacity() == cfg.capacity(),
            r.start_index() == 0,
            r.end_index() == cfg.seed().len(),
    {
        ReadBuffer { internals: Internals::build_from(cfg) }
    }

    pub fn is_empty(&self) -> (r: bool)
        requires
            self.wf(),
        ensures
            r == (self@.len() == 0),
            r == (self.end_index() == 0),
    {
        self.internals.is_empty()
    }

    /// Room left for bytes from the transport.
    pub fn free_len(&self) -> (r: usize)
        requires
            self.wf(),
        ensures
            r == self.free_space(),
    {
        self.internals.buf.len() - self.internals.end
    }

    /// How many bytes are pending.
    pub fn len(&self) -> (r: usize)
        requires
            self.wf(),
        ensures
            r == self@.len(),
    {
        self.internals.end - self.internals.start
    }

    /// The pending bytes, to be offered to the engine.
    pub fn pending(&self) -> (r: Vec<u8>)
        requires
            self.wf(),
        ensures
            r@ == self@,
    {
        self.internals.copy_pending()
    }

    /// Take in the bytes one read of the transport produced; they go after the
    /// pending ones. Returns how many were read: zero when the transport has
    /// reached its end.
    pub fn read_from(&mut self, bytes_read: &[u8]) -> (r: usize)
        requires
            old(self).wf(),
            bytes_read@.len() <= old(self).free_space(),
        ensures
            final(self).wf(),
            r == bytes_read@.len(),
            final(self)@ == old(self)@ + bytes_read@,
            final(self).capacity() == old(self).capacity(),
            r > 0 ==> final(self).start_index() == old(self).start_index(),
            final(self).end_index() == old(self).end_index() + r,
    {
        let n = bytes_read.len();
        self.internals.append(bytes_read, n);
        assert(bytes_read@.take(n as int) =~= bytes_read@);
        n
    }

    /// Hand up to `max` pending bytes, oldest first, to their consumer; they leave
    /// the buffer.
    pub fn read(&mut self, max: usize) -> (r: Vec<u8>)
        requires
            old(self).wf(),
        ensures
            final(self).wf(),
            r@.len() == if max < old(self)@.len() { max as int } else { old(self)@.len() as int },
            r@ == old(self)@.take(r@.len() as int),
            final(self)@ == old(self)@.skip(r@.len() as int),
            final(self).capacity() == old(self).capacity(),
    {
        let len = self.internals.end - self.internals.start;
        let len = if max < len { max } else { len };
        let mut out: Vec<u8> = Vec::with_capacity(len);
        let start = self.internals.start;
        let mut i: usize = 0;
        while i < len
            invariant
                0 <= i <= len,
                start == self.internals.start,
                start + len <= self.internals.end <= self.internals.buf@.len(),
                out@ == self@.take(i as int),
            decreases len - i,
        {
            out.push(self.internals.buf[start + i]);
            i = i + 1;
            assert(out@ =~= self@.take(i as int));
        }
        self.internals.advance_start(len);
        out
    }
}

/// Staging buffer for bytes the engine produced that wait to go out on the
/// transport.
pub struct WriteBuffer {
    internals: Internals,
}

impl View for WriteBuffer {
    type V = Seq<u8>;

    /// The pending bytes, oldest first.
    closed spec fn view(&self) -> Seq<u8> {
        self.internals.pending()
    }
}

impl WriteBuffer {
    pub closed spec fn wf(&self) -> bool {
        self.internals.wf()
    }

    /// Offset of the oldest pending byte in the storage.
    pub closed spec fn start_index(&self) -> nat {
        self.internals.start as nat
    }

    /// Offset just past the newest pending byte in the storage.
    pub closed spec fn end_index(&self) -> nat {
        self.internals.end as nat
    }

    pub closed spec fn capacity(&self) -> nat {
        self.internals.buf@.len()
    }

    /// Room left for bytes from the engine.
    pub open spec fn free_space(&self) -> nat {
        (self.capacity() - self.end_index()) as nat
    }

    /// The cursors stay in order and inside the storage.
    pub proof fn lemma_cursors(&self)
        requires
            self.wf(),
        ensures
            self.start_index() <= self.end_index() <= self.capacity(),
            self.capacity() >= 1,
            self@.len() == self.end_index() - self.start_index(),
            self.end_index() == 0 <==> self@.len() == 0,
    {
    }

    /// Once every pending byte has left, both cursors are back at the beginning and
    /// the whole capacity is free for the next bytes.
    pub proof fn lemma_drained_reclaims(&self)
        requires
            self.wf(),
            self@.len() == 0,
        ensures
            self.start_index() == 0,
            self.end_index() == 0,
            self.free_space() == self.capacity(),
    {
    }

    /// A buffer that holds the configuration's seed, with the configuration's capacity.
    pub fn build_from(cfg: BufCfg) -> (r: Self)
        requires
            cfg.capacity() >= 1,
        ensures
            r.wf(),
            r@ == cfg.seed(),
            r.capacity() == cfg.capacity(),
            r.start_index() == 0,
            r.end_index() == cfg.seed().len(),
    {
        WriteBuffer { internals: Internals::build_from(cfg) }
    }

    pub fn is_empty(&self) -> (r: bool)
        requires
            self.wf(),
        ensures
            r == (self@.len() == 0),
            r == (self.end_index() == 0),
    {
        self.internals.is_empty()
    }

    pub fn is_full(&self) -> (r: bool)
        requires
            self.wf(),
        ensures
            r == (self.free_space() == 0),
    {
        self.internals.is_full()
    }

    /// Room left for bytes from the engine.
    pub fn free_len(&self) -> (r: usize)
        requires
            self.wf(),
        ensures
            r == self.free_space(),
    {
        self.internals.buf.len() - self.internals.end
    }

    /// The pending bytes, to be offered to the transport.
    pub fn pending(&self) -> (r: Vec<u8>)
        requires
            self.wf(),
        ensures
            r@ == self@,
    {
        self.internals.copy_pending()
    }

    /// Record that one write of the transport took the oldest `bytes_written`
    /// pending bytes; they leave the buffer, and once none are left the whole
    /// capacity is free again. Returns how many were written.
    pub fn write_to(&mut self, bytes_written: usize) -> (r: usize)
        requires
            old(self).wf(),
            bytes_written <= old(self)@.len(),
        ensures
            final(self).wf(),
            r == bytes_written,
            final(self)@ == old(self)@.skip(r as int),
            final(self).capacity() == old(self).capacity(),
            final(self)@.len() == 0 ==> final(self).free_space() == final(self).capacity(),
    {
        self.internals.advance_start(bytes_written);
        bytes_written
    }

    /// Take in as many of `src`'s bytes as there is room for, after the pending
    /// ones; never grows. Returns how many were taken.
    pub fn write(&mut self, src: &[u8]) -> (r: usize)
        requires
            old(self).wf(),
        ensures
            final(self).wf(),
            r == if src@.len() < old(self).free_space() { src@.len() as int } else { old(
                self,
            ).free_space() as int },
            final(self)@ == old(self)@ + src@.take(r as int),
            final(self).capacity() == old(self).capacity(),
            r > 0 ==> final(self).start_index() == old(self).start_index(),
            final(self).end_index() == old(self).end_index() + r,
    {
        let room = self.internals.buf.len() - self.internals.end;
        let n = if src.len() < room { src.len() } else { room };
        self.internals.append(src, n);
        n
    }
}

} // verus!
