//! NNG messages: a header and a body of bytes, a read position, and the capacity of the body
//! buffer.
use crate::aio::AioError;
use vstd::prelude::*;

verus! {

/// The smallest power of two that is at least `n` (one for zero).
pub open spec fn ceil_pow2(n: nat) -> nat
    decreases n,
{
    if n <= 1 {
        1
    } else {
        2 * ceil_pow2(((n + 1) / 2) as nat)
    }
}

/// Whether `n` is a power of two.
pub open spec fn is_pow2(n: nat) -> bool
    decreases n,
{
    if n == 1 {
        true
    } else if n == 0 || n % 2 == 1 {
        false
    } else {
        is_pow2(n / 2)
    }
}

/// `ceil_pow2(n)` is a power of two, at least `n`, and the smallest such: below it lies no
/// power of two that is at least `n`.
pub proof fn lemma_ceil_pow2(n: nat)
    ensures
        is_pow2(ceil_pow2(n)),
        n <= ceil_pow2(n),
        n <= 1 || ceil_pow2(n) / 2 < n,
        forall|p: nat| #[trigger] is_pow2(p) && n <= p ==> ceil_pow2(n) <= p,
    decreases n,
{
    if n > 1 {
        let h = ((n + 1) / 2) as nat;
        lemma_ceil_pow2(h);
        assert forall|p: nat| #[trigger] is_pow2(p) && n <= p implies ceil_pow2(n) <= p by {
            assert(p != 1);
            assert(p % 2 == 0);
            assert(is_pow2(p / 2));
            assert(h <= p / 2);
        }
    }
}

/// A power of two is its own `ceil_pow2`.
pub proof fn lemma_ceil_pow2_of_pow2(n: nat)
    requires
        is_pow2(n),
    ensures
        ceil_pow2(n) == n,
{
    lemma_ceil_pow2(n);
    lemma_pow2_positive(n);
}

/// A power of two is positive.
proof fn lemma_pow2_positive(n: nat)
    requires
        is_pow2(n),
    ensures
        n >= 1,
{
}

/// `usize::checked_next_power_of_two`: the smallest power of two that is at least `n`, or
/// `None` when that power of two does not fit in a `usize`.
#[verifier::external_body]
fn checked_next_power_of_two(n: usize) -> (r: Option<usize>)
    ensures
        r == (if ceil_pow2(n as nat) <= usize::MAX {
            Some(ceil_pow2(n as nat) as usize)
        } else {
            None
        }),
{
    n.checked_next_power_of_two()
}

/// The next power of two of a capacity, or `usize::MAX` when it does not fit in a `usize`.
pub open spec fn next_pow2_or_max(cap: nat) -> nat {
    if ceil_pow2(cap) <= usize::MAX {
        ceil_pow2(cap)
    } else {
        usize::MAX as nat
    }
}

/// The capacity that [`Message::reserve`] leaves: unchanged when the body plus `additional`
/// bytes already fit, and otherwise the larger of the required capacity and the next power of
/// two of the current capacity.
pub open spec fn reserved_capacity(len: nat, cap: nat, additional: nat) -> nat {
    let required = len + additional;
    if required > cap {
        if required > next_pow2_or_max(cap) {
            required
        } else {
            next_pow2_or_max(cap)
        }
    } else {
        cap
    }
}

/// The capacity of a freshly allocated message asked to hold `size` bytes: exactly `size`
/// for powers of two of at least 1024, and `size` plus 32 bytes of headroom otherwise (capped
/// at `usize::MAX`).
pub open spec fn allocated_capacity(size: nat) -> nat {
    if size >= 1024 && is_pow2(size) {
        size
    } else if size + 32 <= usize::MAX {
        size + 32
    } else {
        usize::MAX as nat
    }
}

/// The larger of `a` and `b`.
pub open spec fn max_nat(a: nat, b: nat) -> nat {
    if a >= b {
        a
    } else {
        b
    }
}

/// The smaller of `a` and `b`.
pub open spec fn min_nat(a: nat, b: nat) -> nat {
    if a <= b {
        a
    } else {
        b
    }
}

/// The state of a freshly allocated message asked to hold `size` bytes: empty, with the
/// allocated capacity.
pub open spec fn allocated_view(size: nat) -> MessageView {
    MessageView {
        header: Seq::empty(),
        body: Seq::empty(),
        spare: Seq::empty(),
        pos: 0,
        capacity: allocated_capacity(size),
    }
}

/// The abstract state of a [`Message`].
pub struct MessageView {
    /// Protocol-specific metadata.
    pub header: Seq<u8>,
    /// Application data payload.
    pub body: Seq<u8>,
    /// Bytes that the buffer still holds past the end of the body, earliest first: what
    /// shortening the body cut off, and what extending it without writing will expose again.
    pub spare: Seq<u8>,
    /// Current position for reading operations.
    pub pos: nat,
    /// Capacity of the body buffer.
    pub capacity: nat,
}

impl MessageView {
    /// The read position lies within the body, and the body fits in the capacity.
    pub open spec fn wf(self) -> bool {
        self.pos <= self.body.len() <= self.capacity
    }

    /// The state after keeping only the first `len` bytes of the body.
    pub open spec fn truncated(self, len: nat) -> MessageView {
        if len > self.body.len() {
            self
        } else {
            MessageView {
                header: self.header,
                body: self.body.take(len as int),
                spare: self.body.skip(len as int) + self.spare,
                pos: min_nat(self.pos, len),
                capacity: self.capacity,
            }
        }
    }

    /// The state after keeping only the last `len` bytes of the body.
    pub open spec fn truncated_front(self, len: nat) -> MessageView {
        if len > self.body.len() {
            self
        } else {
            let trim = (self.body.len() - len) as nat;
            MessageView {
                header: self.header,
                body: self.body.skip(trim as int),
                spare: self.spare,
                pos: if self.pos >= trim {
                    (self.pos - trim) as nat
                } else {
                    0
                },
                capacity: self.capacity,
            }
        }
    }

    /// The state after keeping only the first `len` bytes of the header.
    pub open spec fn header_truncated(self, len: nat) -> MessageView {
        if len > self.header.len() {
            self
        } else {
            MessageView { header: self.header.take(len as int), ..self }
        }
    }

    /// The state after keeping only the last `len` bytes of the header.
    pub open spec fn header_truncated_front(self, len: nat) -> MessageView {
        if len > self.header.len() {
            self
        } else {
            MessageView { header: self.header.skip(self.header.len() - len), ..self }
        }
    }

    /// The state after inserting `data` before the body.
    pub open spec fn prepended(self, data: Seq<u8>) -> MessageView {
        MessageView {
            body: data + self.body,
            capacity: max_nat(self.capacity, data.len() + self.body.len()),
            ..self
        }
    }

    /// The state after reserving room for `additional` more body bytes.
    pub open spec fn reserved(self, additional: nat) -> MessageView {
        MessageView {
            capacity: reserved_capacity(self.body.len(), self.capacity, additional),
            ..self
        }
    }

    /// The state after appending `data` to the body: room is reserved first, and the appended
    /// bytes take the place of as many spare bytes.
    pub open spec fn written(self, data: Seq<u8>) -> MessageView {
        MessageView {
            body: self.body + data,
            spare: self.spare.skip(min_nat(data.len(), self.spare.len()) as int),
            capacity: reserved_capacity(self.body.len(), self.capacity, data.len()),
            ..self
        }
    }

    /// The state after clearing: no header, no body, the read position at the start, and the
    /// old body's bytes kept in the buffer ahead of the spare ones.
    pub open spec fn cleared(self) -> MessageView {
        MessageView {
            header: Seq::empty(),
            body: Seq::empty(),
            spare: self.body + self.spare,
            pos: 0,
            capacity: self.capacity,
        }
    }

    /// The state after setting the body length to `len`: a longer body takes its new bytes
    /// from the spare bytes, then zeros; a shorter one is truncated.
    pub open spec fn with_len(self, len: nat) -> MessageView {
        if len > self.body.len() {
            let k = min_nat((len - self.body.len()) as nat, self.spare.len());
            MessageView {
                body: self.body + self.spare.take(k as int) + Seq::new(
                    (len - self.body.len() - k) as nat,
                    |i: int| 0u8,
                ),
                spare: self.spare.skip(k as int),
                pos: min_nat(self.pos, len),
                capacity: max_nat(self.capacity, len),
                ..self
            }
        } else {
            let t = self.truncated(len);
            MessageView { pos: min_nat(t.pos, len), ..t }
        }
    }
}

/// A memory-managed NNG message.
///
/// Each message has two parts:
/// - **Header**: Protocol-specific metadata (usually empty for application use)
/// - **Body**: Application data payload
///
/// Both parts can be read and modified independently.
///
/// ## Buffer growth strategy
///
/// [`Message::reserve`] grows the capacity to the next power of two of the current capacity,
/// or to the required capacity, whichever is larger, so that incremental writes cost `O(1)`
/// amortized. [`Message::reserve_exact`] reserves exactly what is asked for.
///
/// A freshly allocated message gets 32 bytes of headroom on top of the requested size, except
/// for powers of two of at least 1024 bytes, which are allocated exactly.
pub struct Message {
    header: Vec<u8>,
    body: Vec<u8>,
    spare: Vec<u8>,
    pos: usize,
    cap: usize,
}

impl View for Message {
    type V = MessageView;

    closed spec fn view(&self) -> MessageView {
        MessageView {
            header: self.header@,
            body: self.body@,
            spare: self.spare@,
            pos: self.pos as nat,
            capacity: self.cap as nat,
        }
    }
}


impl Message {
    /// Creates a new, empty message, with the capacity that NNG gives an allocation of zero
    /// bytes.
    pub fn new() -> (r: Message)
        ensures
            r@ == allocated_view(0),
            r@.wf(),
    {
        Self::with_capacity(0)
    }

    /// Creates a new message with the specified initial capacity.
    ///
    /// The message starts with an empty header and body. Its capacity is at least `size`:
    /// see [`allocated_capacity`].
    pub fn with_capacity(size: usize) -> (r: Message)
        ensures
            r@ == allocated_view(size as nat),
            r@.capacity >= size,
            r@.wf(),
    {
        let exact = size >= 1024 && match checked_next_power_of_two(size) {
            Some(p) => p == size,
            None => false,
        };
        proof {
            if size >= 1024 {
                lemma_ceil_pow2(size as nat);
                if is_pow2(size as nat) {
                    lemma_ceil_pow2_of_pow2(size as nat);
                }
            }
        }
        let cap = if exact {
            size
        } else if size <= usize::MAX - 32 {
            size + 32
        } else {
            usize::MAX
        };
        Message { header: Vec::new(), body: Vec::new(), spare: Vec::new(), pos: 0, cap }
    }

    /// Returns the current capacity of the message body buffer.
    pub fn capacity(&self) -> (r: usize)
        ensures
            r == self@.capacity,
    {
        self.cap
    }

    /// Returns the length of the message body in bytes (the header is not counted).
    pub fn len(&self) -> (r: usize)
        ensures
            r == self@.body.len(),
    {
        self.body.len()
    }

    /// Returns `true` if the message body is empty.
    pub fn is_empty(&self) -> (r: bool)
        ensures
            r <==> self@.body.len() == 0,
    {
        self.len() == 0
    }

    /// Returns the length of the message header in bytes.
    pub fn header_len(&self) -> (r: usize)
        ensures
            r == self@.header.len(),
    {
        self.header.len()
    }

    /// Returns the message header.
    pub fn header(&self) -> (r: &[u8])
        ensures
            r@ == self@.header,
    {
        self.header.as_slice()
    }

    /// Returns the message body.
    pub fn as_slice(&self) -> (r: &[u8])
        ensures
            r@ == self@.body,
    {
        self.body.as_slice()
    }

    /// Returns the message body for modification in place; only its bytes can change.
    pub fn as_mut_slice(&mut self) -> (r: &mut [u8])
        ensures
            r@ == old(self)@.body,
            final(self)@ == (MessageView { body: final(r)@, ..old(self)@ }),
    {
        self.body.as_mut_slice()
    }

    /// Reserves capacity for at least `additional` more body bytes, without over-allocating.
    ///
    /// Afterwards the capacity is the larger of the old capacity and `self.len() + additional`;
    /// if the capacity already sufficed, this is a no-op.
    pub fn reserve_exact(&mut self, additional: usize)
        requires
            old(self)@.body.len() + additional <= usize::MAX,
        ensures
            final(self)@ == (MessageView {
                capacity: max_nat(old(self)@.capacity, (old(self)@.body.len() + additional) as nat),
                ..old(self)@
            }),
    {
        let capacity = self.len() + additional;
        if capacity > self.cap {
            self.cap = capacity;
        }
    }

    /// Reserves capacity for at least `additional` more body bytes.
    ///
    /// Growth goes to the next power of two of the current capacity, or to the required
    /// capacity, whichever is larger; if the capacity already suffices, this is a no-op.
    pub fn reserve(&mut self, additional: usize)
        requires
            old(self)@.body.len() + additional <= usize::MAX,
        ensures
            final(self)@ == old(self)@.reserved(additional as nat),
            final(self)@.capacity >= old(self)@.body.len() + additional,
            final(self)@.capacity >= old(self)@.capacity,
            old(self)@.body.len() + additional > old(self)@.capacity ==> final(self)@.capacity
                >= next_pow2_or_max(old(self)@.capacity),
    {
        let current_len = self.len();
        let current_capacity = self.capacity();
        let required_capacity = current_len + additional;

        if required_capacity > current_capacity {
            let current_next_power_of_two = match checked_next_power_of_two(current_capacity) {
                Some(p) => p,
                None => usize::MAX,
            };
            let new_capacity = if required_capacity >= current_next_power_of_two {
                required_capacity
            } else {
                current_next_power_of_two
            };
            let additional = new_capacity.saturating_sub(current_len);
            self.reserve_exact(additional);
        }
    }

    /// Truncates the message body to `len` bytes; a no-op if `len` is greater than the current
    /// length. A read position past the new end moves to the end.
    pub fn truncate(&mut self, len: usize)
        ensures
            final(self)@ == old(self)@.truncated(len as nat),
            old(self)@.wf() ==> final(self)@.wf(),
    {
        if len > self.body.len() {
            return ;
        }
        let mut cut = self.body.split_off(len);
        let mut spare = Vec::new();
        core::mem::swap(&mut spare, &mut self.spare);
        cut.append(&mut spare);
        self.spare = cut;
        if self.pos > len {
            self.pos = len;
        }
    }

    /// Truncates the message body from the front, keeping its last `len` bytes; a no-op if
    /// `len` is greater than the current length. The read position moves back with the data,
    /// stopping at the start.
    pub fn truncate_front(&mut self, len: usize)
        ensures
            final(self)@ == old(self)@.truncated_front(len as nat),
            old(self)@.wf() ==> final(self)@.wf(),
    {
        if len > self.body.len() {
            return ;
        }
        let trim = self.body.len() - len;
        let kept = self.body.split_off(trim);
        self.body = kept;
        if self.pos >= trim {
            self.pos = self.pos - trim;
        } else {
            self.pos = 0;
        }
    }

    /// Truncates the message header to `len` bytes; a no-op if `len` is greater than the
    /// current header length.
    pub fn header_truncate(&mut self, len: usize)
        ensures
            final(self)@ == old(self)@.header_truncated(len as nat),
            old(self)@.wf() ==> final(self)@.wf(),
    {
        if len > self.header.len() {
            return ;
        }
        self.header.truncate(len);
    }

    /// Truncates the message header from the front, keeping its last `len` bytes; a no-op if
    /// `len` is greater than the current header length.
    pub fn header_truncate_front(&mut self, len: usize)
        ensures
            final(self)@ == old(self)@.header_truncated_front(len as nat),
            old(self)@.wf() ==> final(self)@.wf(),
    {
        if len > self.header.len() {
            return ;
        }
        let trim = self.header.len() - len;
        let kept = self.header.split_off(trim);
        self.header = kept;
    }

    /// Prepends `buf` to the message body, and returns the number of bytes prepended.
    pub fn prepend(&mut self, buf: &[u8]) -> (r: Result<usize, AioError>)
        requires
            old(self)@.body.len() + buf@.len() <= usize::MAX,
        ensures
            r == Ok::<usize, AioError>(buf@.len() as usize),
            final(self)@ == old(self)@.prepended(buf@),
            old(self)@.wf() ==> final(self)@.wf(),
    {
        let mut body = copy_bytes(buf);
        let mut old_body = Vec::new();
        core::mem::swap(&mut old_body, &mut self.body);
        body.append(&mut old_body);
        self.body = body;
        if self.body.len() > self.cap {
            self.cap = self.body.len();
        }
        Ok(buf.len())
    }

    /// Appends `buf` to the message header, and returns the number of bytes appended.
    pub fn write_header(&mut self, buf: &[u8]) -> (r: Result<usize, AioError>)
        ensures
            r == Ok::<usize, AioError>(buf@.len() as usize),
            final(self)@ == (MessageView { header: old(self)@.header + buf@, ..old(self)@ }),
            old(self)@.wf() ==> final(self)@.wf(),
    {
        append_bytes(&mut self.header, buf);
        Ok(buf.len())
    }

    /// Prepends `buf` to the message header, and returns the number of bytes prepended.
    pub fn prepend_header(&mut self, buf: &[u8]) -> (r: Result<usize, AioError>)
        ensures
            r == Ok::<usize, AioError>(buf@.len() as usize),
            final(self)@ == (MessageView { header: buf@ + old(self)@.header, ..old(self)@ }),
            old(self)@.wf() ==> final(self)@.wf(),
    {
        let mut header = copy_bytes(buf);
        let mut old_header = Vec::new();
        core::mem::swap(&mut old_header, &mut self.header);
        header.append(&mut old_header);
        self.header = header;
        Ok(buf.len())
    }

    /// Clears the message: empties the body and the header and resets the read position.
    pub fn clear(&mut self)
        ensures
            final(self)@ == old(self)@.cleared(),
            final(self)@.wf(),
    {
        self.truncate(0);
        self.header_truncate(0);
        self.pos = 0;
        assert(old(self)@.body.skip(0) == old(self)@.body);
        assert(old(self)@.body.take(0) == Seq::<u8>::empty());
        assert(old(self)@.header.take(0) == Seq::<u8>::empty());
    }
    /// Appends `buf` to the message body, and returns the number of bytes written.
    ///
    /// Room is reserved first with [`Message::reserve`], so that repeated writes grow the
    /// buffer exponentially.
    pub fn write(&mut self, buf: &[u8]) -> (r: Result<usize, AioError>)
        requires
            old(self)@.body.len() + buf@.len() <= usize::MAX,
        ensures
            r == Ok::<usize, AioError>(buf@.len() as usize),
            final(self)@ == old(self)@.written(buf@),
            final(self)@.body.len() <= final(self)@.capacity,
            old(self)@.wf() ==> final(self)@.wf(),
    {
        self.reserve(buf.len());
        append_bytes(&mut self.body, buf);
        let consumed = if buf.len() < self.spare.len() {
            buf.len()
        } else {
            self.spare.len()
        };
        let rest = self.spare.split_off(consumed);
        self.spare = rest;
        Ok(buf.len())
    }

    /// Sets the length of the message body.
    ///
    /// A longer body takes its new bytes from the bytes the buffer still holds past the end of
    /// the body (see [`MessageView::spare`]), then zeros, and grows the capacity to fit; a
    /// shorter one is truncated. A read position past the new end moves to the end.
    pub fn set_len(&mut self, len: usize)
        ensures
            final(self)@ == old(self)@.with_len(len as nat),
            old(self)@.wf() ==> final(self)@.wf(),
    {
        let current_len = self.len();
        if len > current_len {
            let need = len - current_len;
            let k = if need < self.spare.len() {
                need
            } else {
                self.spare.len()
            };
            let rest = self.spare.split_off(k);
            self.body.append(&mut self.spare);
            self.spare = rest;
            let mut body = Vec::new();
            core::mem::swap(&mut body, &mut self.body);
            let ghost filled = body@;
            assert(filled == old(self)@.body + old(self)@.spare.take(k as int));
            assert(self.spare@ == old(self)@.spare.skip(k as int));
            assert(body@ =~= filled + Seq::new(0nat, |j: int| 0u8));
            let mut i: usize = k;
            while i < need
                invariant
                    k <= i <= need,
                    body@ == filled + Seq::new((i - k) as nat, |j: int| 0u8),
                decreases need - i,
            {
                body.push(0u8);
                i = i + 1;
                assert(body@ =~= filled + Seq::new((i - k) as nat, |j: int| 0u8));
            }
            self.body = body;
            if len > self.cap {
                self.cap = len;
            }
        } else if len < current_len {
            self.truncate(len);
        }
        if self.pos > len {
            self.pos = len;
        }
        proof {
            if len <= current_len {
                assert(old(self)@.body.take(current_len as int) == old(self)@.body);
                assert(old(self)@.body.skip(current_len as int) == Seq::<u8>::empty());
                assert(Seq::<u8>::empty() + old(self)@.spare == old(self)@.spare);
            }
        }
    }

    /// Returns the number of body bytes from the read position to the end (zero if the read
    /// position is past the end).
    pub fn remaining(&self) -> (r: usize)
        ensures
            r == (if self@.pos <= self@.body.len() {
                self@.body.len() - self@.pos
            } else {
                0
            }),
    {
        self.len().saturating_sub(self.pos)
    }

    /// Returns the body bytes from the read position to the end.
    pub fn chunk(&self) -> (r: &[u8])
        requires
            self@.wf(),
        ensures
            r@ == self@.body.skip(self@.pos as int),
    {
        vstd::slice::slice_subrange(self.body.as_slice(), self.pos, self.body.len())
    }

    /// Moves the read position `cnt` bytes forward; the new position must not lie past the end
    /// of the body.
    pub fn advance(&mut self, cnt: usize)
        requires
            old(self)@.pos + cnt <= old(self)@.body.len(),
        ensures
            final(self)@ == (MessageView { pos: (old(self)@.pos + cnt) as nat, ..old(self)@ }),
            old(self)@.wf() ==> final(self)@.wf(),
    {
        let len = self.body.len();
        assert(self.pos + cnt <= len);
        self.pos = self.pos + cnt;
    }

    /// Returns how many more bytes the body could grow by: `usize::MAX` minus its length.
    pub fn remaining_mut(&self) -> (r: usize)
        ensures
            r == usize::MAX - self@.body.len(),
    {
        usize::MAX - self.len()
    }

    /// Extends the body by `cnt` bytes taken from the writable region that
    /// [`Message::chunk_mut`] exposes.
    pub fn advance_mut(&mut self, cnt: usize)
        requires
            old(self)@.body.len() + cnt <= usize::MAX,
        ensures
            final(self)@ == old(self)@.with_len((old(self)@.body.len() + cnt) as nat),
            old(self)@.wf() ==> final(self)@.wf(),
    {
        let new_len = self.len() + cnt;
        self.set_len(new_len);
    }

    /// Returns the writable region past the end of the body: the whole unused capacity, after
    /// reserving 64 more bytes when the body fills the buffer. Bytes written there become part
    /// of the body through [`Message::advance_mut`].
    pub fn chunk_mut(&mut self) -> (r: &mut [u8])
        requires
            old(self)@.wf(),
            old(self)@.body.len() >= old(self)@.capacity ==> old(self)@.body.len() + 64
                <= usize::MAX,
        ensures
            r@ == spare_window(old(self)@.spare, (chunk_capacity(old(self)@) - old(self)@.body.len()) as nat),
            final(self)@ == (MessageView {
                spare: final(r)@,
                capacity: chunk_capacity(old(self)@),
                ..old(self)@
            }),
            final(self)@.wf(),
    {
        let current_len = self.len();
        let current_capacity = self.capacity();
        if current_len >= current_capacity {
            self.reserve(64);
        }
        let available_space = self.cap - current_len;
        assert(self.cap == chunk_capacity(old(self)@));
        let mut spare = Vec::new();
        core::mem::swap(&mut spare, &mut self.spare);
        if spare.len() > available_space {
            spare.truncate(available_space);
        } else {
            let ghost start = spare@;
            assert(spare@ =~= start + Seq::new(0nat, |j: int| 0u8));
            assert(start.len() == available_space ==> start.take(available_space as int) == start);
            let mut i: usize = spare.len();
            while i < available_space
                invariant
                    start.len() <= i <= available_space,
                    spare@ == start + Seq::new((i - start.len()) as nat, |j: int| 0u8),
                decreases available_space - i,
            {
                spare.push(0u8);
                i = i + 1;
                assert(spare@ =~= start + Seq::new((i - start.len()) as nat, |j: int| 0u8));
            }
        }
        self.spare = spare;
        self.spare.as_mut_slice()
    }

    /// Appends `src` to the message body.
    pub fn put_slice(&mut self, src: &[u8])
        requires
            old(self)@.body.len() + src@.len() <= usize::MAX,
        ensures
            final(self)@ == old(self)@.written(src@),
            old(self)@.wf() ==> final(self)@.wf(),
    {
        let _ = self.write(src);
    }
}

/// The capacity after [`Message::chunk_mut`]: 64 more bytes are reserved when the body fills
/// the buffer.
pub open spec fn chunk_capacity(v: MessageView) -> nat {
    if v.body.len() >= v.capacity {
        reserved_capacity(v.body.len(), v.capacity, 64)
    } else {
        v.capacity
    }
}

/// The first `n` spare bytes, padded with zeros when there are fewer.
pub open spec fn spare_window(spare: Seq<u8>, n: nat) -> Seq<u8> {
    if spare.len() >= n {
        spare.take(n as int)
    } else {
        spare + Seq::new((n - spare.len()) as nat, |i: int| 0u8)
    }
}

impl Clone for Message {
    fn clone(&self) -> (r: Message)
        ensures
            r@ == self@,
    {
        Message {
            header: copy_bytes(self.header.as_slice()),
            body: copy_bytes(self.body.as_slice()),
            spare: copy_bytes(self.spare.as_slice()),
            pos: self.pos,
            cap: self.cap,
        }
    }

    fn clone_from(&mut self, source: &Self)
        ensures
            final(self)@ == (MessageView {
                header: source@.header,
                pos: source@.pos,
                ..old(self)@.truncated(0).written(source@.body)
            }),
            source@.wf() ==> final(self)@.wf(),
    {
        let source_len = source.len();
        self.truncate(0);
        let _ = self.write(source.as_slice());
        self.header_truncate(0);
        let _ = self.write_header(source.header());
        self.pos = source.pos;
        assert(Seq::<u8>::empty() + source@.header == source@.header);
        assert(old(self)@.header.take(0) == Seq::<u8>::empty());
    }
}

impl Default for Message {
    fn default() -> (r: Message)
        ensures
            r@ == allocated_view(0),
    {
        Self::new()
    }
}

impl<'a> vstd::std_specs::convert::FromSpecImpl<&'a [u8]> for Message {
    open spec fn obeys_from_spec() -> bool {
        false
    }

    open spec fn from_spec(data: &'a [u8]) -> Message {
        arbitrary()
    }
}

impl<'a> From<&'a [u8]> for Message {
    /// Creates a message whose body holds `data`, allocated for exactly that many bytes.
    fn from(data: &'a [u8]) -> (r: Message)
        ensures
            r@ == allocated_view(data@.len()).written(data@),
            r@.body == data@,
            r@.header == Seq::<u8>::empty(),
            r@.pos == 0,
            r@.wf(),
    {
        let mut msg = Message::with_capacity(data.len());
        let _ = msg.write(data);
        msg
    }
}

/// Truncating the body back to its old length undoes a write, and a write keeps the read
/// position.
pub proof fn lemma_truncate_undoes_write(v: MessageView, data: Seq<u8>)
    ensures
        v.written(data).truncated(v.body.len()).body == v.body,
        v.written(data).pos == v.pos,
        v.written(data).header == v.header,
{
    assert((v.body + data).take(v.body.len() as int) == v.body);
}

/// Truncating the body from the front back to its old length undoes a prepend.
pub proof fn lemma_truncate_front_undoes_prepend(v: MessageView, data: Seq<u8>)
    ensures
        v.prepended(data).truncated_front(v.body.len()).body == v.body,
{
    assert((data + v.body).skip(data.len() as int) == v.body);
}

/// Truncating the header back to its old length undoes an append to it, and cutting its
/// front back to its old length undoes a prepend to it.
pub proof fn lemma_header_truncations_undo_header_writes(v: MessageView, data: Seq<u8>)
    ensures
        (MessageView { header: v.header + data, ..v }).header_truncated(v.header.len()).header
            == v.header,
        (MessageView { header: data + v.header, ..v }).header_truncated_front(
            v.header.len(),
        ).header == v.header,
{
    assert((v.header + data).take(v.header.len() as int) == v.header);
    assert((data + v.header).skip(data.len() as int) == v.header);
}

/// Shortening the body with [`Message::set_len`] and lengthening it back restores it: the
/// bytes cut off are still there.
pub proof fn lemma_set_len_round_trip(v: MessageView, len: nat)
    requires
        len <= v.body.len(),
    ensures
        v.with_len(len).with_len(v.body.len()).body == v.body,
{
    let t = v.with_len(len);
    let n = (v.body.len() - len) as nat;
    assert(t.body == v.body.take(len as int));
    assert(t.spare == v.body.skip(len as int) + v.spare);
    if len < v.body.len() {
        assert(t.spare.take(n as int) == v.body.skip(len as int));
        assert(t.body + t.spare.take(n as int) + Seq::new(0nat, |i: int| 0u8) =~= v.body);
    }
}

/// What is written is what is read: appending `data` to the body of a message whose read
/// position lies within it leaves the bytes still to read followed by `data`.
pub proof fn lemma_write_then_read(v: MessageView, data: Seq<u8>)
    requires
        v.wf(),
    ensures
        v.written(data).body.skip(v.written(data).pos as int) == v.body.skip(v.pos as int) + data,
{
    assert((v.body + data).skip(v.pos as int) =~= v.body.skip(v.pos as int) + data);
}

/// Clearing a message leaves it empty whatever it held, with its capacity unchanged, and
/// clearing it again changes nothing of its header, body, read position or capacity.
pub proof fn lemma_clear_empties(v: MessageView)
    ensures
        v.cleared().body == Seq::<u8>::empty(),
        v.cleared().header == Seq::<u8>::empty(),
        v.cleared().pos == 0,
        v.cleared().capacity == v.capacity,
        v.cleared().cleared().body == v.cleared().body,
        v.cleared().cleared().header == v.cleared().header,
        v.cleared().cleared().pos == v.cleared().pos,
        v.cleared().cleared().capacity == v.cleared().capacity,
{
}

/// Prepending puts the data in front of the body, whatever the body holds (an empty body
/// included): the body starts with the data and goes on with the old body. The header, the
/// read position and the bytes kept past the body are left alone, and the capacity grows to fit.
pub proof fn lemma_prepend_puts_data_first(v: MessageView, data: Seq<u8>)
    ensures
        v.prepended(data).body == data + v.body,
        v.prepended(data).body.len() == data.len() + v.body.len(),
        v.prepended(data).body.take(data.len() as int) == data,
        v.prepended(data).body.skip(data.len() as int) == v.body,
        v.prepended(data).header == v.header,
        v.prepended(data).pos == v.pos,
        v.prepended(data).spare == v.spare,
        v.prepended(data).capacity >= data.len() + v.body.len(),
        v.prepended(data).capacity >= v.capacity,
{
    assert((data + v.body).take(data.len() as int) == data);
    assert((data + v.body).skip(data.len() as int) == v.body);
}

/// Writing appends the data to the body, whatever the body holds: the body starts with the old
/// body and goes on with the data. The header and the read position are left alone, and the
/// capacity grows to fit.
pub proof fn lemma_write_appends_data(v: MessageView, data: Seq<u8>)
    ensures
        v.written(data).body == v.body + data,
        v.written(data).body.take(v.body.len() as int) == v.body,
        v.written(data).body.skip(v.body.len() as int) == data,
        v.written(data).header == v.header,
        v.written(data).pos == v.pos,
        v.written(data).capacity >= v.body.len() + data.len(),
        v.written(data).capacity >= v.capacity,
{
    lemma_reserved_fits(v.body.len(), v.capacity, data.len());
    assert((v.body + data).take(v.body.len() as int) == v.body);
    assert((v.body + data).skip(v.body.len() as int) == data);
}

/// Reserving never shrinks the capacity and leaves room for the body and the bytes asked for.
proof fn lemma_reserved_fits(len: nat, cap: nat, additional: nat)
    ensures
        reserved_capacity(len, cap, additional) >= len + additional,
        reserved_capacity(len, cap, additional) >= cap,
{
}

/// Truncating keeps the first `len` bytes of a longer body and the read position within it,
/// and leaves a body of at most `len` bytes alone; cutting the front keeps the last `len`
/// bytes. Neither touches the header or the capacity.
pub proof fn lemma_truncations_keep_the_ends(v: MessageView, len: nat)
    ensures
        len <= v.body.len() ==> v.truncated(len).body == v.body.subrange(0, len as int),
        len <= v.body.len() ==> v.truncated(len).pos == if v.pos <= len {
            v.pos
        } else {
            len
        },
        len <= v.body.len() ==> v.truncated_front(len).body == v.body.subrange(
            v.body.len() - len,
            v.body.len() as int,
        ),
        len > v.body.len() ==> v.truncated(len) == v && v.truncated_front(len) == v,
        v.truncated(len).header == v.header && v.truncated_front(len).header == v.header,
        v.truncated(len).capacity == v.capacity && v.truncated_front(len).capacity
            == v.capacity,
        len <= v.header.len() ==> v.header_truncated(len).header == v.header.subrange(
            0,
            len as int,
        ),
        len <= v.header.len() ==> v.header_truncated_front(len).header == v.header.subrange(
            v.header.len() - len,
            v.header.len() as int,
        ),
        v.header_truncated(len).body == v.body && v.header_truncated_front(len).body == v.body,
{
}

/// Setting the length makes the body exactly that long, keeps the bytes it already had up to
/// that length, and leaves the header alone.
pub proof fn lemma_set_len_sets_the_length(v: MessageView, len: nat)
    ensures
        v.with_len(len).body.len() == len,
        forall|i: int| 0 <= i < len && i < v.body.len() ==> v.with_len(len).body[i] == v.body[i],
        v.with_len(len).header == v.header,
        v.with_len(len).pos <= len,
{
    if len > v.body.len() {
        let k = min_nat((len - v.body.len()) as nat, v.spare.len());
        let b = v.body + v.spare.take(k as int) + Seq::new(
            (len - v.body.len() - k) as nat,
            |i: int| 0u8,
        );
        assert(b.len() == len);
        assert forall|i: int| 0 <= i < len && i < v.body.len() implies b[i] == v.body[i] by {}
    }
}

/// Appends `src` to `dst`.
fn append_bytes(dst: &mut Vec<u8>, src: &[u8])
    ensures
        final(dst)@ == old(dst)@ + src@,
{
    let mut i: usize = 0;
    while i < src.len()
        invariant
            i <= src@.len(),
            dst@ == old(dst)@ + src@.take(i as int),
        decreases src@.len() - i,
    {
        dst.push(src[i]);
        i = i + 1;
        assert(src@.take(i as int) == src@.take(i - 1) + seq![src@[i - 1]]);
    }
    assert(src@.take(src@.len() as int) == src@);
}

/// Returns a new vector holding the bytes of `src`.
fn copy_bytes(src: &[u8]) -> (r: Vec<u8>)
    ensures
        r@ == src@,
{
    let mut r: Vec<u8> = Vec::new();
    append_bytes(&mut r, src);
    assert(Seq::<u8>::empty() + src@ == src@);
    r
}

} // verus!
