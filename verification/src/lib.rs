//! A fixed-capacity buffer that accepts values until it is full and then
//! hands them back, in insertion order, through a one-shot draining iterator.
//!
//! A [`Buffer`] holds at most `N` values of type `T`. Values are added with
//! [`Buffer::push`], which fails once the capacity is reached and returns the
//! rejected value back to the caller unchanged. Consuming the buffer with
//! [`Buffer::into_iter`] produces an [`IntoIter`] that yields the stored
//! values one at a time, in the order they were appended; pulling past the
//! end is not an error but the ordinary end-of-sequence signal.

use vstd::prelude::*;

verus! {

/// The one failure the buffer can report: an append was attempted while the
/// buffer already held as many values as its capacity allows. The rejected
/// value rides back to the caller unchanged, so nothing is lost on a failed
/// append.
#[derive(Debug, PartialEq, Eq, PartialOrd, Ord)]
#[non_exhaustive]
pub enum Error<T> {
    BufferIsFull(T),
}

/// A buffer with room for at most `N` values of type `T`.
///
/// It is created empty, grows one value per successful [`Buffer::push`], and
/// is drained by consuming it with [`Buffer::into_iter`]. Its view is the
/// sequence of values it currently holds, in the order they were appended.
pub struct Buffer<T, const N: usize> {
    data: Vec<T>,
}

impl<T, const N: usize> View for Buffer<T, N> {
    type V = Seq<T>;

    closed spec fn view(&self) -> Seq<T> {
        self.data@
    }
}

impl<T, const N: usize> Buffer<T, N> {
    /// The live region never outgrows the capacity.
    #[verifier::type_invariant]
    spec fn inv(self) -> bool {
        self.data@.len() <= N
    }

    /// Returns a new, empty buffer. Never fails.
    pub fn new() -> (r: Self)
        ensures
            r@ == Seq::<T>::empty(),
    {
        Buffer { data: Vec::new() }
    }

    /// Appends `value` to the buffer. If the buffer is full the call is a
    /// complete no-op on the buffer's state and the rejected value comes back
    /// inside the error; otherwise the value lands at the end and the buffer
    /// grows by one.
    #[must_use]
    pub fn push(&mut self, value: T) -> (r: Result<(), Error<T>>)
        ensures
            old(self)@.len() < N ==> r is Ok && final(self)@ == old(self)@.push(value),
            old(self)@.len() == N ==> r == Err::<(), Error<T>>(Error::BufferIsFull(value))
                && final(self)@ == old(self)@,
    {
        proof {
            use_type_invariant(&*self);
        }
        if self.data.len() >= N {
            return Err(Error::BufferIsFull(value));
        }
        let mut data = Vec::new();
        std::mem::swap(&mut data, &mut self.data);
        data.push(value);
        self.data = data;
        Ok(())
    }

    /// Consumes the buffer and turns it into an iterator that yields the
    /// stored values in the order they were appended. Ownership of the stored
    /// values moves into the iterator; the buffer is gone afterwards.
    pub fn into_iter(self) -> (r: IntoIter<T, N>)
        ensures
            r@ == self@,
    {
        proof {
            use_type_invariant(&self);
        }
        let Buffer { data } = self;
        IntoIter { buffer: data }
    }
}

/// A one-shot, forward-only iterator over the values of a consumed
/// [`Buffer`]. Its view is the sequence of values not yet pulled, in the
/// order they were appended; each [`IntoIter::next`] moves the front value
/// out to the caller.
pub struct IntoIter<T, const N: usize> {
    buffer: Vec<T>,
}

impl<T, const N: usize> View for IntoIter<T, N> {
    type V = Seq<T>;

    closed spec fn view(&self) -> Seq<T> {
        self.buffer@
    }
}

impl<T, const N: usize> IntoIter<T, N> {
    /// The undelivered region never outgrows the capacity.
    #[verifier::type_invariant]
    spec fn inv(self) -> bool {
        self.buffer@.len() <= N
    }

    /// Pulls the next value. While values remain, hands out the oldest one
    /// still undelivered and advances past it; once exhausted, returns no
    /// value, changes nothing, and is safe to call again and again.
    pub fn next(&mut self) -> (r: Option<T>)
        ensures
            old(self)@.len() == 0 ==> r is None && final(self)@ == old(self)@,
            old(self)@.len() > 0 ==> r == Some(old(self)@[0])
                && final(self)@ == old(self)@.drop_first(),
    {
        proof {
            use_type_invariant(&*self);
        }
        if self.buffer.len() == 0 {
            return None;
        }
        let mut buffer = Vec::new();
        std::mem::swap(&mut buffer, &mut self.buffer);
        let value = buffer.remove(0);
        self.buffer = buffer;
        proof {
            assert(self@ =~= old(self)@.drop_first());
        }
        Some(value)
    }
}

/// Law: appending never disturbs what was appended before. A buffer holding
/// `s` that accepts one more value `v` holds `s` followed by `v`: one value
/// longer, `v` in the last slot, the first `s.len()` slots exactly as they
/// were. By induction over the calls of `push`, a buffer holds exactly the
/// values of its successful appends, in order, and its length is their count.
pub proof fn lemma_append_preserves_prefix<T>(s: Seq<T>, v: T)
    ensures
        s.push(v).len() == s.len() + 1,
        s.push(v)[s.len() as int] == v,
        s.push(v).subrange(0, s.len() as int) == s,
{
    assert(s.push(v).subrange(0, s.len() as int) =~= s);
}

/// Law: a drain delivers the appended values in append order. If a drain was
/// created from a buffer holding `s` and `j` values have been pulled so far,
/// its view is `s.skip(j)`; this lemma says the next pull then yields `s[j]`,
/// the `j`-th value appended, and leaves the drain holding `s.skip(j + 1)`,
/// the values still owed. The values in `s.skip(j)` are also exactly what the
/// drain still owns, and what its teardown must clean up if it is dropped.
pub proof fn lemma_drain_in_order<T>(s: Seq<T>, j: int)
    requires
        0 <= j < s.len(),
    ensures
        s.skip(j)[0] == s[j],
        s.skip(j).drop_first() == s.skip(j + 1),
{
    assert(s.skip(j).drop_first() =~= s.skip(j + 1));
}

} // verus!
