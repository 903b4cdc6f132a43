//! Buffers handed to a DMA channel.
use vstd::prelude::*;
use core::marker::PhantomData;

verus! {

/// A buffer that a DMA channel `C` may read from or write to. A `RefMut`
/// gives exclusive access to its contents for as long as the guard lives;
/// `lend` hands the buffer over to a transfer, after which it cannot be
/// borrowed until `release` ends the transfer.
pub struct Buffer<B, C> {
    _channel: PhantomData<C>,
    borrowed: bool,
    buffer: B,
}

/// Exclusive access to the contents of a borrowed `Buffer`, through its
/// `buffer` field. The borrow ends when the guard goes out of scope, and the
/// buffer is then free again.
pub struct RefMut<'b, B> {
    pub buffer: &'b mut B,
}

impl<B, C> Buffer<B, C> {
    /// Whether the buffer is held by a transfer.
    pub closed spec fn is_borrowed(&self) -> bool {
        self.borrowed
    }

    /// The contents of the buffer.
    pub closed spec fn contents(&self) -> B {
        self.buffer
    }

    /// Creates a buffer that is not in use.
    pub fn new(buffer: B) -> (r: Self)
        ensures
            !r.is_borrowed(),
            r.contents() == buffer,
    {
        Buffer { _channel: PhantomData, borrowed: false, buffer }
    }

    /// Whether the buffer is held by a transfer.
    pub fn borrowed(&self) -> (b: bool)
        ensures
            b == self.is_borrowed(),
    {
        self.borrowed
    }

    /// Borrows the contents; the buffer must not be held by a transfer. The
    /// buffer is free again once the guard is gone, and its contents are then
    /// as the guard left them.
    pub fn borrow(&mut self) -> (r: RefMut<'_, B>)
        requires
            !old(self).is_borrowed(),
        ensures
            *r.buffer == old(self).contents(),
            !final(self).is_borrowed(),
            final(self).contents() == *final(r.buffer),
    {
        RefMut { buffer: &mut self.buffer }
    }

    /// Hands the buffer over to a transfer: it cannot be borrowed until
    /// `release` is called. The buffer must be free, and the contents are
    /// kept.
    pub fn lend(&mut self)
        requires
            !old(self).is_borrowed(),
        ensures
            final(self).is_borrowed(),
            final(self).contents() == old(self).contents(),
    {
        self.borrowed = true;
    }

    /// Ends the transfer that holds the buffer, which must be held by one.
    /// The contents are kept.
    pub fn release(&mut self)
        requires
            old(self).is_borrowed(),
        ensures
            !final(self).is_borrowed(),
            final(self).contents() == old(self).contents(),
    {
        self.borrowed = false;
    }
}

impl<'b, B> RefMut<'b, B> {
    /// Shared access to the borrowed contents.
    pub fn get(&self) -> (r: &B)
        ensures
            *r == *old(self.buffer),
    {
        &*self.buffer
    }
}

} // verus!
