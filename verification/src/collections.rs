//! Statically allocated vector.
use vstd::prelude::*;

verus! {

/// A vector whose elements live in a fixed-size array handed over when it is
/// created: it never allocates, and it holds at most `N` elements.
pub struct Vec<T: Copy, const N: usize> {
    buffer: [T; N],
    len: usize,
}

impl<T: Copy, const N: usize> View for Vec<T, N> {
    type V = Seq<T>;

    /// The elements currently stored, oldest first.
    closed spec fn view(&self) -> Seq<T> {
        self.buffer@.subrange(0, self.len as int)
    }
}

/// The contents after pushing `x` onto contents `s` in a vector of capacity
/// `cap`: appended when there is room, unchanged otherwise.
pub open spec fn bounded_push<T>(s: Seq<T>, cap: nat, x: T) -> Seq<T> {
    if s.len() < cap {
        s.push(x)
    } else {
        s
    }
}

/// The contents after pushing every element of `xs`, in order, onto
/// contents `s` in a vector of capacity `cap`.
pub open spec fn push_each<T>(s: Seq<T>, cap: nat, xs: Seq<T>) -> Seq<T>
    decreases xs.len(),
{
    if xs.len() == 0 {
        s
    } else {
        bounded_push(push_each(s, cap, xs.drop_last()), cap, xs.last())
    }
}

/// A run of pushes onto a vector behaves as a sequence of bounded capacity:
/// the pushes succeed while there is room and all of them come before the
/// refused ones, and the contents end up as the old contents followed by as
/// many of the pushed elements, from the first, as there was room for.
pub proof fn lemma_push_each<T>(s: Seq<T>, cap: nat, xs: Seq<T>)
    requires
        s.len() <= cap,
    ensures
        push_each(s, cap, xs) == s + xs.take(vstd::math::min(xs.len() as int, cap - s.len())),
        forall|i: int|
            0 <= i < xs.len() ==> (#[trigger] push_each(s, cap, xs.take(i)).len() < cap <==> i
                < cap - s.len()),
    decreases xs.len(),
{
    if xs.len() > 0 {
        let init = xs.drop_last();
        lemma_push_each(s, cap, init);
        let k = vstd::math::min(init.len() as int, cap - s.len());
        let k2 = vstd::math::min(xs.len() as int, cap - s.len());
        assert(init.take(k) =~= xs.take(k));
        if k2 > k {
            assert(xs.take(k2) =~= xs.take(k).push(xs.last()));
        } else {
            assert(k2 == k);
        }
        assert forall|i: int| 0 <= i < xs.len() implies (#[trigger] push_each(
            s,
            cap,
            xs.take(i),
        ).len() < cap <==> i < cap - s.len()) by {
            lemma_push_each(s, cap, xs.take(i));
            assert(xs.take(i).take(vstd::math::min(i, cap - s.len())).len() == vstd::math::min(
                i,
                cap - s.len(),
            ));
        }
    }
}

impl<T: Copy, const N: usize> Vec<T, N> {
    /// The whole backing array, stored elements and spare slots alike.
    pub closed spec fn backing(&self) -> Seq<T> {
        self.buffer@
    }

    /// How the stored elements sit in the backing array: the array has `N`
    /// slots and the elements are its first `len` slots, in order.
    pub open spec fn laid_out(&self) -> bool {
        &&& self.backing().len() == N
        &&& self@.len() <= N
        &&& self@ == self.backing().take(self@.len() as int)
    }

    /// The stored length never exceeds the size of the backing array.
    #[verifier::type_invariant]
    spec fn inv(&self) -> bool {
        self.len <= N
    }

    /// Creates an empty vector backed by `buffer`.
    pub fn new(buffer: [T; N]) -> (v: Self)
        ensures
            v@ == Seq::<T>::empty(),
            v.backing() == buffer@,
            v.laid_out(),
    {
        Vec { buffer: buffer, len: 0 }
    }

    /// The number of elements stored.
    pub fn len(&self) -> (n: usize)
        ensures
            n == self@.len(),
            self.laid_out(),
            n <= N,
    {
        proof {
            use_type_invariant(self);
        }
        self.len
    }

    /// The number of elements the backing array can hold.
    pub fn capacity(&self) -> (n: usize)
        ensures
            n == N,
            self.laid_out(),
    {
        proof {
            use_type_invariant(self);
        }
        N
    }

    /// Removes every element.
    pub fn clear(&mut self)
        ensures
            final(self)@ == Seq::<T>::empty(),
            final(self).backing() == old(self).backing(),
            old(self).laid_out(),
            final(self).laid_out(),
    {
        proof {
            use_type_invariant(&*self);
        }
        self.len = 0;
    }

    /// Appends `elem` at the end. When the backing array is full the vector is
    /// left as it was and `Err(())` comes back.
    pub fn push(&mut self, elem: T) -> (r: Result<(), ()>)
        ensures
            old(self)@.len() < N ==> r is Ok && final(self)@ == old(self)@.push(elem)
                && final(self).backing() == old(self).backing().update(old(self)@.len() as int, elem),
            old(self)@.len() >= N ==> r is Err && final(self)@ == old(self)@ && final(self).backing()
                == old(self).backing(),
            final(self)@ == bounded_push(old(self)@, N as nat, elem),
            final(self)@.len() <= N,
            old(self).laid_out(),
            final(self).laid_out(),
    {
        proof {
            use_type_invariant(&*self);
        }
        if self.len < N {
            let i = self.len;
            self.buffer[i] = elem;
            self.len = i + 1;
            assert(self@ =~= old(self)@.push(elem));
            Ok(())
        } else {
            Err(())
        }
    }

    /// The stored elements as a slice.
    pub fn as_slice(&self) -> (s: &[T])
        ensures
            s@ == self@,
            self.laid_out(),
    {
        proof {
            use_type_invariant(self);
        }
        vstd::slice::slice_subrange(self.buffer.as_slice(), 0, self.len)
    }

    /// Overwrites the element at `index`, which must be stored already.
    pub fn set(&mut self, index: usize, elem: T)
        requires
            index < old(self)@.len(),
        ensures
            final(self)@ == old(self)@.update(index as int, elem),
            final(self).backing() == old(self).backing().update(index as int, elem),
            old(self).laid_out(),
            final(self).laid_out(),
    {
        proof {
            use_type_invariant(&*self);
        }
        self.buffer[index] = elem;
        assert(self@ =~= old(self)@.update(index as int, elem));
    }
}

} // verus!
