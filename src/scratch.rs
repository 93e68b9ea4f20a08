use vstd::prelude::*;

verus! {

/// A temporary buffer owned exclusively by a kernel.
pub struct ScratchBuffer<T> {
    buffer: Vec<T>,
}

impl<T> View for ScratchBuffer<T> {
    type V = Seq<T>;

    closed spec fn view(&self) -> Seq<T> {
        self.buffer@
    }
}

impl<T> ScratchBuffer<T> {
    /// Takes ownership of `buffer`'s elements.
    pub fn new(buffer: Vec<T>) -> (r: Self)
        ensures
            r@ == buffer@,
    {
        ScratchBuffer { buffer }
    }

    pub fn len(&self) -> (r: usize)
        ensures
            r == self@.len(),
    {
        self.buffer.len()
    }

    pub fn as_slice(&self) -> (r: &[T])
        ensures
            r@ == self@,
    {
        self.buffer.as_slice()
    }

    /// The elements, for writing; what is written through the slice is what
    /// the buffer holds afterwards.
    pub fn as_mut_slice(&mut self) -> (r: &mut [T])
        ensures
            r@ == old(self)@,
            final(self)@ == final(r)@,
    {
        self.buffer.as_mut_slice()
    }
}

} // verus!
