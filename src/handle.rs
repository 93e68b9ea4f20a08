use vstd::prelude::*;

use crate::error::Error;

verus! {

/// A native handle tagged with whether this side must release it.
///
/// An owned handle is released exactly once, when its holder is dropped; a
/// borrowed one belongs to the engine and is never released here.
pub struct NativeHandle<P> {
    ptr: P,
    owned: bool,
}

impl<P> NativeHandle<P> {
    /// The native handle.
    pub closed spec fn handle(&self) -> P {
        self.ptr
    }

    /// Whether this side releases the handle when it is dropped.
    pub closed spec fn owns(&self) -> bool {
        self.owned
    }

    /// What dropping the holder releases.
    pub open spec fn spec_release_on_drop(&self) -> Option<P> {
        if self.owns() {
            Some(self.handle())
        } else {
            None
        }
    }

    /// Takes ownership of `ptr`.
    pub fn owned(ptr: P) -> (r: Self)
        ensures
            r.handle() == ptr,
            r.owns(),
    {
        NativeHandle { ptr, owned: true }
    }

    /// Borrows `ptr` from the engine.
    pub fn borrowed(ptr: P) -> (r: Self)
        ensures
            r.handle() == ptr,
            !r.owns(),
    {
        NativeHandle { ptr, owned: false }
    }

    pub fn ptr(&self) -> (r: &P)
        ensures
            *r == self.handle(),
    {
        &self.ptr
    }

    pub fn is_owned(&self) -> (r: bool)
        ensures
            r == self.owns(),
    {
        self.owned
    }

    /// The handle to release when the holder is dropped, if any.
    pub fn release_on_drop(&self) -> (r: Option<&P>)
        ensures
            r is Some <==> self.owns(),
            r matches Some(p) ==> *p == self.handle(),
    {
        if self.owned {
            Some(&self.ptr)
        } else {
            None
        }
    }
}

/// The per-instantiation kernel metadata, borrowed from the engine or owned
/// as a copy of it.
pub struct KernelAttributes<P> {
    handle: NativeHandle<P>,
}

impl<P> KernelAttributes<P> {
    /// The ownership-tagged native handle.
    pub closed spec fn native(&self) -> NativeHandle<P> {
        self.handle
    }

    /// Wraps a kernel-info handle; `should_release` makes it owned.
    pub fn from_ptr(ptr: P, should_release: bool) -> (r: Self)
        ensures
            r.native().handle() == ptr,
            r.native().owns() == should_release,
    {
        if should_release {
            KernelAttributes { handle: NativeHandle::owned(ptr) }
        } else {
            KernelAttributes { handle: NativeHandle::borrowed(ptr) }
        }
    }

    /// Wraps the handle the engine's copy primitive produced for a clone: a
    /// clone always owns its handle.
    pub fn from_copy(copy: P) -> (r: Self)
        ensures
            r.native().handle() == copy,
            r.native().owns(),
    {
        KernelAttributes { handle: NativeHandle::owned(copy) }
    }

    pub fn ptr(&self) -> (r: &P)
        ensures
            *r == self.native().handle(),
    {
        self.handle.ptr()
    }

    pub fn is_owned(&self) -> (r: bool)
        ensures
            r == self.native().owns(),
    {
        self.handle.is_owned()
    }

    /// The kernel-info handle to release when this is dropped, if any.
    pub fn release_on_drop(&self) -> (r: Option<&P>)
        ensures
            r is Some <==> self.native().owns(),
            r matches Some(p) ==> *p == self.native().handle(),
    {
        self.handle.release_on_drop()
    }

    /// An attribute lookup as kernel authors see it: the decoded value, or
    /// absent whatever the reason of a failure (a missing name, a value of
    /// another type, bytes that do not decode).
    pub fn get<T>(&self, lookup: Result<T, Error>) -> (r: Option<T>)
        ensures
            r == match lookup {
                Ok(v) => Some(v),
                Err(_) => None::<T>,
            },
    {
        match lookup {
            Ok(v) => Some(v),
            Err(_) => None,
        }
    }

    /// A constant input: the engine marks the input constant (`is_constant`
    /// non-zero) and hands out a value. The value stays the engine's: it is
    /// returned borrowed.
    pub fn constant_input<V>(&self, is_constant: i32, value: Option<V>) -> (r: Result<
        NativeHandle<V>,
        Error,
    >)
        ensures
            r is Ok <==> (is_constant != 0 && value is Some),
            r matches Ok(h) ==> Some(h.handle()) == value && !h.owns()
                && h.spec_release_on_drop() is None,
            r matches Err(e) ==> e == Error::NotConstant,
    {
        if is_constant == 0 {
            return Err(Error::NotConstant);
        }
        match value {
            Some(v) => Ok(NativeHandle::borrowed(v)),
            None => Err(Error::NotConstant),
        }
    }
}

/// Dropping a borrowed kernel-metadata view never releases anything.
pub proof fn lemma_borrowed_view_never_released<P>(k: KernelAttributes<P>)
    requires
        !k.native().owns(),
    ensures
        k.native().spec_release_on_drop() is None,
{
}

/// A clone made from a fresh copy of the native handle is independent of its
/// source: dropping it releases the copy, never the source's handle, and
/// the source still releases exactly what it did before.
pub proof fn lemma_clone_is_independent<P>(
    source: KernelAttributes<P>,
    clone: KernelAttributes<P>,
    copy: P,
)
    requires
        clone.native().handle() == copy,
        clone.native().owns(),
        copy != source.native().handle(),
    ensures
        clone.native().spec_release_on_drop() == Some(copy),
        clone.native().spec_release_on_drop() != Some(source.native().handle()),
        source.native().spec_release_on_drop() == (if source.native().owns() {
            Some(source.native().handle())
        } else {
            None
        }),
{
}

} // verus!
